//! The authenticated, decoded request payload and the parties named in it.
//!
//! Instants such as the member's join time are carried as unix seconds;
//! the transport layer converts from its wire format when it decodes a
//! request.

pub mod embed;
pub mod response;

use vstd::prelude::*;

verus! {

use vstd::string::StrSliceExecFns;
use crate::auth::parseable_u32;
use crate::auth::parseable_u64;
use crate::auth::parsed_u64;
use crate::auth::parse_timestamp;

/// The numeric type tag the wire format gives a liveness probe.
pub const PING_WIRE_TYPE: i32 = 1;

/// The numeric type tag the wire format gives a slash command.
pub const APPLICATION_COMMAND_WIRE_TYPE: i32 = 2;

/// One decoded interaction request.
#[derive(Debug)]
pub struct Interaction {
    pub version: i32,
    pub id: String,
    pub token: String,
    pub data: InteractionTypeAndData,
}

impl Interaction {
    /// The interaction protocol version.
    pub fn version(&self) -> (r: i32)
        ensures
            r == self.version,
    {
        self.version
    }

    /// The interaction's numeric id, parsed from its decimal text.
    pub fn interaction_id(&self) -> (r: u64)
        requires
            parseable_u64(self.id@),
        ensures
            r == parsed_u64(self.id@),
    {
        match parse_timestamp(self.id.as_str()) {
            Some(v) => v,
            None => unreached(),
        }
    }

    /// The continuation token for answering this interaction.
    pub fn token(&self) -> (r: &str)
        ensures
            r@ == self.token@,
    {
        self.token.as_str()
    }

    /// The type-specific payload.
    pub fn data(&self) -> (r: &InteractionTypeAndData)
        ensures
            r == self.data,
    {
        &self.data
    }

    /// The type-specific payload, taking the interaction apart.
    pub fn into_data(self) -> (r: InteractionTypeAndData)
        ensures
            r == self.data,
    {
        self.data
    }
}

/// The interaction's type together with the data that type carries.
#[derive(Debug)]
pub enum InteractionTypeAndData {
    /// A liveness probe; answered with a pong and nothing else.
    Ping,
    /// A slash command invoked by a guild member.
    ApplicationCommand {
        guild_id: String,
        channel_id: String,
        member: GuildMember,
        data: ApplicationCommandInteractionData,
    },
}

/// The guild member who invoked the command.
#[derive(Debug)]
pub struct GuildMember {
    pub user: User,
    pub nick: Option<String>,
    pub roles: Vec<String>,
    /// When the member joined, in unix seconds.
    pub joined_at: i64,
    /// When the member started boosting, in unix seconds.
    pub premium_since: Option<i64>,
    pub deaf: bool,
    pub mute: bool,
}

impl GuildMember {
    /// The member's user account.
    pub fn user(&self) -> (r: &User)
        ensures
            r == self.user,
    {
        &self.user
    }

    /// The member's guild nickname, if one is set.
    pub fn nick(&self) -> (r: Option<&str>)
        ensures
            self.nick matches Some(n) ==> r matches Some(s) && s@ == n@,
            self.nick is None ==> r is None,
    {
        match &self.nick {
            Some(n) => Some(n.as_str()),
            None => None,
        }
    }

    /// The member's guild nickname, or the account's username without one.
    pub fn nick_or_username(&self) -> (r: &str)
        ensures
            self.nick matches Some(n) ==> r@ == n@,
            self.nick is None ==> r@ == self.user.username@,
    {
        match &self.nick {
            Some(n) => n.as_str(),
            None => self.user.username.as_str(),
        }
    }

    /// The member's role ids, parsed from their decimal text.
    pub fn roles(&self) -> (r: Vec<u64>)
        requires
            forall|i: int| 0 <= i < self.roles@.len() ==> parseable_u64(
                #[trigger] self.roles@[i]@,
            ),
        ensures
            r@.len() == self.roles@.len(),
            forall|i: int| 0 <= i < r@.len() ==> r@[i] == parsed_u64(
                #[trigger] self.roles@[i]@,
            ),
    {
        let mut r: Vec<u64> = Vec::new();
        let mut i: usize = 0;
        while i < self.roles.len()
            invariant
                i <= self.roles@.len(),
                r@.len() == i,
                forall|j: int| 0 <= j < self.roles@.len() ==> parseable_u64(
                    #[trigger] self.roles@[j]@,
                ),
                forall|j: int| 0 <= j < i ==> r@[j] == parsed_u64(
                    #[trigger] self.roles@[j]@,
                ),
            decreases self.roles@.len() - i,
        {
            let v = match parse_timestamp(self.roles[i].as_str()) {
                Some(v) => v,
                None => unreached(),
            };
            r.push(v);
            i = i + 1;
        }
        r
    }

    /// When the member joined, in unix seconds.
    pub fn joined_at(&self) -> (r: i64)
        ensures
            r == self.joined_at,
    {
        self.joined_at
    }

    /// Whether the member is boosting the guild.
    pub fn is_boosting(&self) -> (r: bool)
        ensures
            r == self.premium_since is Some,
    {
        self.premium_since.is_some()
    }

    /// When the member started boosting, in unix seconds.
    pub fn boosting_since(&self) -> (r: Option<i64>)
        ensures
            r == self.premium_since,
    {
        self.premium_since
    }

    /// Whether the member is deafened in voice channels.
    pub fn is_deaf(&self) -> (r: bool)
        ensures
            r == self.deaf,
    {
        self.deaf
    }

    /// Whether the member is muted in voice channels.
    pub fn is_mute(&self) -> (r: bool)
        ensures
            r == self.mute,
    {
        self.mute
    }
}

/// A user account.
#[derive(Debug)]
pub struct User {
    pub id: String,
    pub username: String,
    pub discriminator: String,
    pub avatar: Option<String>,
    pub bot: Option<bool>,
    pub system: Option<bool>,
    pub mfa_enabled: Option<bool>,
    pub locale: Option<String>,
    pub verified: Option<bool>,
    pub email: Option<String>,
    pub flags: Option<i32>,
    pub premium_type: Option<i32>,
    pub public_flags: Option<i32>,
}

/// Whether an avatar name marks an animated avatar: its text begins with
/// the two characters of the animation prefix, given here over its UTF-8
/// bytes.
pub open spec fn spec_animated_avatar(ab: Seq<u8>) -> bool {
    ab.len() >= 2 && ab[0] == 97 && ab[1] == 95
}

/// The path under the image host for a default avatar, chosen by the
/// discriminator's remainder modulo five.
pub open spec fn spec_default_avatar_path(d: int) -> Seq<char> {
    if d == 0 {
        "/embed/avatars/0.png"@
    } else if d == 1 {
        "/embed/avatars/1.png"@
    } else if d == 2 {
        "/embed/avatars/2.png"@
    } else if d == 3 {
        "/embed/avatars/3.png"@
    } else {
        "/embed/avatars/4.png"@
    }
}

impl User {
    /// The account's numeric id, parsed from its decimal text.
    pub fn id(&self) -> (r: u64)
        requires
            parseable_u64(self.id@),
        ensures
            r == parsed_u64(self.id@),
    {
        match parse_timestamp(self.id.as_str()) {
            Some(v) => v,
            None => unreached(),
        }
    }

    /// The account's username.
    pub fn username(&self) -> (r: &str)
        ensures
            r@ == self.username@,
    {
        self.username.as_str()
    }

    /// The four-digit tag that distinguishes equal usernames.
    pub fn discriminator(&self) -> (r: &str)
        ensures
            r@ == self.discriminator@,
    {
        self.discriminator.as_str()
    }

    /// The username and discriminator joined by a number sign.
    pub fn username_and_discriminator(&self) -> (r: String)
        ensures
            r@ == self.username@ + "#"@ + self.discriminator@,
    {
        let mut r = String::new();
        r.append(self.username.as_str());
        r.append("#");
        r.append(self.discriminator.as_str());
        proof {
            assert(r@ =~= self.username@ + "#"@ + self.discriminator@);
        }
        r
    }

    /// The account's avatar name, if one is set.
    pub fn avatar(&self) -> (r: Option<&str>)
        ensures
            self.avatar matches Some(a) ==> r matches Some(s) && s@ == a@,
            self.avatar is None ==> r is None,
    {
        match &self.avatar {
            Some(a) => Some(a.as_str()),
            None => None,
        }
    }

    /// The path under the image host for the account's avatar: the set
    /// avatar, animated when its name carries the animation prefix, or
    /// else the default avatar for the discriminator.
    pub fn cdn_avatar_path(&self) -> (r: String)
        requires
            self.avatar is None ==> parseable_u32(self.discriminator@),
        ensures
            self.avatar matches Some(a) ==> r@ == "/avatars/"@ + self.id@ + "/"@ + a@ + "."@
                + (if spec_animated_avatar(vstd::utf8::encode_utf8(a@)) {
                "gif"@
            } else {
                "png"@
            }),
            self.avatar is None ==> r@ == spec_default_avatar_path(
                parsed_u64(self.discriminator@) as int % 5,
            ),
    {
        match &self.avatar {
            Some(avatar) => {
                let ab = avatar.as_str().as_bytes();
                let ext: &str = if ab.len() >= 2 && ab[0] == 97 && ab[1] == 95 {
                    "gif"
                } else {
                    "png"
                };
                let mut r = String::new();
                r.append("/avatars/");
                r.append(self.id.as_str());
                r.append("/");
                r.append(avatar.as_str());
                r.append(".");
                r.append(ext);
                proof {
                    assert(r@ =~= "/avatars/"@ + self.id@ + "/"@ + avatar@ + "."@ + ext@);
                }
                r
            },
            None => {
                let d = match parse_timestamp(self.discriminator.as_str()) {
                    Some(v) => v,
                    None => unreached(),
                };
                let path: &str = match d % 5 {
                    0 => "/embed/avatars/0.png",
                    1 => "/embed/avatars/1.png",
                    2 => "/embed/avatars/2.png",
                    3 => "/embed/avatars/3.png",
                    _ => "/embed/avatars/4.png",
                };
                String::from_str(path)
            },
        }
    }

    /// Whether the account belongs to a bot.
    pub fn is_bot(&self) -> (r: bool)
        ensures
            r == (self.bot == Some(true)),
    {
        match self.bot {
            Some(b) => b,
            None => false,
        }
    }

    /// Whether the account belongs to the system.
    pub fn is_system(&self) -> (r: bool)
        ensures
            r == (self.system == Some(true)),
    {
        match self.system {
            Some(b) => b,
            None => false,
        }
    }

    /// Whether the account has multi-factor authentication enabled.
    pub fn is_mfa_enabled(&self) -> (r: bool)
        ensures
            r == (self.mfa_enabled == Some(true)),
    {
        match self.mfa_enabled {
            Some(b) => b,
            None => false,
        }
    }
}

/// The command payload of an application-command interaction.
#[derive(Debug)]
pub struct ApplicationCommandInteractionData {
    pub id: String,
    pub name: String,
    pub options: Vec<ApplicationCommandInteractionDataOption>,
}

/// One option the caller filled in: a value, or a subcommand with its own
/// options.
#[derive(Debug)]
pub enum ApplicationCommandInteractionDataOption {
    Value { name: String, value: crate::option_value::OptionValue },
    Subcommand { name: String, options: Vec<ApplicationCommandInteractionDataOption> },
}

} // verus!
