//! Reply payloads and the type-state builder that assembles them.
//!
//! The wire shaping that serialization needs — the numeric response type
//! and the mention-permission lists — is computed here; the transport
//! layer only writes the shaped values out.

use vstd::prelude::*;

verus! {

use super::embed::Embed;

/// A reply to an interaction.
#[derive(Debug)]
pub enum InteractionResponse {
    /// The answer to a liveness probe.
    Pong,
    /// An immediate channel message.
    ChannelMessageWithSource(ApplicationCommandCallbackData),
    /// An acknowledgement that promises a later message.
    DeferredChannelMessageWithSource,
}

impl InteractionResponse {
    /// The numeric type tag the wire format gives this response.
    pub open spec fn spec_wire_type(&self) -> i32 {
        match self {
            InteractionResponse::Pong => 1,
            InteractionResponse::ChannelMessageWithSource(_) => 4,
            InteractionResponse::DeferredChannelMessageWithSource => 5,
        }
    }

    /// The numeric type tag the wire format gives this response.
    pub fn wire_type(&self) -> (t: i32)
        ensures
            t == self.spec_wire_type(),
    {
        match self {
            InteractionResponse::Pong => 1,
            InteractionResponse::ChannelMessageWithSource(_) => 4,
            InteractionResponse::DeferredChannelMessageWithSource => 5,
        }
    }

    /// The message data the wire format sends along with the type tag;
    /// only a channel message carries any.
    pub fn callback_data(&self) -> (d: Option<&ApplicationCommandCallbackData>)
        ensures
            self matches InteractionResponse::ChannelMessageWithSource(data) ==> d matches Some(
                x,
            ) && *x == data,
            !(self is ChannelMessageWithSource) ==> d is None,
    {
        match self {
            InteractionResponse::ChannelMessageWithSource(data) => Some(data),
            _ => None,
        }
    }
}

/// The body of a channel-message reply.
#[derive(Debug)]
pub struct ApplicationCommandCallbackData {
    pub tts: Option<bool>,
    pub content: Option<String>,
    pub embeds: Option<Vec<Embed>>,
    pub allowed_mentions: Option<AllowedMentions>,
}

/// Which mentions in the message may notify: everyone-mentions unless
/// denied, and roles and users each either all, an explicit list, or none.
#[derive(Clone, Debug)]
pub struct AllowedMentions {
    pub roles: AllowedMentionsKind,
    pub users: AllowedMentionsKind,
    pub deny_mention_everyone: bool,
}

impl Default for AllowedMentions {
    /// Everything may notify: all roles, all users, and everyone-mentions.
    fn default() -> (r: AllowedMentions)
        ensures
            r.roles is All,
            r.users is All,
            !r.deny_mention_everyone,
    {
        AllowedMentions {
            roles: AllowedMentionsKind::All,
            users: AllowedMentionsKind::All,
            deny_mention_everyone: false,
        }
    }
}

/// How widely one kind of mention may notify.
#[derive(Clone, Debug)]
pub enum AllowedMentionsKind {
    /// Every mention of this kind may notify.
    All,
    /// Only the listed ids may notify.
    List(Vec<String>),
    /// No mention of this kind may notify.
    NoOne,
}

impl AllowedMentionsKind {
    /// The default: every mention of this kind may notify.
    pub fn new() -> (r: Self)
        ensures
            r is All,
    {
        AllowedMentionsKind::All
    }
}

impl Default for AllowedMentionsKind {
    /// Every mention of this kind may notify.
    fn default() -> (r: AllowedMentionsKind)
        ensures
            r is All,
    {
        AllowedMentionsKind::All
    }
}

/// The wire form of a mention permission: names of the kinds allowed
/// wholesale, and the explicit id lists.
#[derive(Debug)]
pub struct AllowedMentionsWire {
    pub parse: Vec<String>,
    pub roles: Option<Vec<String>>,
    pub users: Option<Vec<String>>,
}

/// The names in the wire form's `parse` list: everyone-mentions unless
/// denied, then roles and users when allowed wholesale, in that order.
pub open spec fn spec_parse_list(am: AllowedMentions) -> Seq<Seq<char>> {
    (if !am.deny_mention_everyone {
        seq!["everyone"@]
    } else {
        Seq::<Seq<char>>::empty()
    }) + (if am.roles is All {
        seq!["roles"@]
    } else {
        Seq::<Seq<char>>::empty()
    }) + (if am.users is All {
        seq!["users"@]
    } else {
        Seq::<Seq<char>>::empty()
    })
}

impl AllowedMentions {
    /// Shapes the permission for the wire: kinds allowed wholesale go into
    /// the `parse` list, explicit lists are copied through, and a denied
    /// kind appears nowhere.
    pub fn to_wire(&self) -> (w: AllowedMentionsWire)
        ensures
            w.parse.deep_view() == spec_parse_list(*self),
            self.roles matches AllowedMentionsKind::List(l) ==> w.roles matches Some(v)
                && v.deep_view() == l.deep_view(),
            !(self.roles is List) ==> w.roles is None,
            self.users matches AllowedMentionsKind::List(l) ==> w.users matches Some(v)
                && v.deep_view() == l.deep_view(),
            !(self.users is List) ==> w.users is None,
    {
        broadcast use vstd::std_specs::vec::vec_clone_deep_view_proof;

        let mut parse: Vec<String> = Vec::new();
        if !self.deny_mention_everyone {
            parse.push(String::from_str("everyone"));
        }
        let mut roles: Option<Vec<String>> = None;
        match &self.roles {
            AllowedMentionsKind::All => parse.push(String::from_str("roles")),
            AllowedMentionsKind::List(l) => {
                roles = Some(l.clone());
            },
            AllowedMentionsKind::NoOne => {},
        }
        let mut users: Option<Vec<String>> = None;
        match &self.users {
            AllowedMentionsKind::All => parse.push(String::from_str("users")),
            AllowedMentionsKind::List(l) => {
                users = Some(l.clone());
            },
            AllowedMentionsKind::NoOne => {},
        }
        proof {
            assert(parse.deep_view() =~= spec_parse_list(*self));
        }
        AllowedMentionsWire { parse, roles, users }
    }
}

/// The embeds already gathered: the list if one was started, else none.
pub open spec fn spec_embeds_seq(e: Option<Vec<Embed>>) -> Seq<Embed> {
    match e {
        Some(v) => v@,
        None => Seq::<Embed>::empty(),
    }
}

/// Assembles a reply step by step; the type parameter names the state the
/// reply is in, so an incomplete reply cannot be finished.
#[derive(Debug)]
pub struct InteractionResponseBuilder<State>(pub State);

/// State of a pong reply.
#[derive(Debug)]
pub struct Pong;

/// State of a deferred-message reply.
#[derive(Debug)]
pub struct Deferred;

/// State of a channel message that has no content yet.
#[derive(Debug)]
pub struct ChannelMessageNoContent {
    pub tts: Option<bool>,
    pub embeds: Option<Vec<Embed>>,
    pub allowed_mentions: Option<AllowedMentions>,
}

/// State of a channel message that can be finished.
#[derive(Debug)]
pub struct ChannelMessage {
    pub content: Option<String>,
    pub tts: Option<bool>,
    pub embeds: Option<Vec<Embed>>,
    pub allowed_mentions: Option<AllowedMentions>,
}

impl InteractionResponseBuilder<Pong> {
    /// Starts a pong reply.
    pub fn pong() -> Self {
        InteractionResponseBuilder(Pong)
    }

    /// The finished pong reply.
    pub fn finish(self) -> (r: InteractionResponse)
        ensures
            r is Pong,
    {
        InteractionResponse::Pong
    }
}

impl InteractionResponseBuilder<Deferred> {
    /// Starts a deferred-message reply.
    pub fn deferred() -> Self {
        InteractionResponseBuilder(Deferred)
    }

    /// The finished deferred-message reply.
    pub fn finish(self) -> (r: InteractionResponse)
        ensures
            r is DeferredChannelMessageWithSource,
    {
        InteractionResponse::DeferredChannelMessageWithSource
    }
}

impl InteractionResponseBuilder<ChannelMessageNoContent> {
    /// Starts a channel-message reply with nothing set.
    pub fn channel_message() -> (r: Self)
        ensures
            r.0.tts is None,
            r.0.embeds is None,
            r.0.allowed_mentions is None,
    {
        InteractionResponseBuilder(
            ChannelMessageNoContent { tts: None, embeds: None, allowed_mentions: None },
        )
    }

    /// Sets the message text; the reply can then be finished.
    pub fn content(self, content: &str) -> (r: InteractionResponseBuilder<ChannelMessage>)
        ensures
            r.0.content matches Some(c) && c@ == content@,
            r.0.tts == self.0.tts,
            r.0.embeds == self.0.embeds,
            r.0.allowed_mentions == self.0.allowed_mentions,
    {
        let ChannelMessageNoContent { tts, embeds, allowed_mentions } = self.0;
        InteractionResponseBuilder(
            ChannelMessage { content: Some(content.to_owned()), tts, embeds, allowed_mentions },
        )
    }

    /// Sets whether the message is read aloud.
    pub fn tts(self, tts: bool) -> (r: Self)
        ensures
            r.0.tts == Some(tts),
            r.0.embeds == self.0.embeds,
            r.0.allowed_mentions == self.0.allowed_mentions,
    {
        let mut s = self;
        s.0.tts = Some(tts);
        s
    }

    /// Adds an embed; the reply can then be finished without text.
    pub fn embed(self, embed: Embed) -> (r: InteractionResponseBuilder<ChannelMessage>)
        ensures
            r.0.content is None,
            r.0.tts == self.0.tts,
            r.0.allowed_mentions == self.0.allowed_mentions,
            r.0.embeds matches Some(v) && v@ == spec_embeds_seq(self.0.embeds).push(embed),
    {
        let ChannelMessageNoContent { tts, embeds, allowed_mentions } = self.0;
        let mut v = match embeds {
            Some(v) => v,
            None => Vec::new(),
        };
        v.push(embed);
        InteractionResponseBuilder(
            ChannelMessage { content: None, tts, embeds: Some(v), allowed_mentions },
        )
    }

    /// Sets which mentions may notify.
    pub fn allowed_mentions(self, allowed_mentions: AllowedMentions) -> (r: Self)
        ensures
            r.0.allowed_mentions == Some(allowed_mentions),
            r.0.tts == self.0.tts,
            r.0.embeds == self.0.embeds,
    {
        let mut s = self;
        s.0.allowed_mentions = Some(allowed_mentions);
        s
    }
}

impl InteractionResponseBuilder<ChannelMessage> {
    /// The finished channel-message reply, carrying exactly what was set.
    pub fn finish(self) -> (r: InteractionResponse)
        ensures
            r == (InteractionResponse::ChannelMessageWithSource(
                ApplicationCommandCallbackData {
                    tts: self.0.tts,
                    content: self.0.content,
                    embeds: self.0.embeds,
                    allowed_mentions: self.0.allowed_mentions,
                },
            )),
    {
        let ChannelMessage { content, tts, embeds, allowed_mentions } = self.0;
        InteractionResponse::ChannelMessageWithSource(
            ApplicationCommandCallbackData { tts, content, embeds, allowed_mentions },
        )
    }

    /// Replaces the message text.
    pub fn content(self, content: &str) -> (r: Self)
        ensures
            r.0.content matches Some(c) && c@ == content@,
            r.0.tts == self.0.tts,
            r.0.embeds == self.0.embeds,
            r.0.allowed_mentions == self.0.allowed_mentions,
    {
        let mut s = self;
        s.0.content = Some(content.to_owned());
        s
    }

    /// Sets whether the message is read aloud.
    pub fn tts(self, tts: bool) -> (r: Self)
        ensures
            r.0.tts == Some(tts),
            r.0.content == self.0.content,
            r.0.embeds == self.0.embeds,
            r.0.allowed_mentions == self.0.allowed_mentions,
    {
        let mut s = self;
        s.0.tts = Some(tts);
        s
    }

    /// Adds an embed to the ones already gathered.
    pub fn embed(self, embed: Embed) -> (r: Self)
        ensures
            r.0.content == self.0.content,
            r.0.tts == self.0.tts,
            r.0.allowed_mentions == self.0.allowed_mentions,
            r.0.embeds matches Some(v) && v@ == spec_embeds_seq(self.0.embeds).push(embed),
    {
        let ChannelMessage { content, tts, embeds, allowed_mentions } = self.0;
        let mut v = match embeds {
            Some(v) => v,
            None => Vec::new(),
        };
        v.push(embed);
        InteractionResponseBuilder(
            ChannelMessage { content, tts, embeds: Some(v), allowed_mentions },
        )
    }

    /// Sets which mentions may notify.
    pub fn allowed_mentions(self, allowed_mentions: AllowedMentions) -> (r: Self)
        ensures
            r.0.allowed_mentions == Some(allowed_mentions),
            r.0.content == self.0.content,
            r.0.tts == self.0.tts,
            r.0.embeds == self.0.embeds,
    {
        let mut s = self;
        s.0.allowed_mentions = Some(allowed_mentions);
        s
    }
}

} // verus!
