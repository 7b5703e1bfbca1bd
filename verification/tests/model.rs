use disint::command::builder::ApplicationCommandBuilder;
use disint::command::builder::ApplicationCommandOptionBuilder;
use disint::command::builder::Regular;
use disint::command::builder::RegularIncomplete;
use disint::command::ApplicationCommandOptionType;
use disint::command::ChoicesOrOptions;
use disint::interaction::embed::Field;
use disint::interaction::response::AllowedMentions;
use disint::interaction::response::AllowedMentionsKind;
use disint::interaction::response::InteractionResponse;
use disint::interaction::response::InteractionResponseBuilder;
use disint::interaction::GuildMember;
use disint::interaction::User;
use disint::interaction_response as legacy;
use disint::option_value::OptionValue;

fn sample_user(avatar: Option<&str>) -> User {
    User {
        id: "80351110224678912".to_string(),
        username: "Nelly".to_string(),
        discriminator: "1337".to_string(),
        avatar: avatar.map(|a| a.to_string()),
        bot: None,
        system: None,
        mfa_enabled: Some(true),
        locale: None,
        verified: None,
        email: None,
        flags: None,
        premium_type: None,
        public_flags: None,
    }
}

#[test]
fn option_value_conversions() {
    let s = OptionValue::String("hello".to_string());
    let i = OptionValue::Int(-3);
    assert_eq!(s.clone().try_into_string(), Ok("hello".to_string()));
    assert_eq!(i.clone().try_into_string(), Err(OptionValue::Int(-3)));
    assert_eq!(i.clone().try_into_int(), Ok(-3));
    assert_eq!(s.clone().into_string(), "hello".to_string());
    assert_eq!(i.clone().into_int(), -3);
    assert_eq!(s.try_as_str(), Some("hello"));
    assert_eq!(i.try_as_str(), None);
    assert_eq!(i.try_as_int(), Some(-3));
    assert_eq!(s.try_as_int(), None);
    assert_eq!(s.as_str(), "hello");
}

#[test]
fn user_getters() {
    let u = sample_user(None);
    assert_eq!(u.id(), 80351110224678912);
    assert_eq!(u.username(), "Nelly");
    assert_eq!(u.discriminator(), "1337");
    assert_eq!(u.username_and_discriminator(), "Nelly#1337");
    assert_eq!(u.avatar(), None);
    assert!(!u.is_bot());
    assert!(!u.is_system());
    assert!(u.is_mfa_enabled());
}

#[test]
fn cdn_avatar_path_for_set_avatars() {
    let plain = sample_user(Some("8342729096ea3675442027381ff50dfe"));
    assert_eq!(
        plain.cdn_avatar_path(),
        "/avatars/80351110224678912/8342729096ea3675442027381ff50dfe.png"
    );
    let animated = sample_user(Some("a_8342729096ea3675442027381ff50dfe"));
    assert_eq!(
        animated.cdn_avatar_path(),
        "/avatars/80351110224678912/a_8342729096ea3675442027381ff50dfe.gif"
    );
}

#[test]
fn cdn_avatar_path_for_default_avatar() {
    // 1337 % 5 == 2
    let u = sample_user(None);
    assert_eq!(u.cdn_avatar_path(), "/embed/avatars/2.png");
}

#[test]
fn guild_member_getters() {
    let m = GuildMember {
        user: sample_user(None),
        nick: Some("nick".to_string()),
        roles: vec!["41771983423143936".to_string(), "7".to_string()],
        joined_at: 1_600_000_000,
        premium_since: None,
        deaf: false,
        mute: true,
    };
    assert_eq!(m.user().username(), "Nelly");
    assert_eq!(m.nick(), Some("nick"));
    assert_eq!(m.nick_or_username(), "nick");
    assert_eq!(m.roles(), vec![41771983423143936, 7]);
    assert_eq!(m.joined_at(), 1_600_000_000);
    assert!(!m.is_boosting());
    assert_eq!(m.boosting_since(), None);
    assert!(!m.is_deaf());
    assert!(m.is_mute());

    let unnamed = GuildMember { nick: None, ..m };
    assert_eq!(unnamed.nick_or_username(), "Nelly");
}

#[test]
fn response_builder_assembles_channel_message() {
    let response = InteractionResponseBuilder::channel_message()
        .tts(true)
        .allowed_mentions(AllowedMentions::default())
        .content("hello")
        .finish();
    assert_eq!(response.wire_type(), 4);
    let data = response.callback_data().unwrap();
    assert_eq!(data.tts, Some(true));
    assert_eq!(data.content.as_deref(), Some("hello"));
    assert!(data.embeds.is_none());
    assert!(data.allowed_mentions.is_some());
}

#[test]
fn response_builder_gathers_embeds() {
    let mut embed = disint::interaction::embed::Embed {
        title: Some("title".to_string()),
        description: None,
        url: None,
        timestamp: None,
        footer: None,
        thumbnail: None,
        image: None,
        video: None,
        provider: None,
        author: None,
        fields: None,
    };
    embed.fields = Some(vec![Field::new("k", "v"), Field::new_inline("k2", "v2")]);
    let response = InteractionResponseBuilder::channel_message().embed(embed).finish();
    let data = response.callback_data().unwrap();
    let embeds = data.embeds.as_ref().unwrap();
    assert_eq!(embeds.len(), 1);
    let fields = embeds[0].fields.as_ref().unwrap();
    assert_eq!(fields[0].name, "k");
    assert_eq!(fields[0].inline, None);
    assert_eq!(fields[1].inline, Some(true));
}

#[test]
fn pong_and_deferred_wire_types() {
    let pong = InteractionResponseBuilder::pong().finish();
    assert_eq!(pong.wire_type(), 1);
    assert!(pong.callback_data().is_none());
    let deferred = InteractionResponseBuilder::deferred().finish();
    assert_eq!(deferred.wire_type(), 5);
    assert!(deferred.callback_data().is_none());
}

#[test]
fn allowed_mentions_wire_shape() {
    let am = AllowedMentions {
        roles: AllowedMentionsKind::All,
        users: AllowedMentionsKind::List(vec!["123".to_string()]),
        deny_mention_everyone: true,
    };
    let w = am.to_wire();
    assert_eq!(w.parse, vec!["roles".to_string()]);
    assert_eq!(w.roles, None);
    assert_eq!(w.users, Some(vec!["123".to_string()]));

    let defaults = AllowedMentions::default().to_wire();
    assert_eq!(
        defaults.parse,
        vec!["everyone".to_string(), "roles".to_string(), "users".to_string()]
    );
    assert_eq!(defaults.roles, None);
    assert_eq!(defaults.users, None);

    let nobody = AllowedMentions {
        roles: AllowedMentionsKind::NoOne,
        users: AllowedMentionsKind::NoOne,
        deny_mention_everyone: true,
    }
    .to_wire();
    assert!(nobody.parse.is_empty());
    assert_eq!(nobody.roles, None);
    assert_eq!(nobody.users, None);
}

#[test]
fn allowed_mentions_kind_defaults_to_all() {
    assert!(matches!(AllowedMentionsKind::new(), AllowedMentionsKind::All));
    assert!(matches!(AllowedMentionsKind::default(), AllowedMentionsKind::All));
}

#[test]
fn legacy_builder_acknowledge() {
    let r = legacy::InteractionResponseBuilder::acknowledge().finish();
    assert!(matches!(r, legacy::InteractionResponse::Acknowledge));
    let r = legacy::InteractionResponseBuilder::acknowledge().with_source(true).finish();
    assert!(matches!(r, legacy::InteractionResponse::AcknowledgeWithSource));
    let r = legacy::InteractionResponseBuilder::pong().finish();
    assert!(matches!(r, legacy::InteractionResponse::Pong));
}

#[test]
fn legacy_builder_channel_message() {
    let r = legacy::InteractionResponseBuilder::channel_message()
        .with_source(true)
        .tts(false)
        .content("text")
        .finish();
    match r {
        legacy::InteractionResponse::ChannelMessageWithSource(data) => {
            assert_eq!(data.content.as_deref(), Some("text"));
            assert_eq!(data.tts, Some(false));
        },
        other => panic!("unexpected response: {:?}", other),
    }
    let r = legacy::InteractionResponseBuilder::channel_message().content("t").finish();
    assert!(matches!(r, legacy::InteractionResponse::ChannelMessage(_)));
}

#[test]
fn command_builder_regular_option() {
    let b = ApplicationCommandBuilder::new("greet", "Greets someone").option(
        "name",
        "Who to greet",
        |b: ApplicationCommandOptionBuilder<RegularIncomplete>| ApplicationCommandOptionBuilder {
            name: b.name,
            description: b.description,
            state: Regular {
                ty: ApplicationCommandOptionType::String,
                required: b.state.required,
                choices: Vec::new(),
            },
        },
    );
    assert_eq!(b.name, "greet");
    assert_eq!(b.description, "Greets someone");
    assert_eq!(b.state.options.len(), 1);
    let opt = &b.state.options[0];
    assert_eq!(opt.name, "name");
    assert_eq!(opt.ty, ApplicationCommandOptionType::String);
    assert_eq!(opt.required, Some(true));
    assert!(opt.choices_options.is_none());
}

#[test]
fn command_builder_subcommand() {
    let b = ApplicationCommandBuilder::new("admin", "Admin commands").subcommand(
        "kick",
        "Kicks a member",
        |b| ApplicationCommandOptionBuilder {
            name: b.name,
            description: b.description,
            state: disint::command::builder::Subcommand { options: Vec::new() },
        },
    );
    assert_eq!(b.state.options.len(), 1);
    let opt = &b.state.options[0];
    assert_eq!(opt.ty, ApplicationCommandOptionType::SubCommand);
    assert_eq!(opt.name, "kick");
    assert_eq!(opt.required, None);
    assert!(matches!(
        opt.choices_options,
        Some(ChoicesOrOptions::Options { ref options }) if options.is_empty()
    ));
}

#[test]
fn command_option_builder_required() {
    let b = ApplicationCommandOptionBuilder {
        name: "name".to_string(),
        description: "desc".to_string(),
        state: Regular {
            ty: ApplicationCommandOptionType::Integer,
            required: true,
            choices: Vec::new(),
        },
    }
    .required(false);
    assert!(!b.state.required);
    assert_eq!(b.state.ty, ApplicationCommandOptionType::Integer);
}

#[test]
fn option_type_wire_codes() {
    assert_eq!(ApplicationCommandOptionType::SubCommand.wire_code(), 1);
    assert_eq!(ApplicationCommandOptionType::SubCommandGroup.wire_code(), 2);
    assert_eq!(ApplicationCommandOptionType::String.wire_code(), 3);
    assert_eq!(ApplicationCommandOptionType::Integer.wire_code(), 4);
    assert_eq!(ApplicationCommandOptionType::Boolean.wire_code(), 5);
    assert_eq!(ApplicationCommandOptionType::User.wire_code(), 6);
    assert_eq!(ApplicationCommandOptionType::Channel.wire_code(), 7);
    assert_eq!(ApplicationCommandOptionType::Role.wire_code(), 8);
}
