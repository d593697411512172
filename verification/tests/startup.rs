use automod::discord::DiscordRequest;
use automod::initialization::{DiscordEventKinds, InitAction, InitStage};
use automod::settings::PluginSettings;
use automod::text::push_decimal;
use automod::Plugin;

#[test]
fn start_up_runs_every_stage_in_order() {
    let mut action = Plugin::initialization_start();
    let mut seen = vec![];
    while let InitAction::Perform(stage) = action {
        seen.push(stage);
        action = Plugin::initialization_step(stage, Ok(()));
    }
    assert_eq!(action, InitAction::Finish(Ok(())));
    assert_eq!(
        seen,
        vec![
            InitStage::ParseSettings,
            InitStage::FetchChannel,
            InitStage::ParseChannel,
            InitStage::RegisterService,
            InitStage::RegisterEvents,
            InitStage::StoreSettings,
        ]
    );
}

#[test]
fn failing_stage_ends_start_up_with_its_message() {
    let cases = [
        (InitStage::ParseSettings, "The provided settings were of the incorrect structure: boom"),
        (InitStage::FetchChannel, "An error occured while trying to get information of the automod channel: boom"),
        (InitStage::ParseChannel, "An error occured while deserializing the get channel response from Discord: boom"),
        (InitStage::RegisterService, "An error occured while making a Discord service registration: boom"),
        (InitStage::RegisterEvents, "An error occured while making a Discord event registration: boom"),
        (InitStage::StoreSettings, "An error while storing the settings: boom"),
    ];
    for (stage, expected) in cases {
        assert_eq!(
            Plugin::initialization_step(stage, Err(String::from("boom"))),
            InitAction::Finish(Err(String::from(expected)))
        );
    }
}

#[test]
fn first_failed_registration_is_reported() {
    let outcomes = vec![Ok(()), Err(String::from("a")), Err(String::from("b"))];
    assert_eq!(Plugin::registration_events_outcome(&outcomes), Err(String::from("a")));
    assert_eq!(Plugin::registration_events_outcome(&vec![Ok(()), Ok(())]), Ok(()));
    assert_eq!(Plugin::registration_events_outcome(&vec![]), Ok(()));
}

#[test]
fn channel_request_and_load_failure() {
    let mut s = PluginSettings::default();
    s.automod_channel_id = 5;
    assert_eq!(Plugin::get_channel_request(&s), DiscordRequest::GetChannel(5));
    assert_eq!(Plugin::settings_load_failure("gone"), "An error while storing the settings: gone");
}

#[test]
fn decimal_rendering() {
    for n in [0u64, 7, 10, 99, 100, 4096, u64::MAX] {
        let mut s = String::from("n=");
        push_decimal(&mut s, n);
        assert_eq!(s, format!("n={n}"));
    }
}

#[test]
fn registers_for_message_create_only() {
    let r = Plugin::registrations();
    assert!(r.core.is_none());
    let services = r.services.unwrap();
    assert!(services.job_scheduler.is_none());
    let discord = services.discord.unwrap();
    assert!(discord.interactions.is_none());
    assert_eq!(discord.events, Some(vec![DiscordEventKinds::MessageCreate]));
}

#[test]
fn channel_response_is_checked() {
    assert_eq!(Plugin::check_channel_response(r#"{"id":"5","type":0}"#), Ok(()));
    assert!(Plugin::check_channel_response("not json").is_err());
}

#[test]
fn message_create_is_read() {
    let json = r#"{"attachments":[{"filename":"a.png","id":"5","proxy_url":"https://p/a","size":1,"url":"https://a/1"}],"author":{"avatar":null,"discriminator":"0","id":"40","username":"eve"},"channel_id":"20","content":"","edited_timestamp":null,"embeds":[],"guild_id":"30","id":"10","type":0,"member":{"deaf":false,"flags":0,"joined_at":null,"mute":false,"roles":["7"],"communication_disabled_until":null,"nick":null,"user":null},"mention_everyone":false,"mention_roles":[],"mentions":[],"pinned":false,"timestamp":"2021-01-01T00:00:00.000000+00:00","tts":false}"#;
    let m = Plugin::parse_message_create(json).unwrap();
    assert_eq!((m.id, m.channel_id, m.guild_id, m.author_id), (10, 20, Some(30), 40));
    assert_eq!(m.author_name, "eve");
    assert_eq!(m.author_avatar, None);
    assert_eq!(m.member_roles, Some(vec![7]));
    assert_eq!(m.content, "");
    assert_eq!(m.attachment_urls, vec![String::from("https://a/1")]);
    assert!(Plugin::parse_message_create("{}").is_err());
}
