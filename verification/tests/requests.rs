use automod::actions::TakeAction;
use automod::discord::DiscordRequest;
use automod::embed::{ReportEmbedAuthor, ReportEmbedFooter};
use automod::enforcement::{Effect, EnforcementAction};
use automod::message::MessageInfo;
use automod::settings::{ActionsMessage, ActionsUser, PluginSettings};
use automod::Plugin;

fn message(content: &str, urls: &[&str], avatar: Option<&str>) -> MessageInfo {
    MessageInfo {
        id: 10,
        channel_id: 20,
        guild_id: Some(30),
        author_id: 40,
        author_name: String::from("eve"),
        author_avatar: avatar.map(String::from),
        member_roles: None,
        content: String::from(content),
        attachment_urls: urls.iter().map(|u| u.to_string()).collect(),
    }
}

fn action(report: Option<&str>, message: Option<ActionsMessage>, user: Option<ActionsUser>) -> TakeAction {
    TakeAction { report: report.map(String::from), message, user }
}

fn text(body: &[u8]) -> String {
    String::from_utf8(body.to_vec()).unwrap()
}

#[test]
fn plan_deletes_then_acts_on_user_then_reports() {
    let t = action(Some("- x"), Some(ActionsMessage::Delete), Some(ActionsUser::TimeOut(60)));
    assert_eq!(Plugin::take_action(&t), vec![Effect::DeleteMessage, Effect::TimeOutUser(60), Effect::Report]);
    let u = action(None, None, Some(ActionsUser::Ban));
    assert_eq!(Plugin::take_action(&u), vec![Effect::BanUser]);
    assert_eq!(Plugin::take_action(&TakeAction::nothing()), vec![]);
}

#[test]
fn delete_request_names_channel_and_message() {
    assert_eq!(Plugin::delete_message(&message("", &[], None)), DiscordRequest::DeleteMessage(20, 10));
}

#[test]
fn report_description_lists_reasons_actions_and_message() {
    let t = action(Some("- Attachment spam (2), without message content"), Some(ActionsMessage::Delete), Some(ActionsUser::TimeOut(90)));
    let d = Plugin::report_description(&t, &message("", &["https://a/1", "https://a/2"], None));
    assert_eq!(
        d,
        "**Reasons:**\n- Attachment spam (2), without message content\n\n**Actions Taken:**\n- Message deleted\n- User timed out for 90 seconds\n\n**Message:**\nNo Content\n\nhttps://a/1\nhttps://a/2"
    );
}

#[test]
fn report_description_without_attachments_or_actions() {
    let t = action(Some("- r"), None, Some(ActionsUser::Ban));
    let d = Plugin::report_description(&t, &message("hello", &[], None));
    assert_eq!(d, "**Reasons:**\n- r\n\n**Actions Taken:**\n- User banned\n\n**Message:**\nhello\n\nNo Attachments");
}

#[test]
fn base_embed_fields() {
    let e = Plugin::base_embed(&message("", &[], Some("abc")), 1_700_000_000);
    assert_eq!(
        e.author,
        Some(ReportEmbedAuthor {
            icon_url: Some(String::from("https://cdn.discordapp.com/avatars/40/abc.webp")),
            name: String::from("eve"),
            proxy_icon_url: None,
            url: None,
        })
    );
    assert_eq!(e.color, Some(0x00E7_2323));
    assert_eq!(e.description, None);
    assert!(e.fields.is_empty());
    assert_eq!(
        e.footer,
        Some(ReportEmbedFooter { icon_url: None, proxy_icon_url: None, text: String::from("ID: 40") })
    );
    assert_eq!((e.image, e.provider, e.thumbnail, e.url, e.video), (None, None, None, None, None));
    assert_eq!(e.kind, "rich");
    assert_eq!(e.timestamp_secs, Some(1_700_000_000));
    assert_eq!(e.title.as_deref(), Some("Automod Report"));
    assert_eq!(Plugin::base_embed(&message("", &[], None), 0).author.unwrap().icon_url, None);
}

#[test]
fn clock_timestamp_falls_back_to_epoch() {
    assert_eq!(Plugin::clock_timestamp(0), 0);
    assert_eq!(Plugin::clock_timestamp(253_402_300_799), 253_402_300_799);
    assert_eq!(Plugin::clock_timestamp(253_402_300_800), 0);
    assert_eq!(Plugin::clock_timestamp(u64::MAX), 0);
}

#[test]
fn report_request_carries_the_embed() {
    let mut s = PluginSettings::default();
    s.automod_channel_id = 77;
    let t = action(Some("- spam"), Some(ActionsMessage::Delete), None);
    match Plugin::report(&s, &t, &message("", &[], None), 1_700_000_000).unwrap() {
        DiscordRequest::CreateMessage(channel, body) => {
            assert_eq!(channel, 77);
            let body = text(&body);
            assert!(body.contains("\"title\":\"Automod Report\""));
            assert!(body.contains("- spam"));
            assert!(body.contains("\"type\":\"rich\""));
        }
        other => panic!("unexpected {other:?}"),
    }
}

#[test]
fn oversized_report_is_refused() {
    let mut s = PluginSettings::default();
    s.automod_channel_id = 77;
    let long = "x".repeat(5000);
    let t = action(Some(&long), None, None);
    let e = Plugin::report(&s, &t, &message("", &[], None), 0).unwrap_err();
    let prefix = "An error occured while creating the report create message request: ";
    assert!(e.starts_with(prefix));
    assert!(e.len() > prefix.len());
}

#[test]
fn ban_request_targets_author_in_guild() {
    match Plugin::ban_user(Some("- spam"), &message("", &[], None)).unwrap() {
        DiscordRequest::CreateBan(g, u, body) => {
            assert_eq!((g, u), (30, 40));
            assert!(text(&body).starts_with('{'));
        }
        other => panic!("unexpected {other:?}"),
    }
    assert!(Plugin::ban_user(None, &message("", &[], None)).is_ok());
}

#[test]
fn overlong_ban_reason_is_refused() {
    let long = "y".repeat(600);
    let e = Plugin::ban_user(Some(&long), &message("", &[], None)).unwrap_err();
    assert!(e.starts_with("An error occured while creating the create ban request: "));
}

fn now() -> u64 {
    std::time::UNIX_EPOCH.elapsed().unwrap().as_secs()
}

#[test]
fn time_out_request_sets_the_end() {
    match Plugin::time_out_user(&message("", &[], None), 60, now()).unwrap() {
        DiscordRequest::UpdateMember(g, u, body) => {
            assert_eq!((g, u), (30, 40));
            assert!(text(&body).contains("communication_disabled_until"));
        }
        other => panic!("unexpected {other:?}"),
    }
}

#[test]
fn too_long_time_out_is_refused() {
    let e = Plugin::time_out_user(&message("", &[], None), 60 * 24 * 60 * 60, now()).unwrap_err();
    assert!(e.starts_with("An error occured while creating the update member request: "));
}

#[test]
fn effect_request_dispatches() {
    let mut s = PluginSettings::default();
    s.automod_channel_id = 77;
    let m = message("", &[], None);
    let t = action(Some("- r"), Some(ActionsMessage::Delete), Some(ActionsUser::Ban));
    assert_eq!(Plugin::effect_request(&s, &t, &m, Effect::DeleteMessage, 0), Ok(DiscordRequest::DeleteMessage(20, 10)));
    assert!(matches!(Plugin::effect_request(&s, &t, &m, Effect::BanUser, 0), Ok(DiscordRequest::CreateBan(30, 40, _))));
    assert!(matches!(Plugin::effect_request(&s, &t, &m, Effect::Report, 0), Ok(DiscordRequest::CreateMessage(77, _))));
}

#[test]
fn enforcement_runs_steps_in_order_and_stops_at_a_failure() {
    let plan = vec![Effect::DeleteMessage, Effect::BanUser, Effect::Report];
    assert_eq!(Plugin::enforcement_start(&plan), EnforcementAction::Send(0));
    assert_eq!(Plugin::enforcement_step(&plan, 0, Ok(())), EnforcementAction::Send(1));
    assert_eq!(
        Plugin::enforcement_step(&plan, 1, Err(String::from("denied"))),
        EnforcementAction::Finish(Err(String::from("denied")))
    );
    assert_eq!(Plugin::enforcement_step(&plan, 2, Ok(())), EnforcementAction::Finish(Ok(())));
    assert_eq!(Plugin::enforcement_start(&vec![]), EnforcementAction::Finish(Ok(())));
}
