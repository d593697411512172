use automod::actions::TakeAction;
use automod::message::MessageInfo;
use automod::settings::{
    Actions, ActionsMessage, ActionsUser, PluginSettings, PluginSettingsAttachmentSpam,
    PluginSettingsBypass, PluginSettingsValidations,
};
use automod::Plugin;

fn settings(users: Vec<u64>, roles: Vec<u64>, enabled: bool, report: bool) -> PluginSettings {
    PluginSettings {
        automod_channel_id: 99,
        stack_time_outs: true,
        bypass: PluginSettingsBypass { users, roles },
        validations: PluginSettingsValidations {
            attachment_spam: PluginSettingsAttachmentSpam {
                enabled,
                count: 4,
                actions: Actions {
                    report,
                    message: Some(ActionsMessage::Delete),
                    user: Some(ActionsUser::TimeOut(60)),
                },
            },
        },
    }
}

fn message(content: &str, attachments: usize, roles: Option<Vec<u64>>) -> MessageInfo {
    MessageInfo {
        id: 10,
        channel_id: 20,
        guild_id: Some(30),
        author_id: 40,
        author_name: String::from("eve"),
        author_avatar: None,
        member_roles: roles,
        content: String::from(content),
        attachment_urls: (0..attachments).map(|i| format!("https://cdn.example/{i}.png")).collect(),
    }
}

#[test]
fn listed_user_bypasses() {
    assert!(Plugin::bypass(&settings(vec![1, 40], vec![], true, true), &message("", 9, None)));
}

#[test]
fn listed_role_bypasses() {
    let s = settings(vec![], vec![5, 6], true, true);
    assert!(Plugin::bypass(&s, &message("", 9, Some(vec![3, 6]))));
    assert!(!Plugin::bypass(&s, &message("", 9, Some(vec![3, 4]))));
    assert!(!Plugin::bypass(&s, &message("", 9, None)));
}

#[test]
fn message_with_text_is_not_spam() {
    assert!(Plugin::attachment_spam(&settings(vec![], vec![], true, true), &message("hi", 9, None)).is_none());
}

#[test]
fn too_few_attachments_is_not_spam() {
    assert!(Plugin::attachment_spam(&settings(vec![], vec![], true, true), &message("", 3, None)).is_none());
}

#[test]
fn spam_report_names_the_count() {
    let t = Plugin::attachment_spam(&settings(vec![], vec![], true, true), &message("", 12, None)).unwrap();
    assert_eq!(t.report.as_deref(), Some("Attachment spam (12), without message content"));
    assert_eq!(t.message, Some(ActionsMessage::Delete));
    assert_eq!(t.user, Some(ActionsUser::TimeOut(60)));
}

#[test]
fn spam_without_report_setting_has_no_report() {
    let t = Plugin::attachment_spam(&settings(vec![], vec![], true, false), &message("", 4, None)).unwrap();
    assert_eq!(t.report, None);
}

#[test]
fn validate_message_merges_the_spam_verdict() {
    let t = Plugin::validate_message(&settings(vec![], vec![], true, true), &message("", 4, None));
    assert_eq!(t.report.as_deref(), Some("- Attachment spam (4), without message content"));
    assert_eq!(t.message, Some(ActionsMessage::Delete));
    assert_eq!(t.user, Some(ActionsUser::TimeOut(60)));
}

#[test]
fn validate_message_leaves_exempt_authors_alone() {
    let t = Plugin::validate_message(&settings(vec![40], vec![], true, true), &message("", 4, None));
    assert_eq!(t, TakeAction::nothing());
}

#[test]
fn validate_message_does_nothing_when_disabled() {
    let t = Plugin::validate_message(&settings(vec![], vec![], false, true), &message("", 40, None));
    assert_eq!(t, TakeAction::nothing());
}
