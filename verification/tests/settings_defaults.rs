use automod::settings::{
    Actions, ActionsMessage, ActionsUser, PluginSettings, PluginSettingsAttachmentSpam,
    PluginSettingsBypass, PluginSettingsValidations,
};

#[test]
fn stack_time_outs_defaults_to_true() {
    assert!(PluginSettings::stack_time_outs_default());
}

#[test]
fn attachment_count_defaults_to_four() {
    assert_eq!(PluginSettingsAttachmentSpam::count_default(), 4);
}

#[test]
fn action_defaults_report_delete_and_time_out_a_minute() {
    assert!(Actions::report_default());
    assert_eq!(Actions::message_default(), Some(ActionsMessage::Delete));
    assert_eq!(Actions::user_default(), Some(ActionsUser::TimeOut(60)));
}

#[test]
fn enum_defaults() {
    assert_eq!(ActionsMessage::default(), ActionsMessage::Delete);
    assert_eq!(ActionsUser::default(), ActionsUser::TimeOut(60));
}

#[test]
fn struct_defaults_are_empty() {
    let s = PluginSettings::default();
    assert_eq!(s.automod_channel_id, 0);
    assert!(!s.stack_time_outs);
    assert_eq!(s.bypass, PluginSettingsBypass { users: vec![], roles: vec![] });
    assert_eq!(
        s.validations,
        PluginSettingsValidations {
            attachment_spam: PluginSettingsAttachmentSpam {
                enabled: false,
                count: 0,
                actions: Actions { report: false, message: None, user: None },
            },
        }
    );
    assert_eq!(Actions::default(), Actions { report: false, message: None, user: None });
}
