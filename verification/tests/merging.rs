use automod::actions::TakeAction;
use automod::settings::{ActionsMessage, ActionsUser};
use automod::Plugin;

fn action(report: Option<&str>, message: Option<ActionsMessage>, user: Option<ActionsUser>) -> TakeAction {
    TakeAction { report: report.map(String::from), message, user }
}

#[test]
fn merging_nothing_changes_nothing() {
    let mut t = action(Some("- a"), Some(ActionsMessage::Delete), Some(ActionsUser::TimeOut(3)));
    Plugin::update_take_action(&mut t, TakeAction::nothing());
    assert_eq!(t, action(Some("- a"), Some(ActionsMessage::Delete), Some(ActionsUser::TimeOut(3))));
}

#[test]
fn first_report_becomes_a_list_item() {
    let mut t = TakeAction::nothing();
    Plugin::update_take_action(&mut t, action(Some("spam"), None, None));
    assert_eq!(t.report.as_deref(), Some("- spam"));
}

#[test]
fn further_reports_are_appended_as_lines() {
    let mut t = TakeAction::nothing();
    Plugin::update_take_action(&mut t, action(Some("one"), None, None));
    Plugin::update_take_action(&mut t, action(Some("two"), None, None));
    assert_eq!(t.report.as_deref(), Some("- one\n- two"));
}

#[test]
fn first_message_action_stays() {
    let mut t = TakeAction::nothing();
    Plugin::update_take_action(&mut t, action(None, Some(ActionsMessage::Delete), None));
    Plugin::update_take_action(&mut t, action(None, None, None));
    assert_eq!(t.message, Some(ActionsMessage::Delete));
}

#[test]
fn time_outs_add_up() {
    let mut t = action(None, None, Some(ActionsUser::TimeOut(60)));
    Plugin::update_take_action(&mut t, action(None, None, Some(ActionsUser::TimeOut(30))));
    assert_eq!(t.user, Some(ActionsUser::TimeOut(90)));
}

#[test]
fn ban_wins_over_time_out_in_either_order() {
    let mut t = action(None, None, Some(ActionsUser::TimeOut(60)));
    Plugin::update_take_action(&mut t, action(None, None, Some(ActionsUser::Ban)));
    assert_eq!(t.user, Some(ActionsUser::Ban));
    let mut u = action(None, None, Some(ActionsUser::Ban));
    Plugin::update_take_action(&mut u, action(None, None, Some(ActionsUser::TimeOut(60))));
    assert_eq!(u.user, Some(ActionsUser::Ban));
}

#[test]
fn user_action_of_empty_is_taken_over() {
    let mut t = TakeAction::nothing();
    Plugin::update_take_action(&mut t, action(None, None, Some(ActionsUser::TimeOut(5))));
    assert_eq!(t.user, Some(ActionsUser::TimeOut(5)));
}

#[test]
fn user_merge_is_order_independent_on_values() {
    let a = Some(ActionsUser::TimeOut(7));
    let b = Some(ActionsUser::TimeOut(11));
    let mut x = action(None, None, a);
    Plugin::update_take_action(&mut x, action(None, None, b));
    let mut y = action(None, None, b);
    Plugin::update_take_action(&mut y, action(None, None, a));
    assert_eq!(x.user, y.user);
}

#[test]
fn user_merge_grouping_on_values() {
    let a = Some(ActionsUser::TimeOut(1));
    let b = Some(ActionsUser::TimeOut(2));
    let c = Some(ActionsUser::Ban);
    let mut left = action(None, None, a);
    Plugin::update_take_action(&mut left, action(None, None, b));
    Plugin::update_take_action(&mut left, action(None, None, c));
    let mut bc = action(None, None, b);
    Plugin::update_take_action(&mut bc, action(None, None, c));
    let mut right = action(None, None, a);
    Plugin::update_take_action(&mut right, action(None, None, bc.user));
    assert_eq!(left.user, right.user);
    assert_eq!(left.user, Some(ActionsUser::Ban));
}

#[test]
fn earlier_reasons_stay_a_prefix() {
    let mut t = action(Some("- first"), None, None);
    Plugin::update_take_action(&mut t, action(Some("second"), None, None));
    assert!(t.report.as_deref().unwrap().starts_with("- first"));
}

#[test]
fn any_number_of_merges() {
    let mut t = TakeAction::nothing();
    let steps = vec![
        action(Some("a"), None, Some(ActionsUser::TimeOut(10))),
        action(None, Some(ActionsMessage::Delete), Some(ActionsUser::TimeOut(20))),
        action(Some("b"), None, None),
        action(Some("c"), None, Some(ActionsUser::TimeOut(5))),
    ];
    for step in steps {
        Plugin::update_take_action(&mut t, step);
    }
    assert_eq!(t.user, Some(ActionsUser::TimeOut(35)));
    assert_eq!(t.message, Some(ActionsMessage::Delete));
    assert_eq!(t.report.as_deref(), Some("- a\n- b\n- c"));
}
