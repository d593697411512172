//! The actions decided on a message, and how the actions of several
//! validations are merged into one.

use vstd::prelude::*;

use crate::settings::{ActionsMessage, ActionsUser};
use crate::Plugin;

verus! {

/// The actions to take on one message.
#[derive(Clone, Debug, PartialEq, Eq)]
pub struct TakeAction {
    /// The reasons to report, one line per reason; no report when `None`.
    pub report: Option<String>,
    pub message: Option<ActionsMessage>,
    pub user: Option<ActionsUser>,
}

/// The mathematical value of a [`TakeAction`].
pub struct TakeActionView {
    pub report: Option<Seq<char>>,
    pub message: Option<ActionsMessage>,
    pub user: Option<ActionsUser>,
}

pub open spec fn option_string_view(s: Option<String>) -> Option<Seq<char>> {
    match s {
        Some(s) => Some(s@),
        None => None,
    }
}

impl View for TakeAction {
    type V = TakeActionView;

    open spec fn view(&self) -> TakeActionView {
        TakeActionView {
            report: option_string_view(self.report),
            message: self.message,
            user: self.user,
        }
    }
}

/// Two reports merged: the new reason becomes a further line `- reason`.
pub open spec fn merge_report(cur: Option<Seq<char>>, new: Option<Seq<char>>) -> Option<Seq<char>> {
    match new {
        None => cur,
        Some(n) => match cur {
            Some(c) => Some(c + "\n- "@ + n),
            None => Some("- "@ + n),
        },
    }
}

/// Two message actions merged: the one decided first stays.
pub open spec fn merge_message(cur: Option<ActionsMessage>, new: Option<ActionsMessage>) -> Option<
    ActionsMessage,
> {
    if cur is Some {
        cur
    } else {
        new
    }
}

/// Two user actions merged: a ban wins over everything, time-outs add up.
pub open spec fn merge_user(cur: Option<ActionsUser>, new: Option<ActionsUser>) -> Option<
    ActionsUser,
> {
    match new {
        None => cur,
        Some(nu) => match cur {
            None => new,
            Some(ActionsUser::Ban) => cur,
            Some(ActionsUser::TimeOut(p)) => match nu {
                ActionsUser::Ban => Some(ActionsUser::Ban),
                ActionsUser::TimeOut(q) => Some(ActionsUser::TimeOut((p + q) as u64)),
            },
        },
    }
}

/// Merging two user actions does not overflow a time-out's length.
pub open spec fn user_merge_fits(cur: Option<ActionsUser>, new: Option<ActionsUser>) -> bool {
    match (cur, new) {
        (Some(ActionsUser::TimeOut(p)), Some(ActionsUser::TimeOut(q))) => p + q <= u64::MAX,
        _ => true,
    }
}

impl TakeActionView {
    /// No action at all.
    pub open spec fn nothing() -> TakeActionView {
        TakeActionView { report: None, message: None, user: None }
    }

    /// The actions of `self` followed by those of `new`, merged.
    pub open spec fn merged(self, new: TakeActionView) -> TakeActionView {
        TakeActionView {
            report: merge_report(self.report, new.report),
            message: merge_message(self.message, new.message),
            user: merge_user(self.user, new.user),
        }
    }
}

/// Merging in no actions leaves the actions unchanged.
pub proof fn lemma_merge_nothing(t: TakeActionView)
    ensures
        t.merged(TakeActionView::nothing()) == t,
{
}

/// Merging actions into no actions keeps their message and user actions and
/// turns their report into a first line `- reason`.
pub proof fn lemma_merge_into_nothing(t: TakeActionView)
    ensures
        TakeActionView::nothing().merged(t) == (TakeActionView {
            report: match t.report {
                Some(r) => Some("- "@ + r),
                None => None,
            },
            message: t.message,
            user: t.user,
        }),
{
}

/// The merged user action does not depend on the order in which two
/// validations asked for theirs.
pub proof fn lemma_user_merge_order_independent(a: Option<ActionsUser>, b: Option<ActionsUser>)
    requires
        user_merge_fits(a, b),
    ensures
        user_merge_fits(b, a),
        merge_user(a, b) == merge_user(b, a),
{
}

/// Merging three user actions gives the same result however the merges are
/// grouped.
pub proof fn lemma_user_merge_grouping(
    a: Option<ActionsUser>,
    b: Option<ActionsUser>,
    c: Option<ActionsUser>,
)
    requires
        user_merge_fits(a, b),
        user_merge_fits(b, c),
        user_merge_fits(merge_user(a, b), c),
    ensures
        user_merge_fits(a, merge_user(b, c)),
        merge_user(merge_user(a, b), c) == merge_user(a, merge_user(b, c)),
{
}

/// Once the author is to be banned, no further merge changes that.
pub proof fn lemma_ban_is_final(t: TakeActionView, new: TakeActionView)
    requires
        t.user == Some(ActionsUser::Ban),
    ensures
        t.merged(new).user == Some(ActionsUser::Ban),
{
}

/// A ban asked for by any validation wins over the time-outs of the others.
pub proof fn lemma_ban_wins(t: TakeActionView, new: TakeActionView)
    requires
        new.user == Some(ActionsUser::Ban),
    ensures
        t.merged(new).user == Some(ActionsUser::Ban),
{
}

/// Time-outs asked for by two validations add up.
pub proof fn lemma_time_outs_add_up(t: TakeActionView, new: TakeActionView, p: u64, q: u64)
    requires
        t.user == Some(ActionsUser::TimeOut(p)),
        new.user == Some(ActionsUser::TimeOut(q)),
        p + q <= u64::MAX,
    ensures
        t.merged(new).user == Some(ActionsUser::TimeOut((p + q) as u64)),
{
}

/// The first message action decided is the one kept.
pub proof fn lemma_first_message_action_stays(t: TakeActionView, new: TakeActionView)
    requires
        t.message is Some,
    ensures
        t.merged(new).message == t.message,
{
}

/// Reasons already reported are never lost: the earlier report is a prefix
/// of the merged one.
pub proof fn lemma_report_keeps_reasons(t: TakeActionView, new: TakeActionView)
    requires
        t.report is Some,
    ensures
        t.merged(new).report is Some,
        t.report->0.is_prefix_of(t.merged(new).report->0),
{
    let c = t.report->0;
    if let Some(n) = new.report {
        let m = c + "\n- "@ + n;
        assert(m.subrange(0, c.len() as int) =~= c);
    } else {
        assert(c.subrange(0, c.len() as int) =~= c);
    }
}

/// The actions of a run of validations, merged one after the other into no
/// actions.
pub open spec fn merge_all(s: Seq<TakeActionView>) -> TakeActionView
    decreases s.len(),
{
    if s.len() == 0 {
        TakeActionView::nothing()
    } else {
        merge_all(s.drop_last()).merged(s.last())
    }
}

/// Some validation of the run asks for a ban.
pub open spec fn any_ban(s: Seq<TakeActionView>) -> bool {
    exists|i: int| 0 <= i < s.len() && #[trigger] s[i].user == Some(ActionsUser::Ban)
}

/// Some validation of the run asks for a time-out.
pub open spec fn any_time_out(s: Seq<TakeActionView>) -> bool {
    exists|i: int| 0 <= i < s.len() && #[trigger] s[i].user matches Some(ActionsUser::TimeOut(_))
}

/// The length of a time-out asked for, or 0.
pub open spec fn time_out_of(t: TakeActionView) -> nat {
    match t.user {
        Some(ActionsUser::TimeOut(p)) => p as nat,
        _ => 0,
    }
}

/// The total length of the time-outs that the run asks for.
pub open spec fn time_out_total(s: Seq<TakeActionView>) -> nat
    decreases s.len(),
{
    if s.len() == 0 {
        0
    } else {
        time_out_total(s.drop_last()) + time_out_of(s.last())
    }
}

/// The reasons that the run reports, in order.
pub open spec fn reasons(s: Seq<TakeActionView>) -> Seq<Seq<char>>
    decreases s.len(),
{
    if s.len() == 0 {
        Seq::empty()
    } else {
        match s.last().report {
            Some(r) => reasons(s.drop_last()).push(r),
            None => reasons(s.drop_last()),
        }
    }
}

/// The lines `- reason`, one per reason, joined by line breaks.
pub open spec fn report_lines(rs: Seq<Seq<char>>) -> Seq<char>
    decreases rs.len(),
{
    if rs.len() == 0 {
        Seq::empty()
    } else if rs.len() == 1 {
        "- "@ + rs[0]
    } else {
        report_lines(rs.drop_last()) + "\n- "@ + rs.last()
    }
}

/// The actions of any number of validations merged one after the other:
/// the author is banned if any validation asks for a ban, otherwise timed
/// out for the total of all time-outs asked for; the message action is that
/// of the first validation that asks for one; the report lists every reason
/// in order, one `- reason` line each, and is absent when no validation
/// reports. Each merge of the run meets the time-out bound of
/// [`Plugin::update_take_action`] when the total does.
pub proof fn lemma_merge_any_number(s: Seq<TakeActionView>)
    requires
        time_out_total(s) <= u64::MAX,
    ensures
        merge_all(s).user == (if any_ban(s) {
            Some(ActionsUser::Ban)
        } else if any_time_out(s) {
            Some(ActionsUser::TimeOut(time_out_total(s) as u64))
        } else {
            None
        }),
        (forall|i: int| 0 <= i < s.len() ==> #[trigger] s[i].message is None) ==> merge_all(
            s,
        ).message is None,
        forall|j: int|
            0 <= j < s.len() && #[trigger] s[j].message is Some && (forall|i: int|
                0 <= i < j ==> s[i].message is None) ==> merge_all(s).message == s[j].message,
        merge_all(s).report == (if reasons(s).len() == 0 {
            None
        } else {
            Some(report_lines(reasons(s)))
        }),
        s.len() > 0 ==> user_merge_fits(merge_all(s.drop_last()).user, s.last().user),
        !any_ban(s) && !any_time_out(s) ==> time_out_total(s) == 0,
    decreases s.len(),
{
    if s.len() == 0 {
        return;
    }
    let p = s.drop_last();
    let l = s.last();
    lemma_merge_any_number(p);
    assert forall|i: int| 0 <= i < p.len() implies #[trigger] p[i] == s[i] by {}
    assert(any_ban(s) == (any_ban(p) || l.user == Some(ActionsUser::Ban))) by {
        if any_ban(s) {
            let i = choose|i: int| 0 <= i < s.len() && #[trigger] s[i].user == Some(ActionsUser::Ban);
            if i < p.len() {
                assert(p[i] == s[i]);
            }
        }
        if l.user == Some(ActionsUser::Ban) {
            assert(s[s.len() - 1] == l);
        }
        if any_ban(p) {
            let i = choose|i: int| 0 <= i < p.len() && #[trigger] p[i].user == Some(ActionsUser::Ban);
            assert(s[i] == p[i]);
        }
    }
    assert(any_time_out(s) == (any_time_out(p) || l.user matches Some(ActionsUser::TimeOut(_)))) by {
        if any_time_out(s) {
            let i = choose|i: int| 0 <= i < s.len() && #[trigger] s[i].user matches Some(ActionsUser::TimeOut(_));
            if i < p.len() {
                assert(p[i] == s[i]);
            }
        }
        if l.user matches Some(ActionsUser::TimeOut(_)) {
            assert(s[s.len() - 1] == l);
        }
        if any_time_out(p) {
            let i = choose|i: int| 0 <= i < p.len() && #[trigger] p[i].user matches Some(ActionsUser::TimeOut(_));
            assert(s[i] == p[i]);
        }
    }
    // message
    if forall|i: int| 0 <= i < s.len() ==> #[trigger] s[i].message is None {
        assert(forall|i: int| 0 <= i < p.len() ==> #[trigger] p[i].message is None) by {
            assert forall|i: int| 0 <= i < p.len() implies #[trigger] p[i].message is None by {
                assert(s[i] == p[i]);
            }
        }
        assert(s[s.len() - 1] == l);
    }
    assert forall|j: int|
        0 <= j < s.len() && #[trigger] s[j].message is Some && (forall|i: int|
            0 <= i < j ==> s[i].message is None) implies merge_all(s).message == s[j].message by {
        if j < p.len() {
            assert(p[j] == s[j]);
            assert(forall|i: int| 0 <= i < j ==> #[trigger] p[i].message is None) by {
                assert forall|i: int| 0 <= i < j implies #[trigger] p[i].message is None by {
                    assert(s[i] == p[i]);
                    assert(s[i].message is None);
                }
            }
        } else {
            assert(forall|i: int| 0 <= i < p.len() ==> #[trigger] p[i].message is None) by {
                assert forall|i: int| 0 <= i < p.len() implies #[trigger] p[i].message is None by {
                    assert(s[i] == p[i]);
                    assert(s[i].message is None);
                }
            }
            assert(s[j] == l);
        }
    }
    // report
    match l.report {
        Some(r) => {
            if reasons(p).len() > 0 {
                assert(reasons(p).push(r).drop_last() =~= reasons(p));
            }
        },
        None => {},
    }
}

/// Every merge of a run of validations meets the time-out bound of
/// [`Plugin::update_take_action`] when the run's total time-out fits.
pub proof fn lemma_merge_any_number_fits(s: Seq<TakeActionView>)
    requires
        time_out_total(s) <= u64::MAX,
    ensures
        forall|i: int|
            0 <= i < s.len() ==> user_merge_fits(merge_all(#[trigger] s.take(i)).user, s[i].user),
    decreases s.len(),
{
    if s.len() == 0 {
        return;
    }
    let p = s.drop_last();
    lemma_merge_any_number_fits(p);
    lemma_merge_any_number(s);
    assert forall|i: int| 0 <= i < s.len() implies user_merge_fits(
        merge_all(#[trigger] s.take(i)).user,
        s[i].user,
    ) by {
        if i < p.len() {
            assert(s.take(i) =~= p.take(i));
            assert(p[i] == s[i]);
        } else {
            assert(s.take(i) =~= p);
        }
    }
}

impl TakeAction {
    /// No action at all.
    pub fn nothing() -> (r: TakeAction)
        ensures
            r@ == TakeActionView::nothing(),
    {
        TakeAction { report: None, message: None, user: None }
    }
}

impl Plugin {
    /// Merges the actions `new_take_action` of a further validation into
    /// `take_action`.
    pub fn update_take_action(take_action: &mut TakeAction, new_take_action: TakeAction)
        requires
            user_merge_fits(old(take_action).user, new_take_action.user),
        ensures
            final(take_action)@ == old(take_action)@.merged(new_take_action@),
    {
        if let Some(new_report) = new_take_action.report {
            let merged = match take_action.report.take() {
                Some(mut report) => {
                    report.append("\n- ");
                    report.append(new_report.as_str());
                    report
                },
                None => {
                    let mut report = String::new();
                    report.append("- ");
                    report.append(new_report.as_str());
                    report
                },
            };
            take_action.report = Some(merged);
        }
        if new_take_action.message.is_some() && take_action.message.is_none() {
            take_action.message = new_take_action.message;
        }
        if let Some(new_user_action) = new_take_action.user {
            if let Some(user_action) = take_action.user {
                match user_action {
                    ActionsUser::Ban => {},
                    ActionsUser::TimeOut(period) => match new_user_action {
                        ActionsUser::Ban => take_action.user = new_take_action.user,
                        ActionsUser::TimeOut(new_period) => {
                            take_action.user = Some(ActionsUser::TimeOut(period + new_period));
                        },
                    },
                }
            } else {
                take_action.user = new_take_action.user;
            }
        }
        assert(take_action@.report =~~= old(take_action)@.merged(new_take_action@).report);
    }
}

} // verus!
