//! Properties that hold of every input, proved over the models that the
//! operations' contracts speak of.
use crate::cash::{
    cancellable_count, cash_store_wf, has_plan, plan_complete, plan_latest,
    CashUpdater,
};
use crate::installment::{lemma_cancel_settles, lemma_plan_positions, plan_cancelled};
use crate::model::{CashView, InstallmentStatus, StudentView};
use crate::stats::{expense, lemma_revenue_less_expense, revenue, signed_total};
use crate::student::{holds_student, ids_ascending, student_store_wf, update_outcome, StudentChange};
use vstd::prelude::*;

verus! {

/// A change applied to a student leaves every field that it does not set as
/// it was, and the id always.
pub proof fn unset_fields_unchanged(c: StudentChange, v: StudentView)
    ensures
        c.applied_to(v).uid == v.uid,
        c.name is None ==> c.applied_to(v).name == v.name,
        c.age is None ==> c.applied_to(v).age == v.age,
        c.class is None ==> c.applied_to(v).class == v.class,
        c.subject is None ==> c.applied_to(v).subject == v.subject,
        c.phone is None ==> c.applied_to(v).phone == v.phone,
        c.note is None ==> c.applied_to(v).note == v.note,
        c.lesson_left is None ==> c.applied_to(v).lesson_left == v.lesson_left,
        c.ring_edit is None ==> c.applied_to(v).rings == v.rings,
        c.membership is None ==> c.applied_to(v).membership_start_date == v.membership_start_date
            && c.applied_to(v).membership_end_date == v.membership_end_date,
{
}

/// A successful update of one student leaves the other students as they
/// were, and of that student every field the change does not set.
pub proof fn update_touches_only_set_fields(
    before: Seq<StudentView>,
    after: Seq<StudentView>,
    uid: u64,
    c: StudentChange,
    r: Result<(), crate::error::LedgerError>,
)
    requires
        update_outcome(before, after, uid, c, r),
        r is Ok,
    ensures
        after.len() == before.len(),
        forall|i: int| 0 <= i < before.len() && before[i].uid != uid ==> #[trigger] after[i] == before[i],
        forall|i: int|
            0 <= i < before.len() && #[trigger] before[i].uid == uid ==> after[i] == c.applied_to(
                before[i],
            ),
{
    if !holds_student(before, uid) {
    } else {
        let k = choose|k: int| 0 <= k < before.len() && #[trigger] before[k].uid == uid;
        assert(after == before.update(k, c.applied_to(before[k])));
    }
}

/// A change applied to a cash record leaves every field that it does not
/// set as it was, and the id and the time of recording always.
pub proof fn unset_cash_fields_unchanged(u: CashUpdater, v: CashView)
    ensures
        u.applied_to(v).uid == v.uid,
        u.applied_to(v).created_at == v.created_at,
        u.student_id is None ==> u.applied_to(v).student_id == v.student_id,
        u.cash is None ==> u.applied_to(v).cash == v.cash,
        u.note is None ==> u.applied_to(v).note == v.note,
        u.installment is None ==> u.applied_to(v).installment == v.installment,
{
}

/// Once the student with id `uid` is removed from a well-formed store, no
/// student with that id is left, so a lookup finds none and a second removal
/// removes nothing.
pub proof fn deleted_id_is_gone(s: Seq<StudentView>, i: int, uid: u64)
    requires
        ids_ascending(s),
        0 <= i < s.len(),
        s[i].uid == uid,
    ensures
        !holds_student(s.remove(i), uid),
{
    let t = s.remove(i);
    assert forall|k: int| 0 <= k < t.len() implies #[trigger] t[k].uid != uid by {
        if k < i {
            assert(s[k].uid < s[i].uid);
        } else {
            assert(t[k] == s[k + 1]);
            assert(s[i].uid < s[k + 1].uid);
        }
    }
}

/// The id a well-formed store gives next is held by no student yet, so no
/// two students ever share an id.
pub proof fn next_id_is_fresh(s: Seq<StudentView>, next_uid: u64)
    requires
        student_store_wf(s, next_uid),
    ensures
        !holds_student(s, next_uid),
{
}

/// In a well-formed store, a plan is complete exactly when its latest
/// installment's index equals the plan's number of installments.
pub proof fn complete_means_last_installment(s: Seq<CashView>, plan_id: u64, next_uid: u64)
    requires
        cash_store_wf(s, next_uid),
        has_plan(s, plan_id),
    ensures
        plan_complete(s, plan_id) <==> s[plan_latest(s, plan_id)].installment->Some_0.current_installment
            == s[plan_latest(s, plan_id)].installment->Some_0.total_installments,
{
    lemma_plan_positions(s, plan_id);
    assert(s[plan_latest(s, plan_id)].wf());
}

/// Cancelling a plan twice: the second time nothing is left to cancel (the
/// count is zero) and nothing changes; records already cancelled are never
/// touched.
pub proof fn cancel_plan_idempotent(s: Seq<CashView>, plan_id: u64)
    ensures
        cancellable_count(plan_cancelled(s, plan_id), plan_id) == 0,
        plan_cancelled(plan_cancelled(s, plan_id), plan_id) == plan_cancelled(s, plan_id),
        forall|i: int|
            0 <= i < s.len() && ((#[trigger] s[i]).installment matches Some(inst) && inst.status
                == InstallmentStatus::Cancelled) ==> plan_cancelled(s, plan_id)[i] == s[i],
{
    lemma_cancel_settles(s, plan_id);
}

/// Total revenue less total expense is the signed sum of all amounts.
pub proof fn revenue_less_expense_is_net(s: Seq<CashView>)
    ensures
        revenue(s) - expense(s) == signed_total(s),
{
    lemma_revenue_less_expense(s);
}

} // verus!
