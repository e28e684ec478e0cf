//! Payment plans: installments spread over several cash records that share a
//! plan id. Generating the next one, cancelling a plan, setting a status.
use crate::cash::{
    cancellable, cancellable_count, cancelled_in_plan, has_plan, holds_cash, next_installment, plan_complete, plan_first, plan_latest, CashBuilder, CashStore, CashUpdater,
};
use crate::error::LedgerError;
use crate::model::{CashView, Installment, InstallmentStatus};
use crate::text::decimal;
use vstd::prelude::*;
use vstd::string::*;

verus! {

/// Every record of `s`, with the installments of plan `plan_id` cancelled.
pub open spec fn plan_cancelled(s: Seq<CashView>, plan_id: u64) -> Seq<CashView> {
    s.map_values(|v: CashView| cancelled_in_plan(v, plan_id))
}

/// `v` with the status of its installment replaced.
pub open spec fn with_status(v: CashView, status: InstallmentStatus) -> CashView {
    CashView {
        installment: Some(Installment { status, ..v.installment->Some_0 }),
        ..v
    }
}

/// Where the first and the latest installment of a plan lie.
pub proof fn lemma_plan_positions(s: Seq<CashView>, plan_id: u64)
    ensures
        -1 <= plan_first(s, plan_id) < s.len(),
        -1 <= plan_latest(s, plan_id) < s.len(),
        has_plan(s, plan_id) <==> plan_first(s, plan_id) >= 0,
        has_plan(s, plan_id) <==> plan_latest(s, plan_id) >= 0,
        plan_first(s, plan_id) >= 0 ==> s[plan_first(s, plan_id)].in_plan(plan_id),
        plan_latest(s, plan_id) >= 0 ==> s[plan_latest(s, plan_id)].in_plan(plan_id),
    decreases s.len(),
{
    if s.len() > 0 {
        let p = s.drop_last();
        lemma_plan_positions(p, plan_id);
        assert(has_plan(s, plan_id) <==> has_plan(p, plan_id) || s.last().in_plan(plan_id)) by {
            if has_plan(p, plan_id) {
                let k = choose|k: int| 0 <= k < p.len() && (#[trigger] p[k]).in_plan(plan_id);
                assert(s[k] == p[k]);
            }
            if has_plan(s, plan_id) && !s.last().in_plan(plan_id) {
                let k = choose|k: int| 0 <= k < s.len() && (#[trigger] s[k]).in_plan(plan_id);
                assert(p[k] == s[k]);
            }
            if s.last().in_plan(plan_id) {
                assert(s[s.len() - 1].in_plan(plan_id));
            }
        }
    } else {
        assert(!has_plan(s, plan_id));
    }
}

proof fn lemma_prefix_step(s: Seq<CashView>, i: int)
    requires
        0 <= i < s.len(),
    ensures
        s.subrange(0, i + 1).drop_last() == s.subrange(0, i),
        s.subrange(0, i + 1).last() == s[i],
{
    assert(s.subrange(0, i + 1).drop_last() =~= s.subrange(0, i));
}

/// After cancelling, nothing of the plan is left to cancel, and cancelling
/// again changes nothing.
pub proof fn lemma_cancel_settles(s: Seq<CashView>, plan_id: u64)
    ensures
        cancellable_count(plan_cancelled(s, plan_id), plan_id) == 0,
        plan_cancelled(plan_cancelled(s, plan_id), plan_id) == plan_cancelled(s, plan_id),
    decreases s.len(),
{
    if s.len() > 0 {
        lemma_cancel_settles(s.drop_last(), plan_id);
        assert(plan_cancelled(s, plan_id).drop_last() =~= plan_cancelled(s.drop_last(), plan_id));
    }
    assert(plan_cancelled(plan_cancelled(s, plan_id), plan_id) =~= plan_cancelled(s, plan_id));
}

impl CashStore {
    /// Adds the next installment of plan `plan_id`, due at `due_date`,
    /// recorded at `now`, and gives its id. Fails with `NotFound` when no
    /// record belongs to the plan, with `DomainConflict` when the plan's
    /// latest installment is its last.
    pub fn generate_next_installment(&mut self, plan_id: u64, due_date: i64, now: i64) -> (r:
        Result<u64, LedgerError>)
        requires
            old(self).wf(),
        ensures
            final(self).wf(),
            !has_plan(old(self)@, plan_id) ==> r == Err::<u64, LedgerError>(LedgerError::NotFound)
                && *final(self) == *old(self),
            has_plan(old(self)@, plan_id) && plan_complete(old(self)@, plan_id) ==> r == Err::<
                u64,
                LedgerError,
            >(LedgerError::DomainConflict) && *final(self) == *old(self),
            has_plan(old(self)@, plan_id) && !plan_complete(old(self)@, plan_id) ==> match r {
                Ok(uid) => {
                    &&& uid == old(self).next_id()
                    &&& final(self)@ == old(self)@.push(
                        next_installment(old(self)@, plan_id, due_date, uid, now),
                    )
                    &&& final(self).next_id() == uid + 1
                },
                Err(e) => e == LedgerError::State && old(self).next_id() == u64::MAX
                    && *final(self) == *old(self),
            },
    {
        let n = self.len();
        let mut first: Option<usize> = None;
        let mut latest: Option<usize> = None;
        let mut i: usize = 0;
        while i < n
            invariant
                n == self@.len(),
                i <= n,
                (match first {
                    Some(f) => f as int,
                    None => -1,
                }) == plan_first(self@.subrange(0, i as int), plan_id),
                (match latest {
                    Some(l) => l as int,
                    None => -1,
                }) == plan_latest(self@.subrange(0, i as int), plan_id),
            decreases n - i,
        {
            proof {
                lemma_prefix_step(self@, i as int);
                lemma_plan_positions(self@.subrange(0, i as int), plan_id);
            }
            let c = self.at(i);
            if let Some(inst) = c.installment {
                if inst.plan_id == plan_id {
                    if first.is_none() {
                        first = Some(i);
                    }
                    match latest {
                        None => {
                            latest = Some(i);
                        },
                        Some(l) => {
                            let prev = self.at(l).installment.unwrap();
                            if inst.current_installment >= prev.current_installment {
                                latest = Some(i);
                            }
                        },
                    }
                }
            }
            i = i + 1;
        }
        proof {
            assert(self@.subrange(0, n as int) =~= self@);
            lemma_plan_positions(self@, plan_id);
        }
        let (f, l) = match (first, latest) {
            (Some(f), Some(l)) => (f, l),
            _ => {
                return Err(LedgerError::NotFound);
            },
        };
        let last = self.at(l).installment.unwrap();
        if last.current_installment >= last.total_installments {
            return Err(LedgerError::DomainConflict);
        }
        let amount = last.total_amount / (last.total_installments as i64);
        let next = last.current_installment + 1;
        let installment = Installment {
            current_installment: next,
            due_date,
            status: InstallmentStatus::Pending,
            ..last
        };
        let note = String::from_str("分期付款第").concat(decimal(next as u64).as_str()).concat("期");
        let b = CashBuilder {
            cash: amount,
            student_id: self.at(f).student_id,
            note: Some(note),
            installment: Some(installment),
        };
        assert(b.built(self.next_id(), now) == next_installment(
            self@,
            plan_id,
            due_date,
            self.next_id(),
            now,
        ));
        self.insert(b, now)
    }

    /// Cancels every installment of plan `plan_id` that is not cancelled yet,
    /// and gives how many that were. Records already cancelled are left as
    /// they are and not counted.
    pub fn cancel_plan(&mut self, plan_id: u64) -> (r: usize)
        requires
            old(self).wf(),
        ensures
            final(self).wf(),
            final(self).next_id() == old(self).next_id(),
            r == cancellable_count(old(self)@, plan_id),
            final(self)@ == plan_cancelled(old(self)@, plan_id),
            r == 0 ==> *final(self) == *old(self),
    {
        let ghost start = self@;
        let ghost orig = *self;
        let n = self.len();
        let mut count: usize = 0;
        let mut i: usize = 0;
        while i < n
            invariant
                self.wf(),
                self.next_id() == old(self).next_id(),
                start == old(self)@,
                n == start.len(),
                self@.len() == n,
                i <= n,
                count <= i,
                count == cancellable_count(start.subrange(0, i as int), plan_id),
                count == 0 ==> *self == orig,
                forall|k: int| 0 <= k < i ==> #[trigger] self@[k] == cancelled_in_plan(start[k], plan_id),
                forall|k: int| i <= k < n ==> #[trigger] self@[k] == start[k],
            decreases n - i,
        {
            proof {
                lemma_prefix_step(start, i as int);
            }
            let c = self.at(i);
            let uid = c.uid;
            let mut cancel: Option<Installment> = None;
            if let Some(inst) = c.installment {
                if inst.plan_id == plan_id && inst.status != InstallmentStatus::Cancelled {
                    cancel = Some(Installment { status: InstallmentStatus::Cancelled, ..inst });
                }
            }
            match cancel {
                Some(ci) => {
                    let ghost before = self@;
                    assert(before[i as int].wf());
                    let u = CashUpdater::new().installment(Some(ci));
                    let _ = self.update(uid, u);
                    assert(self@ == before.update(
                        i as int,
                        cancelled_in_plan(start[i as int], plan_id),
                    ));
                    count = count + 1;
                },
                None => {
                    assert(!cancellable(start[i as int], plan_id));
                },
            }
            i = i + 1;
        }
        assert(start.subrange(0, n as int) =~= start);
        assert(self@ =~= plan_cancelled(start, plan_id));
        count
    }

    /// Replaces the status of the installment that record `uid` carries. Any
    /// status may replace any other. Fails with `NotFound` when there is no
    /// such record, with `DomainConflict` when it is not an installment.
    pub fn set_installment_status(&mut self, uid: u64, status: InstallmentStatus) -> (r: Result<
        (),
        LedgerError,
    >)
        requires
            old(self).wf(),
        ensures
            final(self).wf(),
            final(self).next_id() == old(self).next_id(),
            !holds_cash(old(self)@, uid) ==> r == Err::<(), LedgerError>(LedgerError::NotFound)
                && *final(self) == *old(self),
            forall|i: int|
                0 <= i < old(self)@.len() && #[trigger] old(self)@[i].uid == uid ==> {
                    if old(self)@[i].installment is None {
                        r == Err::<(), LedgerError>(LedgerError::DomainConflict) && *final(self)
                            == *old(self)
                    } else {
                        r is Ok && final(self)@ == old(self)@.update(
                            i,
                            with_status(old(self)@[i], status),
                        )
                    }
                },
    {
        match self.position(uid) {
            None => Err(LedgerError::NotFound),
            Some(i) => {
                let ghost before = self@;
                assert forall|k: int|
                    0 <= k < before.len() && #[trigger] before[k].uid == uid implies k == i by {
                    if k < i {
                        assert(before[k].uid < before[i as int].uid);
                    } else if k > i {
                        assert(before[i as int].uid < before[k].uid);
                    }
                }
                match self.at(i).installment {
                    None => Err(LedgerError::DomainConflict),
                    Some(inst) => {
                        assert(before[i as int].wf());
                        let u = CashUpdater::new().installment(Some(Installment { status, ..inst }));
                        self.update(uid, u)
                    },
                }
            },
        }
    }
}

} // verus!
