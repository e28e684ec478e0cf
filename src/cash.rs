//! The cash store: income and expense records under ids it assigns, some of
//! them installments of a payment plan, with the operations on plans.
use crate::error::LedgerError;
use crate::model::{opt_text, Cash, CashView, Installment, InstallmentStatus};
use crate::text::decimal_text;
use vstd::prelude::*;
use vstd::string::*;

verus! {

/// An installment that a record may carry: it names a plan, and its index
/// lies in 1..=total.
pub open spec fn installment_wf(i: Installment) -> bool {
    i.plan_id != 0 && 1 <= i.current_installment <= i.total_installments
}

impl CashView {
    pub open spec fn wf(self) -> bool {
        self.installment matches Some(i) ==> installment_wf(i)
    }
}

/// Gathers what a new cash record is made of; the store gives the id and the
/// time of recording.
pub struct CashBuilder {
    pub cash: i64,
    pub student_id: Option<u64>,
    pub note: Option<String>,
    pub installment: Option<Installment>,
}

impl CashBuilder {
    /// A record of `amount`, with no student, note or installment yet.
    pub fn new(amount: i64) -> (r: CashBuilder)
        ensures
            r.cash == amount,
            r.student_id is None,
            r.note is None,
            r.installment is None,
    {
        CashBuilder { cash: amount, student_id: None, note: None, installment: None }
    }

    pub fn student_id(self, student_id: u64) -> (r: CashBuilder)
        ensures
            r == (CashBuilder { student_id: Some(student_id), ..self }),
    {
        CashBuilder { student_id: Some(student_id), ..self }
    }

    pub fn note(self, note: String) -> (r: CashBuilder)
        ensures
            r == (CashBuilder { note: Some(note), ..self }),
    {
        CashBuilder { note: Some(note), ..self }
    }

    pub fn installment(self, installment: Installment) -> (r: CashBuilder)
        ensures
            r == (CashBuilder { installment: Some(installment), ..self }),
    {
        CashBuilder { installment: Some(installment), ..self }
    }

    /// The record this builder makes under id `uid`, recorded at `now`.
    pub open spec fn built(self, uid: u64, now: i64) -> CashView {
        CashView {
            uid,
            student_id: self.student_id,
            cash: self.cash,
            note: opt_text(self.note),
            installment: self.installment,
            created_at: now,
        }
    }
}

/// A partial change of a cash record: each field set replaces that field,
/// each field left unset leaves it as it is.
pub struct CashUpdater {
    pub student_id: Option<Option<u64>>,
    pub cash: Option<i64>,
    pub note: Option<Option<String>>,
    pub installment: Option<Option<Installment>>,
}

impl CashUpdater {
    /// An updater that changes nothing.
    pub fn new() -> (r: CashUpdater)
        ensures
            r.is_empty(),
    {
        CashUpdater { student_id: None, cash: None, note: None, installment: None }
    }

    pub open spec fn is_empty(self) -> bool {
        self.student_id is None && self.cash is None && self.note is None
            && self.installment is None
    }

    pub fn student_id(self, student_id: Option<u64>) -> (r: CashUpdater)
        ensures
            r == (CashUpdater { student_id: Some(student_id), ..self }),
    {
        CashUpdater { student_id: Some(student_id), ..self }
    }

    pub fn cash(self, amount: i64) -> (r: CashUpdater)
        ensures
            r == (CashUpdater { cash: Some(amount), ..self }),
    {
        CashUpdater { cash: Some(amount), ..self }
    }

    pub fn note(self, note: Option<String>) -> (r: CashUpdater)
        ensures
            r == (CashUpdater { note: Some(note), ..self }),
    {
        CashUpdater { note: Some(note), ..self }
    }

    pub fn installment(self, installment: Option<Installment>) -> (r: CashUpdater)
        ensures
            r == (CashUpdater { installment: Some(installment), ..self }),
    {
        CashUpdater { installment: Some(installment), ..self }
    }

    /// Whether this updater can be applied: a new installment must be well formed.
    pub open spec fn allowed(self) -> bool {
        self.installment matches Some(Some(i)) ==> installment_wf(i)
    }

    /// `v` with this updater applied.
    pub open spec fn applied_to(self, v: CashView) -> CashView {
        CashView {
            uid: v.uid,
            student_id: match self.student_id {
                Some(s) => s,
                None => v.student_id,
            },
            cash: match self.cash {
                Some(c) => c,
                None => v.cash,
            },
            note: match self.note {
                Some(n) => opt_text(n),
                None => v.note,
            },
            installment: match self.installment {
                Some(i) => i,
                None => v.installment,
            },
            created_at: v.created_at,
        }
    }

    pub fn check(&self) -> (r: bool)
        ensures
            r == self.allowed(),
    {
        match self.installment {
            Some(Some(i)) => i.plan_id != 0 && 1 <= i.current_installment
                && i.current_installment <= i.total_installments,
            _ => true,
        }
    }

    pub fn apply(self, c: &mut Cash)
        ensures
            final(c)@ == self.applied_to(old(c)@),
    {
        if let Some(s) = self.student_id {
            c.student_id = s;
        }
        if let Some(a) = self.cash {
            c.cash = a;
        }
        if let Some(n) = self.note {
            c.note = n;
        }
        if let Some(i) = self.installment {
            c.installment = i;
        }
    }
}

/// Ids ascend strictly in store order, so no id is held twice.
pub open spec fn cash_ids_ascending(s: Seq<CashView>) -> bool {
    forall|i: int, j: int| 0 <= i < j < s.len() ==> #[trigger] s[i].uid < #[trigger] s[j].uid
}

/// Whether a record with id `uid` is in `s`.
pub open spec fn holds_cash(s: Seq<CashView>, uid: u64) -> bool {
    exists|i: int| 0 <= i < s.len() && #[trigger] s[i].uid == uid
}

pub open spec fn cash_store_wf(s: Seq<CashView>, next_uid: u64) -> bool {
    &&& cash_ids_ascending(s)
    &&& forall|i: int| 0 <= i < s.len() ==> 1 <= #[trigger] s[i].uid < next_uid
    &&& forall|i: int| 0 <= i < s.len() ==> (#[trigger] s[i]).wf()
    &&& next_uid >= 1
}

/// The views of a sequence of records.
pub open spec fn cash_views(v: Seq<Cash>) -> Seq<CashView> {
    v.map_values(|c: Cash| c@)
}

/// The largest plan id among the records of `s`, zero when none has one.
pub open spec fn max_plan_id(s: Seq<CashView>) -> u64
    decreases s.len(),
{
    if s.len() == 0 {
        0
    } else {
        let m = max_plan_id(s.drop_last());
        match s.last().installment {
            Some(i) => if i.plan_id > m {
                i.plan_id
            } else {
                m
            },
            None => m,
        }
    }
}

/// Whether some record of `s` is an installment of plan `plan_id`.
pub open spec fn has_plan(s: Seq<CashView>, plan_id: u64) -> bool {
    exists|i: int| 0 <= i < s.len() && (#[trigger] s[i]).in_plan(plan_id)
}

/// The position of the first installment of plan `plan_id` in `s`.
pub open spec fn plan_first(s: Seq<CashView>, plan_id: u64) -> int
    decreases s.len(),
{
    if s.len() == 0 {
        -1
    } else if has_plan(s.drop_last(), plan_id) {
        plan_first(s.drop_last(), plan_id)
    } else if s.last().in_plan(plan_id) {
        s.len() - 1
    } else {
        -1
    }
}

/// The position of the latest installment of plan `plan_id` in `s`: the one
/// with the largest index in the plan, and of those the last in store order
/// (so the one with the largest record id).
pub open spec fn plan_latest(s: Seq<CashView>, plan_id: u64) -> int
    decreases s.len(),
{
    if s.len() == 0 {
        -1
    } else {
        let prev = plan_latest(s.drop_last(), plan_id);
        if s.last().in_plan(plan_id) && (prev < 0
            || s.last().installment->Some_0.current_installment
            >= s[prev].installment->Some_0.current_installment) {
            s.len() - 1
        } else {
            prev
        }
    }
}

/// Truncating division, as Rust divides signed integers.
pub open spec fn div_trunc(a: int, b: int) -> int {
    if a >= 0 {
        a / b
    } else {
        -((-a) / b)
    }
}

/// The note of a generated installment: "分期付款第<n>期".
pub open spec fn installment_note(n: nat) -> Seq<char> {
    "分期付款第"@ + decimal_text(n) + "期"@
}

/// The record that generating the next installment of plan `plan_id` adds
/// to `s`, under id `uid`, due at `due_date`, recorded at `now`: an equal
/// share of the plan's total, the latest installment's plan data with its
/// index one higher, pending, for the student of the plan's first record.
pub open spec fn next_installment(
    s: Seq<CashView>,
    plan_id: u64,
    due_date: i64,
    uid: u64,
    now: i64,
) -> CashView {
    let latest = s[plan_latest(s, plan_id)].installment->Some_0;
    CashView {
        uid,
        student_id: s[plan_first(s, plan_id)].student_id,
        cash: div_trunc(latest.total_amount as int, latest.total_installments as int) as i64,
        note: Some(installment_note((latest.current_installment + 1) as nat)),
        installment: Some(
            Installment {
                plan_id: latest.plan_id,
                total_amount: latest.total_amount,
                total_installments: latest.total_installments,
                current_installment: (latest.current_installment + 1) as u32,
                frequency: latest.frequency,
                due_date,
                status: InstallmentStatus::Pending,
            },
        ),
        created_at: now,
    }
}

/// Whether a plan's latest installment is its last, so the plan is complete.
pub open spec fn plan_complete(s: Seq<CashView>, plan_id: u64) -> bool {
    let latest = s[plan_latest(s, plan_id)].installment->Some_0;
    latest.current_installment >= latest.total_installments
}

/// `v`, cancelled if it is an installment of plan `plan_id` not yet cancelled.
pub open spec fn cancelled_in_plan(v: CashView, plan_id: u64) -> CashView {
    match v.installment {
        Some(i) => if i.plan_id == plan_id && i.status != InstallmentStatus::Cancelled {
            CashView { installment: Some(Installment { status: InstallmentStatus::Cancelled, ..i }), ..v }
        } else {
            v
        },
        None => v,
    }
}

/// Whether `v` is an installment of plan `plan_id` that is not cancelled.
pub open spec fn cancellable(v: CashView, plan_id: u64) -> bool {
    v.installment matches Some(i) && i.plan_id == plan_id && i.status
        != InstallmentStatus::Cancelled
}

/// How many records of `s` are cancellable installments of plan `plan_id`.
pub open spec fn cancellable_count(s: Seq<CashView>, plan_id: u64) -> nat
    decreases s.len(),
{
    if s.len() == 0 {
        0
    } else {
        cancellable_count(s.drop_last(), plan_id) + if cancellable(s.last(), plan_id) {
            1nat
        } else {
            0nat
        }
    }
}

/// The installments of plan `plan_id` in `s`, in store order.
pub open spec fn plan_records(s: Seq<CashView>, plan_id: u64) -> Seq<CashView>
    decreases s.len(),
{
    if s.len() == 0 {
        Seq::empty()
    } else if s.last().in_plan(plan_id) {
        plan_records(s.drop_last(), plan_id).push(s.last())
    } else {
        plan_records(s.drop_last(), plan_id)
    }
}

/// Optional conditions on cash records; a record matches when it meets every
/// condition that is set.
pub struct CashQuery {
    pub student_id: Option<u64>,
    pub amount_range: Option<(i64, i64)>,
    pub date_range: Option<(i64, i64)>,
    pub has_installment: Option<bool>,
}

impl CashQuery {
    /// The query that every record matches.
    pub fn new() -> (r: CashQuery)
        ensures
            r.student_id is None,
            r.amount_range is None,
            r.date_range is None,
            r.has_installment is None,
    {
        CashQuery { student_id: None, amount_range: None, date_range: None, has_installment: None }
    }

    pub fn student_id(self, student_id: u64) -> (r: CashQuery)
        ensures
            r == (CashQuery { student_id: Some(student_id), ..self }),
    {
        CashQuery { student_id: Some(student_id), ..self }
    }

    pub fn amount_range(self, min: i64, max: i64) -> (r: CashQuery)
        ensures
            r == (CashQuery { amount_range: Some((min, max)), ..self }),
    {
        CashQuery { amount_range: Some((min, max)), ..self }
    }

    pub fn date_range(self, from: i64, to: i64) -> (r: CashQuery)
        ensures
            r == (CashQuery { date_range: Some((from, to)), ..self }),
    {
        CashQuery { date_range: Some((from, to)), ..self }
    }

    pub fn has_installment(self, has: bool) -> (r: CashQuery)
        ensures
            r == (CashQuery { has_installment: Some(has), ..self }),
    {
        CashQuery { has_installment: Some(has), ..self }
    }

    /// Whether a range condition is inverted, so that the query is refused.
    pub open spec fn inverted(self) -> bool {
        ||| self.amount_range matches Some((lo, hi)) && lo > hi
        ||| self.date_range matches Some((lo, hi)) && lo > hi
    }

    /// Whether `v` meets every condition that is set.
    pub open spec fn matches(self, v: CashView) -> bool {
        &&& (self.student_id matches Some(s) ==> v.student_id == Some(s))
        &&& (self.amount_range matches Some((lo, hi)) ==> lo <= v.cash <= hi)
        &&& (self.date_range matches Some((lo, hi)) ==> lo <= v.date() <= hi)
        &&& (self.has_installment matches Some(h) ==> (v.installment is Some) == h)
    }

    pub fn test(&self, c: &Cash) -> (r: bool)
        ensures
            r == self.matches(c@),
    {
        let student_ok = match self.student_id {
            Some(s) => c.student_id == Some(s),
            None => true,
        };
        let amount_ok = match self.amount_range {
            Some((lo, hi)) => lo <= c.cash && c.cash <= hi,
            None => true,
        };
        let date_ok = match self.date_range {
            Some((lo, hi)) => {
                let d = c.date();
                lo <= d && d <= hi
            },
            None => true,
        };
        let installment_ok = match self.has_installment {
            Some(h) => c.installment.is_some() == h,
            None => true,
        };
        student_ok && amount_ok && date_ok && installment_ok
    }
}

/// The records of `s` that `q` matches, in store order.
pub open spec fn matching_cash(s: Seq<CashView>, q: CashQuery) -> Seq<CashView>
    decreases s.len(),
{
    if s.len() == 0 {
        Seq::empty()
    } else if q.matches(s.last()) {
        matching_cash(s.drop_last(), q).push(s.last())
    } else {
        matching_cash(s.drop_last(), q)
    }
}

/// The cash records, in the order they were made, under ids that the store
/// assigns in ascending order and never gives twice.
#[derive(Clone)]
pub struct CashStore {
    records: Vec<Cash>,
    next_uid: u64,
}

impl View for CashStore {
    type V = Seq<CashView>;

    closed spec fn view(&self) -> Seq<CashView> {
        cash_views(self.records@)
    }
}

impl CashStore {
    /// The id that the next record will get.
    pub closed spec fn next_id(&self) -> u64 {
        self.next_uid
    }

    pub open spec fn wf(&self) -> bool {
        cash_store_wf(self@, self.next_id())
    }

    /// An empty store whose first id is 1.
    pub fn new() -> (r: CashStore)
        ensures
            r.wf(),
            r@ == Seq::<CashView>::empty(),
            r.next_id() == 1,
    {
        let r = CashStore { records: Vec::new(), next_uid: 1 };
        assert(r@ =~= Seq::<CashView>::empty());
        r
    }

    /// A store rebuilt from saved parts: the records in store order and the
    /// id to give next. None when the parts break the store's invariant.
    pub fn from_parts(records: Vec<Cash>, next_uid: u64) -> (r: Option<CashStore>)
        ensures
            r is Some <==> cash_store_wf(cash_views(records@), next_uid),
            r matches Some(s) ==> s@ == cash_views(records@) && s.next_id() == next_uid && s.wf(),
    {
        let ghost all = cash_views(records@);
        if next_uid == 0 {
            return None;
        }
        let mut i: usize = 0;
        assert(all.subrange(0, 0) =~= Seq::<CashView>::empty());
        while i < records.len()
            invariant
                i <= records.len(),
                all == cash_views(records@),
                next_uid >= 1,
                cash_store_wf(all.subrange(0, i as int), next_uid),
            decreases records.len() - i,
        {
            let c = &records[i];
            assert(all[i as int] == c@);
            let ok = 1 <= c.uid && c.uid < next_uid && (i == 0 || records[i - 1].uid < c.uid)
                && match c.installment {
                Some(inst) => inst.plan_id != 0 && 1 <= inst.current_installment
                    && inst.current_installment <= inst.total_installments,
                None => true,
            };
            if !ok {
                proof {
                    if !(i == 0 || records@[i - 1].uid < c.uid) {
                        assert(all[i - 1].uid == records@[i - 1].uid);
                        assert(cash_ids_ascending(all) ==> all[i - 1].uid < all[i as int].uid);
                    } else {
                        assert(!(all[i as int].wf() && 1 <= all[i as int].uid < next_uid));
                    }
                }
                return None;
            }
            proof {
                let pre = all.subrange(0, i as int);
                let ext = all.subrange(0, i + 1);
                assert forall|a: int, b: int| 0 <= a < b < ext.len() implies #[trigger] ext[a].uid
                    < #[trigger] ext[b].uid by {
                    if b == i {
                        if a < i - 1 {
                            assert(pre[a].uid < pre[i - 1].uid);
                        }
                        assert(all[i - 1].uid == records@[i - 1].uid);
                    } else {
                        assert(pre[a].uid < pre[b].uid);
                    }
                }
                assert forall|k: int| 0 <= k < ext.len() implies 1 <= #[trigger] ext[k].uid
                    < next_uid && ext[k].wf() by {
                    if k < i {
                        assert(ext[k] == pre[k]);
                    }
                }
            }
            i = i + 1;
        }
        assert(all.subrange(0, i as int) =~= all);
        Some(CashStore { records, next_uid })
    }

    /// The id that the next record will get.
    pub fn next_uid(&self) -> (r: u64)
        ensures
            r == self.next_id(),
    {
        self.next_uid
    }

    /// The number of records.
    pub fn len(&self) -> (r: usize)
        ensures
            r == self@.len(),
    {
        self.records.len()
    }

    /// The record at position `i` in store order.
    pub fn at(&self, i: usize) -> (r: &Cash)
        requires
            i < self@.len(),
        ensures
            r@ == self@[i as int],
    {
        &self.records[i]
    }

    /// The position of the record with id `uid`.
    pub fn position(&self, uid: u64) -> (r: Option<usize>)
        requires
            self.wf(),
        ensures
            r is None <==> !holds_cash(self@, uid),
            r matches Some(i) ==> i < self@.len() && self@[i as int].uid == uid,
    {
        let mut i: usize = 0;
        while i < self.records.len()
            invariant
                self.wf(),
                i <= self.records.len(),
                forall|k: int| 0 <= k < i ==> #[trigger] self@[k].uid != uid,
            decreases self.records.len() - i,
        {
            assert(self@[i as int] == self.records@[i as int]@);
            if self.records[i].uid == uid {
                assert(self@[i as int].uid == uid);
                return Some(i);
            }
            i = i + 1;
        }
        None
    }

    /// A plan id that no record uses yet: one above the largest in use.
    pub fn fresh_plan_id(&self) -> (r: Option<u64>)
        ensures
            r is None <==> max_plan_id(self@) == u64::MAX,
            r matches Some(p) ==> p == max_plan_id(self@) + 1,
    {
        let mut m: u64 = 0;
        let mut i: usize = 0;
        while i < self.records.len()
            invariant
                i <= self.records.len(),
                m == max_plan_id(self@.subrange(0, i as int)),
            decreases self.records.len() - i,
        {
            assert(self@.subrange(0, i + 1).drop_last() =~= self@.subrange(0, i as int));
            assert(self@[i as int] == self.records@[i as int]@);
            if let Some(inst) = self.records[i].installment {
                if inst.plan_id > m {
                    m = inst.plan_id;
                }
            }
            i = i + 1;
        }
        assert(self@.subrange(0, i as int) =~= self@);
        if m == u64::MAX {
            None
        } else {
            Some(m + 1)
        }
    }

    /// Adds the record that `b` describes under the next id, recorded at `now`.
    pub fn insert(&mut self, b: CashBuilder, now: i64) -> (r: Result<u64, LedgerError>)
        requires
            old(self).wf(),
        ensures
            final(self).wf(),
            match r {
                Ok(uid) => {
                    &&& b.built(uid, now).wf()
                    &&& uid == old(self).next_id()
                    &&& final(self)@ == old(self)@.push(b.built(uid, now))
                    &&& final(self).next_id() == uid + 1
                },
                Err(LedgerError::Validation(_)) => !b.built(old(self).next_id(), now).wf()
                    && *final(self) == *old(self),
                Err(LedgerError::State) => b.built(old(self).next_id(), now).wf()
                    && old(self).next_id() == u64::MAX && *final(self) == *old(self),
                Err(_) => false,
            },
    {
        let uid = self.next_uid;
        if let Some(i) = b.installment {
            if i.plan_id == 0 || i.current_installment < 1 || i.current_installment
                > i.total_installments {
                return Err(LedgerError::Validation(String::from_str("分期付款信息无效")));
            }
        }
        if uid == u64::MAX {
            return Err(LedgerError::State);
        }
        let c = Cash {
            uid,
            student_id: b.student_id,
            cash: b.cash,
            note: b.note,
            installment: b.installment,
            created_at: now,
        };
        let ghost before = self@;
        self.records.push(c);
        self.next_uid = uid + 1;
        assert(self@ =~= before.push(c@));
        Ok(uid)
    }

    /// A copy of the record with id `uid`, if there is one.
    pub fn get(&self, uid: u64) -> (r: Option<Cash>)
        requires
            self.wf(),
        ensures
            r is Some <==> holds_cash(self@, uid),
            r matches Some(c) ==> exists|i: int|
                0 <= i < self@.len() && self@[i].uid == uid && #[trigger] self@[i] == c@,
    {
        match self.position(uid) {
            Some(i) => Some(self.records[i].duplicate()),
            None => None,
        }
    }

    proof fn lemma_unique(&self, i: int, uid: u64)
        requires
            self.wf(),
            0 <= i < self@.len(),
            self@[i].uid == uid,
        ensures
            forall|k: int| 0 <= k < self@.len() && #[trigger] self@[k].uid == uid ==> k == i,
    {
        assert forall|k: int| 0 <= k < self@.len() && #[trigger] self@[k].uid == uid implies k
            == i by {
            if k < i {
                assert(self@[k].uid < self@[i].uid);
            } else if k > i {
                assert(self@[i].uid < self@[k].uid);
            }
        }
    }

    /// Replaces the record at `i` with `c`, which keeps its id.
    fn replace_at(&mut self, i: usize, c: Cash)
        requires
            old(self).wf(),
            i < old(self)@.len(),
            c@.uid == old(self)@[i as int].uid,
            c@.wf(),
        ensures
            final(self).wf(),
            final(self).next_id() == old(self).next_id(),
            final(self)@ == old(self)@.update(i as int, c@),
    {
        let ghost before = self@;
        self.records.set(i, c);
        assert(self@ =~= before.update(i as int, c@));
        assert forall|a: int, b: int| 0 <= a < b < self@.len() implies #[trigger] self@[a].uid
            < #[trigger] self@[b].uid by {
            assert(before[a].uid < before[b].uid);
        }
    }

    /// Applies `u` to the record with id `uid`: all of it, or nothing when
    /// there is no such record or the updater cannot apply.
    pub fn update(&mut self, uid: u64, u: CashUpdater) -> (r: Result<(), LedgerError>)
        requires
            old(self).wf(),
        ensures
            final(self).wf(),
            final(self).next_id() == old(self).next_id(),
            !holds_cash(old(self)@, uid) ==> r == Err::<(), LedgerError>(LedgerError::NotFound)
                && *final(self) == *old(self),
            forall|i: int|
                0 <= i < old(self)@.len() && #[trigger] old(self)@[i].uid == uid ==> {
                    if u.allowed() {
                        &&& r is Ok
                        &&& final(self)@ == old(self)@.update(i, u.applied_to(old(self)@[i]))
                    } else {
                        &&& r matches Err(LedgerError::Validation(_))
                        &&& *final(self) == *old(self)
                    }
                },
    {
        match self.position(uid) {
            None => Err(LedgerError::NotFound),
            Some(i) => {
                proof {
                    self.lemma_unique(i as int, uid);
                }
                if !u.check() {
                    return Err(LedgerError::Validation(String::from_str("分期付款信息无效")));
                }
                assert(self@[i as int] == self.records@[i as int]@);
                let mut c = self.records[i].duplicate();
                u.apply(&mut c);
                self.replace_at(i, c);
                Ok(())
            },
        }
    }

    /// Removes the record with id `uid`; true when there was one.
    pub fn delete(&mut self, uid: u64) -> (r: bool)
        requires
            old(self).wf(),
        ensures
            final(self).wf(),
            final(self).next_id() == old(self).next_id(),
            r == holds_cash(old(self)@, uid),
            !holds_cash(final(self)@, uid),
            !r ==> *final(self) == *old(self),
            r ==> exists|i: int|
                0 <= i < old(self)@.len() && #[trigger] old(self)@[i].uid == uid && final(self)@
                    == old(self)@.remove(i),
    {
        match self.position(uid) {
            None => false,
            Some(i) => {
                let ghost before = self@;
                self.records.remove(i);
                assert(self@ =~= before.remove(i as int));
                assert forall|k: int| 0 <= k < self@.len() implies #[trigger] self@[k].uid
                    != uid by {
                    if k < i {
                        assert(before[k].uid < before[i as int].uid);
                    } else {
                        assert(self@[k] == before[k + 1]);
                        assert(before[i as int].uid < before[k + 1].uid);
                    }
                }
                assert forall|a: int, c: int| 0 <= a < c < self@.len() implies #[trigger] self@[a].uid
                    < #[trigger] self@[c].uid by {
                    let a2 = if a < i {
                        a
                    } else {
                        a + 1
                    };
                    let c2 = if c < i {
                        c
                    } else {
                        c + 1
                    };
                    assert(before[a2].uid < before[c2].uid);
                }
                assert forall|k: int| 0 <= k < self@.len() implies 1 <= #[trigger] self@[k].uid
                    < self.next_uid && self@[k].wf() by {
                    if k >= i {
                        assert(self@[k] == before[k + 1]);
                    }
                }
                true
            },
        }
    }

    /// Copies of all records, in store order.
    pub fn list(&self) -> (r: Vec<Cash>)
        ensures
            cash_views(r@) == self@,
    {
        let mut r: Vec<Cash> = Vec::new();
        let mut i: usize = 0;
        while i < self.records.len()
            invariant
                i <= self.records.len(),
                cash_views(r@) == self@.subrange(0, i as int),
            decreases self.records.len() - i,
        {
            assert(self@[i as int] == self.records@[i as int]@);
            let ghost prev = r@;
            let d = self.records[i].duplicate();
            r.push(d);
            assert(cash_views(r@) =~= cash_views(prev).push(d@));
            assert(self@.subrange(0, i + 1) =~= self@.subrange(0, i as int).push(self@[i as int]));
            i = i + 1;
        }
        assert(self@.subrange(0, i as int) =~= self@);
        r
    }

    /// Copies of the records that `q` matches, in store order; refused
    /// before any scan when a range is inverted.
    pub fn search(&self, q: &CashQuery) -> (r: Result<Vec<Cash>, LedgerError>)
        ensures
            q.inverted() <==> r is Err,
            r matches Err(e) ==> e is Validation,
            r matches Ok(v) ==> cash_views(v@) == matching_cash(self@, *q),
    {
        if let Some((lo, hi)) = q.amount_range {
            if lo > hi {
                return Err(LedgerError::Validation(String::from_str("最小金额不能大于最大金额")));
            }
        }
        if let Some((lo, hi)) = q.date_range {
            if lo > hi {
                return Err(LedgerError::Validation(String::from_str("开始日期不能晚于结束日期")));
            }
        }
        let mut r: Vec<Cash> = Vec::new();
        let mut i: usize = 0;
        while i < self.records.len()
            invariant
                i <= self.records.len(),
                cash_views(r@) == matching_cash(self@.subrange(0, i as int), *q),
            decreases self.records.len() - i,
        {
            let ghost pre = self@.subrange(0, i as int);
            assert(self@.subrange(0, i + 1).drop_last() =~= pre);
            assert(self@[i as int] == self.records@[i as int]@);
            if q.test(&self.records[i]) {
                let ghost prev = r@;
                let d = self.records[i].duplicate();
                r.push(d);
                assert(cash_views(r@) =~= cash_views(prev).push(d@));
            }
            i = i + 1;
        }
        assert(self@.subrange(0, i as int) =~= self@);
        Ok(r)
    }

    /// Copies of the installments of plan `plan_id`, in store order.
    pub fn installments_of_plan(&self, plan_id: u64) -> (r: Vec<Cash>)
        ensures
            cash_views(r@) == plan_records(self@, plan_id),
    {
        let mut r: Vec<Cash> = Vec::new();
        let mut i: usize = 0;
        while i < self.records.len()
            invariant
                i <= self.records.len(),
                cash_views(r@) == plan_records(self@.subrange(0, i as int), plan_id),
            decreases self.records.len() - i,
        {
            let ghost pre = self@.subrange(0, i as int);
            assert(self@.subrange(0, i + 1).drop_last() =~= pre);
            assert(self@[i as int] == self.records@[i as int]@);
            let in_plan = match self.records[i].installment {
                Some(inst) => inst.plan_id == plan_id,
                None => false,
            };
            if in_plan {
                let ghost prev = r@;
                let d = self.records[i].duplicate();
                r.push(d);
                assert(cash_views(r@) =~= cash_views(prev).push(d@));
            }
            i = i + 1;
        }
        assert(self@.subrange(0, i as int) =~= self@);
        r
    }
}

} // verus!
