//! The ledger's operations on cash records and payment plans.
use crate::cash::{
    cancellable_count, cash_views, has_plan, holds_cash, matching_cash, max_plan_id,
    next_installment, plan_complete, plan_records, CashBuilder, CashQuery,
};
use crate::clock::{now_millis, parse_rfc3339, rfc3339_instant};
use crate::error::LedgerError;
use crate::installment::{plan_cancelled, with_status};
use crate::manager::{checked, Ledger};
use crate::model::{
    opt_text, parse_installment_status, status_named, Cash, CashView, Installment,
    InstallmentStatus, PaymentFrequency,
};
use crate::text::same_text;
use crate::validation::{
    custom_days, custom_frequency_days, valid_amount, valid_installment_count, valid_note,
    validate_amount, validate_amount_range, validate_date_range, validate_installment_count, validate_note, validate_plan_id,
    validate_student_uid, validate_transaction_uid,
};
use vstd::prelude::*;
use vstd::string::*;

verus! {

/// The payment frequency a name stands for: `Weekly`, `Monthly`,
/// `Quarterly`, or `Custom<n>` with `n` in 1..=365.
pub open spec fn frequency_named(s: Seq<char>) -> Option<PaymentFrequency> {
    if s == "Weekly"@ {
        Some(PaymentFrequency::Weekly)
    } else if s == "Monthly"@ {
        Some(PaymentFrequency::Monthly)
    } else if s == "Quarterly"@ {
        Some(PaymentFrequency::Quarterly)
    } else {
        match custom_frequency_days(s) {
            Some(n) => if 1 <= n <= 365 {
                Some(PaymentFrequency::Custom(n))
            } else {
                None
            },
            None => None,
        }
    }
}

/// Reads a payment frequency by name.
pub fn parse_frequency(s: &str) -> (r: Option<PaymentFrequency>)
    ensures
        r == frequency_named(s@),
{
    if same_text(s, "Weekly") {
        Some(PaymentFrequency::Weekly)
    } else if same_text(s, "Monthly") {
        Some(PaymentFrequency::Monthly)
    } else if same_text(s, "Quarterly") {
        Some(PaymentFrequency::Quarterly)
    } else {
        match custom_days(s) {
            Some(n) => if 1 <= n && n <= 365 {
                Some(PaymentFrequency::Custom(n))
            } else {
                None
            },
            None => None,
        }
    }
}

/// The frequency of a new plan: the one named, monthly when none is named.
pub open spec fn requested_frequency(f: Option<String>) -> Option<PaymentFrequency> {
    match f {
        Some(t) => frequency_named(t@),
        None => Some(PaymentFrequency::Monthly),
    }
}

/// The fields that every new record carries are acceptable.
pub open spec fn record_fields_valid(
    student_uid: Option<u64>,
    amount: i64,
    note: Option<String>,
    total_amount: Option<i64>,
    total_installments: Option<u32>,
) -> bool {
    &&& valid_amount(amount)
    &&& (total_amount matches Some(t) ==> valid_amount(t))
    &&& (note matches Some(n) ==> valid_note(n@))
    &&& (total_installments matches Some(c) ==> valid_installment_count(c))
    &&& (student_uid matches Some(s) ==> s != 0)
}

/// An installment request names its total, its count, a readable due date
/// and a known frequency.
pub open spec fn plan_request_complete(
    total_amount: Option<i64>,
    total_installments: Option<u32>,
    frequency: Option<String>,
    due_date: Option<String>,
) -> bool {
    &&& total_amount is Some
    &&& total_installments is Some
    &&& due_date matches Some(d) && rfc3339_instant(d@) is Some
    &&& requested_frequency(frequency) is Some
}

/// The plan id of a new plan: the one given, or, when none or zero is given,
/// one above the largest in use.
pub open spec fn requested_plan(plan_id: Option<u64>, s: Seq<CashView>) -> int {
    match plan_id {
        Some(p) => if p != 0 {
            p as int
        } else {
            max_plan_id(s) + 1
        },
        None => max_plan_id(s) + 1,
    }
}

/// The first installment that a complete request describes: pending, index
/// 1 unless given.
pub open spec fn requested_installment(
    s: Seq<CashView>,
    total_amount: Option<i64>,
    total_installments: Option<u32>,
    frequency: Option<String>,
    due_date: Option<String>,
    current_installment: Option<u32>,
    plan_id: Option<u64>,
) -> Installment {
    Installment {
        plan_id: requested_plan(plan_id, s) as u64,
        total_amount: total_amount->Some_0,
        total_installments: total_installments->Some_0,
        current_installment: match current_installment {
            Some(c) => c,
            None => 1,
        },
        frequency: requested_frequency(frequency)->Some_0,
        due_date: rfc3339_instant(due_date->Some_0@)->Some_0,
        status: InstallmentStatus::Pending,
    }
}

/// When a cash search is refused: a zero student id, an inverted amount
/// range, or a date range with an unreadable or inverted pair of dates.
pub open spec fn cash_search_refused(
    student_id: Option<u64>,
    min_amount: Option<i64>,
    max_amount: Option<i64>,
    date_from: Option<String>,
    date_to: Option<String>,
) -> bool {
    ||| student_id == Some(0u64)
    ||| (min_amount matches Some(lo) && max_amount matches Some(hi) && lo > hi)
    ||| (date_from matches Some(a) && date_to matches Some(b) && (rfc3339_instant(a@) is None
        || rfc3339_instant(b@) is None || rfc3339_instant(a@)->Some_0 > rfc3339_instant(
        b@,
    )->Some_0))
}

impl Ledger {
    /// Records an income (positive `amount`) or expense (negative), in
    /// cents, at `now`; with `is_installment` set, as the first (or the
    /// given) installment of a payment plan.
    pub fn add_cash_transaction_at(
        &mut self,
        student_uid: Option<u64>,
        amount: i64,
        note: Option<String>,
        is_installment: Option<bool>,
        total_amount: Option<i64>,
        total_installments: Option<u32>,
        frequency: Option<String>,
        due_date: Option<String>,
        current_installment: Option<u32>,
        plan_id: Option<u64>,
        now: i64,
    ) -> (r: Result<Cash, LedgerError>)
        requires
            old(self).wf(),
        ensures
            final(self).wf(),
            final(self).students == old(self).students,
            r is Err ==> *final(self) == *old(self),
            r matches Err(e) ==> e is Validation || (e == LedgerError::State && (old(self).cash.next_id()
                == u64::MAX || (is_installment == Some(true) && requested_plan(
                plan_id,
                old(self).cash@,
            ) > u64::MAX))),
            !record_fields_valid(student_uid, amount, note, total_amount, total_installments) ==> (r matches Err(
                LedgerError::Validation(_),
            )),
            is_installment == Some(true) && !plan_request_complete(
                total_amount,
                total_installments,
                frequency,
                due_date,
            ) ==> (r matches Err(LedgerError::Validation(_))),
            r matches Ok(c) ==> {
                &&& c.uid == old(self).cash.next_id()
                &&& final(self).cash@ == old(self).cash@.push(c@)
                &&& c@.student_id == student_uid
                &&& c@.cash == amount
                &&& c@.note == opt_text(note)
                &&& c@.created_at == now
                &&& c@.installment == if is_installment == Some(true) {
                    Some(
                        requested_installment(
                            old(self).cash@,
                            total_amount,
                            total_installments,
                            frequency,
                            due_date,
                            current_installment,
                            plan_id,
                        ),
                    )
                } else {
                    None
                }
            },
            record_fields_valid(student_uid, amount, note, total_amount, total_installments)
                && old(self).cash.next_id() < u64::MAX && (is_installment == Some(true) ==> {
                let i = requested_installment(
                    old(self).cash@,
                    total_amount,
                    total_installments,
                    frequency,
                    due_date,
                    current_installment,
                    plan_id,
                );
                &&& plan_request_complete(total_amount, total_installments, frequency, due_date)
                &&& requested_plan(plan_id, old(self).cash@) <= u64::MAX
                &&& 1 <= i.current_installment <= i.total_installments
            }) ==> r is Ok,
    {
        if let Err(e) = checked(validate_amount(amount)) {
            return Err(e);
        }
        if let Some(t) = total_amount {
            if let Err(e) = checked(validate_amount(t)) {
                return Err(e);
            }
        }
        if let Some(n) = &note {
            if let Err(e) = checked(validate_note(n.as_str())) {
                return Err(e);
            }
        }
        if let Some(c) = total_installments {
            if let Err(e) = checked(validate_installment_count(c)) {
                return Err(e);
            }
        }
        if let Some(s) = student_uid {
            if let Err(e) = checked(validate_student_uid(s)) {
                return Err(e);
            }
        }
        let mut b = CashBuilder::new(amount);
        if let Some(s) = student_uid {
            b = b.student_id(s);
        }
        if let Some(n) = &note {
            b = b.note(n.clone());
        }
        if is_installment == Some(true) {
            let total = match total_amount {
                Some(t) => t,
                None => {
                    return Err(LedgerError::Validation(String::from_str("分期付款需要指定总金额")));
                },
            };
            let count = match total_installments {
                Some(c) => c,
                None => {
                    return Err(LedgerError::Validation(String::from_str("分期付款需要指定总期数")));
                },
            };
            let due_text = match &due_date {
                Some(d) => d,
                None => {
                    return Err(LedgerError::Validation(String::from_str("分期付款需要指定到期日期")));
                },
            };
            let due = match parse_rfc3339(due_text.as_str()) {
                Some(t) => t,
                None => {
                    return Err(LedgerError::Validation(String::from_str("日期格式错误")));
                },
            };
            let freq = match &frequency {
                Some(f) => match parse_frequency(f.as_str()) {
                    Some(x) => x,
                    None => {
                        return Err(LedgerError::Validation(String::from_str("无效的付款频率")));
                    },
                },
                None => PaymentFrequency::Monthly,
            };
            let plan = match plan_id {
                Some(p) if p != 0 => p,
                _ => match self.cash.fresh_plan_id() {
                    Some(p) => p,
                    None => {
                        return Err(LedgerError::State);
                    },
                },
            };
            let current = match current_installment {
                Some(c) => c,
                None => 1,
            };
            b = b.installment(
                Installment {
                    plan_id: plan,
                    total_amount: total,
                    total_installments: count,
                    current_installment: current,
                    frequency: freq,
                    due_date: due,
                    status: InstallmentStatus::Pending,
                },
            );
        }
        match self.cash.insert(b, now) {
            Ok(_) => {
                let last = self.cash.len() - 1;
                Ok(self.cash.at(last).duplicate())
            },
            Err(e) => Err(e),
        }
    }

    /// `add_cash_transaction_at`, recorded at the time now.
    pub fn add_cash_transaction(
        &mut self,
        student_uid: Option<u64>,
        amount: i64,
        note: Option<String>,
        is_installment: Option<bool>,
        total_amount: Option<i64>,
        total_installments: Option<u32>,
        frequency: Option<String>,
        due_date: Option<String>,
        current_installment: Option<u32>,
        plan_id: Option<u64>,
    ) -> (r: Result<Cash, LedgerError>)
        requires
            old(self).wf(),
        ensures
            final(self).wf(),
            final(self).students == old(self).students,
            r is Err ==> *final(self) == *old(self),
            r matches Err(e) ==> e is Validation || (e == LedgerError::State && (old(self).cash.next_id()
                == u64::MAX || (is_installment == Some(true) && requested_plan(
                plan_id,
                old(self).cash@,
            ) > u64::MAX))),
            !record_fields_valid(student_uid, amount, note, total_amount, total_installments) ==> (r matches Err(
                LedgerError::Validation(_),
            )),
            is_installment == Some(true) && !plan_request_complete(
                total_amount,
                total_installments,
                frequency,
                due_date,
            ) ==> (r matches Err(LedgerError::Validation(_))),
            r matches Ok(c) ==> {
                &&& c.uid == old(self).cash.next_id()
                &&& final(self).cash@ == old(self).cash@.push(c@)
                &&& c@.student_id == student_uid
                &&& c@.cash == amount
                &&& c@.note == opt_text(note)
                &&& c@.installment == if is_installment == Some(true) {
                    Some(
                        requested_installment(
                            old(self).cash@,
                            total_amount,
                            total_installments,
                            frequency,
                            due_date,
                            current_installment,
                            plan_id,
                        ),
                    )
                } else {
                    None
                }
            },
            record_fields_valid(student_uid, amount, note, total_amount, total_installments)
                && old(self).cash.next_id() < u64::MAX && (is_installment == Some(true) ==> {
                let i = requested_installment(
                    old(self).cash@,
                    total_amount,
                    total_installments,
                    frequency,
                    due_date,
                    current_installment,
                    plan_id,
                );
                &&& plan_request_complete(total_amount, total_installments, frequency, due_date)
                &&& requested_plan(plan_id, old(self).cash@) <= u64::MAX
                &&& 1 <= i.current_installment <= i.total_installments
            }) ==> r is Ok,
    {
        let now = now_millis();
        self.add_cash_transaction_at(
            student_uid,
            amount,
            note,
            is_installment,
            total_amount,
            total_installments,
            frequency,
            due_date,
            current_installment,
            plan_id,
            now,
        )
    }

    /// Copies of all cash records, in the order they were made.
    pub fn get_all_transactions(&self) -> (r: Vec<Cash>)
        ensures
            cash_views(r@) == self.cash@,
    {
        self.cash.list()
    }

    /// A copy of the cash record with id `uid`, if there is one.
    pub fn get_cash(&self, uid: u64) -> (r: Option<Cash>)
        requires
            self.wf(),
        ensures
            r is Some <==> holds_cash(self.cash@, uid),
            r matches Some(c) ==> exists|i: int|
                0 <= i < self.cash@.len() && self.cash@[i].uid == uid && #[trigger] self.cash@[i]
                    == c@,
    {
        self.cash.get(uid)
    }

    /// Removes cash record `uid`.
    pub fn delete_cash_transaction(&mut self, transaction_uid: u64) -> (r: Result<(), LedgerError>)
        requires
            old(self).wf(),
        ensures
            final(self).wf(),
            final(self).students == old(self).students,
            r is Err ==> *final(self) == *old(self),
            transaction_uid == 0 ==> r matches Err(LedgerError::Validation(_)),
            transaction_uid != 0 ==> (r is Ok <==> holds_cash(old(self).cash@, transaction_uid)),
            transaction_uid != 0 && r is Err ==> r == Err::<(), LedgerError>(LedgerError::NotFound),
            r is Ok ==> !holds_cash(final(self).cash@, transaction_uid) && exists|i: int|
                0 <= i < old(self).cash@.len() && #[trigger] old(self).cash@[i].uid
                    == transaction_uid && final(self).cash@ == old(self).cash@.remove(i),
    {
        if let Err(e) = checked(validate_transaction_uid(transaction_uid)) {
            return Err(e);
        }
        if self.cash.delete(transaction_uid) {
            Ok(())
        } else {
            Err(LedgerError::NotFound)
        }
    }

    /// Sets the status of the installment that record `uid` carries, by
    /// name: `Pending`, `Paid`, `Overdue` or `Cancelled`.
    pub fn update_installment_status(&mut self, transaction_uid: u64, status: &str) -> (r: Result<
        (),
        LedgerError,
    >)
        requires
            old(self).wf(),
        ensures
            final(self).wf(),
            final(self).students == old(self).students,
            r is Err ==> *final(self) == *old(self),
            transaction_uid == 0 || status_named(status@) is None ==> (r matches Err(
                LedgerError::Validation(_),
            )),
            transaction_uid != 0 && status_named(status@) is Some ==> {
                &&& !holds_cash(old(self).cash@, transaction_uid) ==> r == Err::<(), LedgerError>(
                    LedgerError::NotFound,
                )
                &&& forall|i: int|
                    0 <= i < old(self).cash@.len() && #[trigger] old(self).cash@[i].uid
                        == transaction_uid ==> if old(self).cash@[i].installment is None {
                        r == Err::<(), LedgerError>(LedgerError::DomainConflict)
                    } else {
                        r is Ok && final(self).cash@ == old(self).cash@.update(
                            i,
                            with_status(old(self).cash@[i], status_named(status@)->Some_0),
                        )
                    }
            },
    {
        if let Err(e) = checked(validate_transaction_uid(transaction_uid)) {
            return Err(e);
        }
        let s = match parse_installment_status(status) {
            Some(s) => s,
            None => {
                return Err(LedgerError::Validation(String::from_str("无效的状态值: ").concat(status)));
            },
        };
        self.cash.set_installment_status(transaction_uid, s)
    }

    /// Adds the next installment of plan `plan_id`, due at the RFC 3339 date
    /// `due_date`, recorded at `now`, and gives its id.
    pub fn generate_next_installment_at(&mut self, plan_id: u64, due_date: &str, now: i64) -> (r:
        Result<u64, LedgerError>)
        requires
            old(self).wf(),
        ensures
            final(self).wf(),
            final(self).students == old(self).students,
            r is Err ==> *final(self) == *old(self),
            plan_id == 0 || rfc3339_instant(due_date@) is None ==> (r matches Err(
                LedgerError::Validation(_),
            )),
            plan_id != 0 && rfc3339_instant(due_date@) is Some ==> {
                let s = old(self).cash@;
                &&& !has_plan(s, plan_id) ==> r == Err::<u64, LedgerError>(LedgerError::NotFound)
                &&& has_plan(s, plan_id) && plan_complete(s, plan_id) ==> r == Err::<
                    u64,
                    LedgerError,
                >(LedgerError::DomainConflict)
                &&& has_plan(s, plan_id) && !plan_complete(s, plan_id) ==> match r {
                    Ok(uid) => final(self).cash@ == s.push(
                        next_installment(s, plan_id, rfc3339_instant(due_date@)->Some_0, uid, now),
                    ),
                    Err(e) => e == LedgerError::State && old(self).cash.next_id() == u64::MAX,
                }
            },
    {
        if let Err(e) = checked(validate_plan_id(plan_id)) {
            return Err(e);
        }
        let due = match parse_rfc3339(due_date) {
            Some(t) => t,
            None => {
                return Err(LedgerError::Validation(String::from_str("日期格式错误")));
            },
        };
        self.cash.generate_next_installment(plan_id, due, now)
    }

    /// `generate_next_installment_at`, recorded at the time now.
    pub fn generate_next_installment(&mut self, plan_id: u64, due_date: &str) -> (r: Result<
        u64,
        LedgerError,
    >)
        requires
            old(self).wf(),
        ensures
            final(self).wf(),
            final(self).students == old(self).students,
            r is Err ==> *final(self) == *old(self),
            plan_id == 0 || rfc3339_instant(due_date@) is None ==> (r matches Err(
                LedgerError::Validation(_),
            )),
            plan_id != 0 && rfc3339_instant(due_date@) is Some ==> {
                let s = old(self).cash@;
                &&& !has_plan(s, plan_id) ==> r == Err::<u64, LedgerError>(LedgerError::NotFound)
                &&& has_plan(s, plan_id) && plan_complete(s, plan_id) ==> r == Err::<
                    u64,
                    LedgerError,
                >(LedgerError::DomainConflict)
                &&& has_plan(s, plan_id) && !plan_complete(s, plan_id) ==> match r {
                    Ok(uid) => exists|t: i64|
                        final(self).cash@ == #[trigger] s.push(
                            next_installment(s, plan_id, rfc3339_instant(due_date@)->Some_0, uid, t),
                        ),
                    Err(e) => e == LedgerError::State && old(self).cash.next_id() == u64::MAX,
                }
            },
    {
        let now = now_millis();
        self.generate_next_installment_at(plan_id, due_date, now)
    }

    /// Cancels the installments of plan `plan_id` not yet cancelled and gives
    /// how many that were; fails with `NotFound` when there were none.
    pub fn cancel_installment_plan(&mut self, plan_id: u64) -> (r: Result<usize, LedgerError>)
        requires
            old(self).wf(),
        ensures
            final(self).wf(),
            final(self).students == old(self).students,
            r is Err ==> *final(self) == *old(self),
            plan_id == 0 ==> r matches Err(LedgerError::Validation(_)),
            plan_id != 0 && cancellable_count(old(self).cash@, plan_id) == 0 ==> r == Err::<
                usize,
                LedgerError,
            >(LedgerError::NotFound),
            plan_id != 0 && cancellable_count(old(self).cash@, plan_id) > 0 ==> r == Ok::<
                usize,
                LedgerError,
            >(cancellable_count(old(self).cash@, plan_id) as usize) && final(self).cash@
                == plan_cancelled(old(self).cash@, plan_id),
    {
        if let Err(e) = checked(validate_plan_id(plan_id)) {
            return Err(e);
        }
        let n = self.cash.cancel_plan(plan_id);
        if n == 0 {
            return Err(LedgerError::NotFound);
        }
        Ok(n)
    }

    /// Copies of the installments of plan `plan_id`, in store order.
    pub fn get_installments_by_plan(&self, plan_id: u64) -> (r: Result<Vec<Cash>, LedgerError>)
        ensures
            plan_id == 0 <==> r is Err,
            r matches Err(e) ==> e is Validation,
            r matches Ok(v) ==> cash_views(v@) == plan_records(self.cash@, plan_id),
    {
        if let Err(e) = checked(validate_plan_id(plan_id)) {
            return Err(e);
        }
        Ok(self.cash.installments_of_plan(plan_id))
    }

    /// Copies of the cash records of student `uid`, in store order.
    pub fn get_student_cash(&self, student_uid: u64) -> (r: Vec<Cash>)
        ensures
            cash_views(r@) == matching_cash(
                self.cash@,
                (CashQuery {
                    student_id: Some(student_uid),
                    amount_range: None,
                    date_range: None,
                    has_installment: None,
                }),
            ),
    {
        let q = CashQuery::new().student_id(student_uid);
        match self.cash.search(&q) {
            Ok(v) => v,
            Err(_) => Vec::new(),
        }
    }

    /// Copies of the records that meet the given conditions, in store order.
    /// An amount or date range applies when both of its ends are given; it is
    /// refused, before any scan, when inverted or when a date does not read.
    pub fn search_cash(
        &self,
        student_id: Option<u64>,
        min_amount: Option<i64>,
        max_amount: Option<i64>,
        has_installment: Option<bool>,
        date_from: Option<String>,
        date_to: Option<String>,
    ) -> (r: Result<Vec<Cash>, LedgerError>)
        ensures
            r is Err <==> cash_search_refused(student_id, min_amount, max_amount, date_from, date_to),
            r matches Err(e) ==> e is Validation,
            r matches Ok(v) ==> exists|q: CashQuery|
                cash_views(v@) == #[trigger] matching_cash(self.cash@, q) && q.student_id
                    == student_id && q.has_installment == has_installment && q.amount_range == (
                match (min_amount, max_amount) {
                    (Some(lo), Some(hi)) => Some((lo, hi)),
                    _ => None,
                }) && q.date_range == (match (date_from, date_to) {
                    (Some(a), Some(b)) => Some(
                        (rfc3339_instant(a@)->Some_0, rfc3339_instant(b@)->Some_0),
                    ),
                    _ => None,
                }),
    {
        let mut q = CashQuery::new();
        if let Some(s) = student_id {
            if let Err(e) = checked(validate_student_uid(s)) {
                return Err(e);
            }
            q = q.student_id(s);
        }
        if let (Some(lo), Some(hi)) = (min_amount, max_amount) {
            if let Err(e) = checked(validate_amount_range(lo, hi)) {
                return Err(e);
            }
            q = q.amount_range(lo, hi);
        }
        if let Some(h) = has_installment {
            q = q.has_installment(h);
        }
        if let (Some(a), Some(b)) = (&date_from, &date_to) {
            let from = match parse_rfc3339(a.as_str()) {
                Some(t) => t,
                None => {
                    return Err(LedgerError::Validation(String::from_str("开始日期格式错误")));
                },
            };
            let to = match parse_rfc3339(b.as_str()) {
                Some(t) => t,
                None => {
                    return Err(LedgerError::Validation(String::from_str("结束日期格式错误")));
                },
            };
            if let Err(e) = checked(validate_date_range(from, to)) {
                return Err(e);
            }
            q = q.date_range(from, to);
        }
        match self.cash.search(&q) {
            Ok(v) => Ok(v),
            Err(e) => Err(e),
        }
    }
}

} // verus!
