//! Flat snapshots of students, cash records and figures, in the shape that
//! callers outside the ledger receive: enums by name, instants in RFC 3339.
use crate::clock::{format_rfc3339, rfc3339_text};
use crate::model::{
    class_name, class_named, opt_text, status_name, status_named, subject_name, subject_named,
    Cash, Student, copy_text,
};
use crate::reports::FinancialStats;
use crate::text::{decimal, decimal_text};
use vstd::prelude::*;
use vstd::string::*;

verus! {

/// A student as callers see it.
pub struct StudentResponse {
    pub uid: u64,
    pub name: String,
    pub age: u8,
    pub class: String,
    pub phone: String,
    pub note: String,
    pub subject: String,
    pub lesson_left: Option<u32>,
    pub membership_start_date: Option<String>,
    pub membership_end_date: Option<String>,
    pub is_membership_active: bool,
    pub membership_days_remaining: Option<i64>,
}

/// A cash record as callers see it.
pub struct TransactionResponse {
    pub uid: u64,
    pub student_id: Option<u64>,
    pub amount: i64,
    pub note: Option<String>,
    pub description: String,
    pub is_installment: bool,
    pub installment_plan_id: Option<u64>,
    pub installment_current: Option<u32>,
    pub installment_total: Option<u32>,
    pub installment_due_date: Option<String>,
    pub installment_status: Option<String>,
}

/// Financial figures as callers see them, each held to the range of `i64`.
/// `installment_total` counts the records of the period, `installment_paid`
/// those that carry an installment.
pub struct FinancialStatsResponse {
    pub total_income: i64,
    pub total_expense: i64,
    pub net_income: i64,
    pub installment_total: i64,
    pub installment_paid: i64,
    pub installment_pending: i64,
}

/// The RFC 3339 text of an optional instant.
pub open spec fn instant_text(t: Option<i64>) -> Option<Seq<char>> {
    match t {
        Some(ms) => rfc3339_text(ms),
        None => None,
    }
}

/// The description of a record: "分期付款 <current>/<total>" for an
/// installment, "普通付款" otherwise.
pub open spec fn description_of(installment: Option<crate::model::Installment>) -> Seq<char> {
    match installment {
        Some(i) => "分期付款 "@ + decimal_text(i.current_installment as nat) + "/"@ + decimal_text(
            i.total_installments as nat,
        ),
        None => "普通付款"@,
    }
}

/// `x` held to the range of `i64`.
pub open spec fn clamped(x: int) -> i64 {
    if x < i64::MIN {
        i64::MIN
    } else if x > i64::MAX {
        i64::MAX
    } else {
        x as i64
    }
}

fn format_instant(t: Option<i64>) -> (r: Option<String>)
    ensures
        opt_text(r) == instant_text(t),
{
    match t {
        Some(ms) => format_rfc3339(ms),
        None => None,
    }
}

fn clamp_i64(x: i128) -> (r: i64)
    ensures
        r == clamped(x as int),
{
    if x < i64::MIN as i128 {
        i64::MIN
    } else if x > i64::MAX as i128 {
        i64::MAX
    } else {
        x as i64
    }
}

/// The snapshot of student `s` at `now`.
pub fn convert_student_to_response(s: &Student, now: i64) -> (r: StudentResponse)
    ensures
        r.uid == s.uid,
        r.name@ == s.name@,
        r.age == s.age,
        class_named(r.class@) == Some(s.class),
        r.phone@ == s.phone@,
        r.note@ == s.note@,
        subject_named(r.subject@) == Some(s.subject),
        r.lesson_left == s.lesson_left,
        opt_text(r.membership_start_date) == instant_text(s.membership_start_date),
        opt_text(r.membership_end_date) == instant_text(s.membership_end_date),
        r.is_membership_active == s@.membership_active_at(now),
        r.membership_days_remaining == s@.membership_days_left_at(now),
{
    StudentResponse {
        uid: s.uid,
        name: s.name.clone(),
        age: s.age,
        class: class_name(s.class),
        phone: s.phone.clone(),
        note: s.note.clone(),
        subject: subject_name(s.subject),
        lesson_left: s.lesson_left,
        membership_start_date: format_instant(s.membership_start_date),
        membership_end_date: format_instant(s.membership_end_date),
        is_membership_active: s.is_membership_active(now),
        membership_days_remaining: s.membership_days_remaining(now),
    }
}

/// The snapshot of cash record `c`.
pub fn convert_cash_to_response(c: &Cash) -> (r: TransactionResponse)
    ensures
        r.uid == c.uid,
        r.student_id == c.student_id,
        r.amount == c.cash,
        opt_text(r.note) == opt_text(c.note),
        r.description@ == description_of(c.installment),
        r.is_installment == c.installment is Some,
        r.installment_plan_id == (match c.installment {
            Some(i) => Some(i.plan_id),
            None => None,
        }),
        r.installment_current == (match c.installment {
            Some(i) => Some(i.current_installment),
            None => None,
        }),
        r.installment_total == (match c.installment {
            Some(i) => Some(i.total_installments),
            None => None,
        }),
        opt_text(r.installment_due_date) == (match c.installment {
            Some(i) => rfc3339_text(i.due_date),
            None => None,
        }),
        c.installment is None ==> r.installment_status is None,
        c.installment matches Some(i) ==> (r.installment_status matches Some(t) && status_named(t@)
            == Some(i.status)),
{
    match c.installment {
        Some(i) => {
            let description = String::from_str("分期付款 ").concat(
                decimal(i.current_installment as u64).as_str(),
            ).concat("/").concat(decimal(i.total_installments as u64).as_str());
            TransactionResponse {
                uid: c.uid,
                student_id: c.student_id,
                amount: c.cash,
                note: copy_text(&c.note),
                description,
                is_installment: true,
                installment_plan_id: Some(i.plan_id),
                installment_current: Some(i.current_installment),
                installment_total: Some(i.total_installments),
                installment_due_date: format_rfc3339(i.due_date),
                installment_status: Some(status_name(i.status)),
            }
        },
        None => TransactionResponse {
            uid: c.uid,
            student_id: c.student_id,
            amount: c.cash,
            note: copy_text(&c.note),
            description: String::from_str("普通付款"),
            is_installment: false,
            installment_plan_id: None,
            installment_current: None,
            installment_total: None,
            installment_due_date: None,
            installment_status: None,
        },
    }
}

/// The snapshot of financial figures.
pub fn convert_financial_stats(f: &FinancialStats) -> (r: FinancialStatsResponse)
    ensures
        r.total_income == clamped(f.total_income as int),
        r.total_expense == clamped(f.total_expense as int),
        r.net_income == clamped(f.net_income as int),
        r.installment_total == clamped(f.transaction_count as int),
        r.installment_paid == clamped(f.installment_count as int),
        r.installment_pending == 0,
{
    FinancialStatsResponse {
        total_income: clamp_i64(f.total_income),
        total_expense: clamp_i64(f.total_expense),
        net_income: clamp_i64(f.net_income),
        installment_total: clamp_i64(f.transaction_count as i128),
        installment_paid: clamp_i64(f.installment_count as i128),
        installment_pending: 0,
    }
}

} // verus!
