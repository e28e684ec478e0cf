//! The entities: students, cash records and the installments embedded in
//! them, each with a mathematical view that the contracts speak of.
use crate::text::same_text;
use crate::validation::{is_class_name, is_subject_name, valid_age};
use vstd::prelude::*;
use vstd::string::*;

verus! {

/// Milliseconds in one day.
pub const DAY_MS: i64 = 86_400_000;

/// Class tier of a student.
#[derive(Clone, Copy, Debug, PartialEq, Eq, Structural)]
pub enum Class {
    TenTry,
    Month,
    Year,
    Others,
}

/// Subject that a student practises.
#[derive(Clone, Copy, Debug, PartialEq, Eq, Structural)]
pub enum Subject {
    Shooting,
    Archery,
    Others,
}

/// State of one installment of a payment plan.
#[derive(Clone, Copy, Debug, PartialEq, Eq, Structural)]
pub enum InstallmentStatus {
    Pending,
    Paid,
    Overdue,
    Cancelled,
}

/// How often a payment plan falls due; `Custom` counts days.
#[derive(Clone, Copy, Debug, PartialEq, Eq, Structural)]
pub enum PaymentFrequency {
    Weekly,
    Monthly,
    Quarterly,
    Custom(u32),
}

/// One installment of a payment plan, embedded in the cash record that pays it.
/// Times are milliseconds since the Unix epoch, UTC.
#[derive(Clone, Copy, Debug, PartialEq, Eq, Structural)]
pub struct Installment {
    pub plan_id: u64,
    pub total_amount: i64,
    pub total_installments: u32,
    pub current_installment: u32,
    pub frequency: PaymentFrequency,
    pub due_date: i64,
    pub status: InstallmentStatus,
}

/// A student. Scores ("rings") are kept as the bit patterns of their `f64`
/// values (`f64::to_bits`); the library stores and moves them, never computes
/// with them. Membership bounds are milliseconds since the Unix epoch, UTC.
#[derive(Clone, Debug)]
pub struct Student {
    pub uid: u64,
    pub name: String,
    pub age: u8,
    pub class: Class,
    pub subject: Subject,
    pub phone: String,
    pub note: String,
    pub rings: Vec<u64>,
    pub lesson_left: Option<u32>,
    pub membership_start_date: Option<i64>,
    pub membership_end_date: Option<i64>,
}

/// What a student is, as the contracts see it.
pub struct StudentView {
    pub uid: u64,
    pub name: Seq<char>,
    pub age: u8,
    pub class: Class,
    pub subject: Subject,
    pub phone: Seq<char>,
    pub note: Seq<char>,
    pub rings: Seq<u64>,
    pub lesson_left: Option<u32>,
    pub membership_start_date: Option<i64>,
    pub membership_end_date: Option<i64>,
}

impl View for Student {
    type V = StudentView;

    open spec fn view(&self) -> StudentView {
        StudentView {
            uid: self.uid,
            name: self.name@,
            age: self.age,
            class: self.class,
            subject: self.subject,
            phone: self.phone@,
            note: self.note@,
            rings: self.rings@,
            lesson_left: self.lesson_left,
            membership_start_date: self.membership_start_date,
            membership_end_date: self.membership_end_date,
        }
    }
}

/// Membership is absent (both bounds unset) or present (both set, start before end).
pub open spec fn membership_consistent(start: Option<i64>, end: Option<i64>) -> bool {
    match (start, end) {
        (None, None) => true,
        (Some(s), Some(e)) => s < e,
        _ => false,
    }
}

impl StudentView {
    /// A student the store may hold: an age in 3..=120 and a consistent membership.
    pub open spec fn wf(self) -> bool {
        valid_age(self.age) && membership_consistent(
            self.membership_start_date,
            self.membership_end_date,
        )
    }

    /// Whether `now` lies within the membership window, both ends included.
    pub open spec fn membership_active_at(self, now: i64) -> bool {
        match (self.membership_start_date, self.membership_end_date) {
            (Some(s), Some(e)) => s <= now && now <= e,
            _ => false,
        }
    }

    /// Whole days from `now` to the end of the membership, zero once it has
    /// ended; none without a membership.
    pub open spec fn membership_days_left_at(self, now: i64) -> Option<i64> {
        match self.membership_end_date {
            Some(e) => if now < e {
                Some(((e - now) / (DAY_MS as int)) as i64)
            } else {
                Some(0)
            },
            None => None,
        }
    }
}

impl Student {
    /// An exact copy.
    pub fn duplicate(&self) -> (r: Student)
        ensures
            r@ == self@,
    {
        Student {
            uid: self.uid,
            name: self.name.clone(),
            age: self.age,
            class: self.class,
            subject: self.subject,
            phone: self.phone.clone(),
            note: self.note.clone(),
            rings: self.rings.clone(),
            lesson_left: self.lesson_left,
            membership_start_date: self.membership_start_date,
            membership_end_date: self.membership_end_date,
        }
    }

    pub fn is_membership_active(&self, now: i64) -> (r: bool)
        ensures
            r == self@.membership_active_at(now),
    {
        match (self.membership_start_date, self.membership_end_date) {
            (Some(s), Some(e)) => s <= now && now <= e,
            _ => false,
        }
    }

    pub fn membership_days_remaining(&self, now: i64) -> (r: Option<i64>)
        ensures
            r == self@.membership_days_left_at(now),
    {
        match self.membership_end_date {
            Some(e) => {
                if now < e {
                    let span = e as i128 - now as i128;
                    let days = span / (DAY_MS as i128);
                    assert(0 <= days <= span);
                    Some(days as i64)
                } else {
                    Some(0)
                }
            },
            None => None,
        }
    }
}

/// A cash record: income when `cash` is positive, expense when negative, in
/// cents. `created_at` is when it was recorded, milliseconds since the Unix
/// epoch, UTC.
#[derive(Clone, Debug)]
pub struct Cash {
    pub uid: u64,
    pub student_id: Option<u64>,
    pub cash: i64,
    pub note: Option<String>,
    pub installment: Option<Installment>,
    pub created_at: i64,
}

/// What a cash record is, as the contracts see it.
pub struct CashView {
    pub uid: u64,
    pub student_id: Option<u64>,
    pub cash: i64,
    pub note: Option<Seq<char>>,
    pub installment: Option<Installment>,
    pub created_at: i64,
}

pub open spec fn opt_text(s: Option<String>) -> Option<Seq<char>> {
    match s {
        Some(t) => Some(t@),
        None => None,
    }
}

impl View for Cash {
    type V = CashView;

    open spec fn view(&self) -> CashView {
        CashView {
            uid: self.uid,
            student_id: self.student_id,
            cash: self.cash,
            note: opt_text(self.note),
            installment: self.installment,
            created_at: self.created_at,
        }
    }
}

impl CashView {
    /// The date a record counts under: an installment's due date, else the
    /// time it was recorded.
    pub open spec fn date(self) -> i64 {
        match self.installment {
            Some(i) => i.due_date,
            None => self.created_at,
        }
    }

    /// Whether the record is an installment of plan `plan_id`.
    pub open spec fn in_plan(self, plan_id: u64) -> bool {
        self.installment matches Some(i) && i.plan_id == plan_id
    }
}

pub fn copy_text(s: &Option<String>) -> (r: Option<String>)
    ensures
        opt_text(r) == opt_text(*s),
{
    match s {
        Some(t) => Some(t.clone()),
        None => None,
    }
}

impl Cash {
    /// An exact copy.
    pub fn duplicate(&self) -> (r: Cash)
        ensures
            r@ == self@,
    {
        Cash {
            uid: self.uid,
            student_id: self.student_id,
            cash: self.cash,
            note: copy_text(&self.note),
            installment: self.installment,
            created_at: self.created_at,
        }
    }

    /// The date a record counts under.
    pub fn date(&self) -> (r: i64)
        ensures
            r == self@.date(),
    {
        match self.installment {
            Some(i) => i.due_date,
            None => self.created_at,
        }
    }
}

/// The class tier a name stands for.
pub open spec fn class_named(s: Seq<char>) -> Option<Class> {
    if s == "TenTry"@ {
        Some(Class::TenTry)
    } else if s == "Month"@ {
        Some(Class::Month)
    } else if s == "Year"@ {
        Some(Class::Year)
    } else if s == "Others"@ {
        Some(Class::Others)
    } else {
        None
    }
}

/// The subject a name stands for.
pub open spec fn subject_named(s: Seq<char>) -> Option<Subject> {
    if s == "Shooting"@ {
        Some(Subject::Shooting)
    } else if s == "Archery"@ {
        Some(Subject::Archery)
    } else if s == "Others"@ {
        Some(Subject::Others)
    } else {
        None
    }
}

/// The status a name stands for.
pub open spec fn status_named(s: Seq<char>) -> Option<InstallmentStatus> {
    if s == "Pending"@ {
        Some(InstallmentStatus::Pending)
    } else if s == "Paid"@ {
        Some(InstallmentStatus::Paid)
    } else if s == "Overdue"@ {
        Some(InstallmentStatus::Overdue)
    } else if s == "Cancelled"@ {
        Some(InstallmentStatus::Cancelled)
    } else {
        None
    }
}

/// The names of the tiers, subjects and statuses tell them apart.
pub proof fn lemma_names_distinct()
    ensures
        class_named("TenTry"@) == Some(Class::TenTry),
        class_named("Month"@) == Some(Class::Month),
        class_named("Year"@) == Some(Class::Year),
        class_named("Others"@) == Some(Class::Others),
        subject_named("Shooting"@) == Some(Subject::Shooting),
        subject_named("Archery"@) == Some(Subject::Archery),
        subject_named("Others"@) == Some(Subject::Others),
        status_named("Pending"@) == Some(InstallmentStatus::Pending),
        status_named("Paid"@) == Some(InstallmentStatus::Paid),
        status_named("Overdue"@) == Some(InstallmentStatus::Overdue),
        status_named("Cancelled"@) == Some(InstallmentStatus::Cancelled),
{
    reveal_strlit("TenTry");
    reveal_strlit("Month");
    reveal_strlit("Year");
    reveal_strlit("Others");
    reveal_strlit("Shooting");
    reveal_strlit("Archery");
    reveal_strlit("Pending");
    reveal_strlit("Paid");
    reveal_strlit("Overdue");
    reveal_strlit("Cancelled");
    assert("TenTry"@.len() == 6 && "TenTry"@[0] == 'T');
    assert("Month"@.len() == 5);
    assert("Year"@.len() == 4);
    assert("Others"@.len() == 6 && "Others"@[0] == 'O');
    assert("Shooting"@.len() == 8);
    assert("Archery"@.len() == 7);
    assert("Pending"@.len() == 7 && "Pending"@[0] == 'P');
    assert("Paid"@.len() == 4);
    assert("Overdue"@.len() == 7 && "Overdue"@[0] == 'O');
    assert("Cancelled"@.len() == 9);
}

/// Reads a class tier by name.
pub fn parse_class_type(class_type: &str) -> (r: Option<Class>)
    ensures
        r == class_named(class_type@),
        r is Some <==> is_class_name(class_type@),
{
    if same_text(class_type, "TenTry") {
        Some(Class::TenTry)
    } else if same_text(class_type, "Month") {
        Some(Class::Month)
    } else if same_text(class_type, "Year") {
        Some(Class::Year)
    } else if same_text(class_type, "Others") {
        Some(Class::Others)
    } else {
        None
    }
}

/// Reads a subject by name.
pub fn parse_subject_type(subject: &str) -> (r: Option<Subject>)
    ensures
        r == subject_named(subject@),
        r is Some <==> is_subject_name(subject@),
{
    if same_text(subject, "Shooting") {
        Some(Subject::Shooting)
    } else if same_text(subject, "Archery") {
        Some(Subject::Archery)
    } else if same_text(subject, "Others") {
        Some(Subject::Others)
    } else {
        None
    }
}

/// Reads an installment status by name.
pub fn parse_installment_status(status: &str) -> (r: Option<InstallmentStatus>)
    ensures
        r == status_named(status@),
{
    if same_text(status, "Pending") {
        Some(InstallmentStatus::Pending)
    } else if same_text(status, "Paid") {
        Some(InstallmentStatus::Paid)
    } else if same_text(status, "Overdue") {
        Some(InstallmentStatus::Overdue)
    } else if same_text(status, "Cancelled") {
        Some(InstallmentStatus::Cancelled)
    } else {
        None
    }
}

/// The name of a class tier.
pub fn class_name(c: Class) -> (r: String)
    ensures
        class_named(r@) == Some(c),
{
    proof {
        lemma_names_distinct();
    }
    match c {
        Class::TenTry => String::from_str("TenTry"),
        Class::Month => String::from_str("Month"),
        Class::Year => String::from_str("Year"),
        Class::Others => String::from_str("Others"),
    }
}

/// The name of a subject.
pub fn subject_name(s: Subject) -> (r: String)
    ensures
        subject_named(r@) == Some(s),
{
    proof {
        lemma_names_distinct();
    }
    match s {
        Subject::Shooting => String::from_str("Shooting"),
        Subject::Archery => String::from_str("Archery"),
        Subject::Others => String::from_str("Others"),
    }
}

/// The name of an installment status.
pub fn status_name(s: InstallmentStatus) -> (r: String)
    ensures
        status_named(r@) == Some(s),
{
    proof {
        lemma_names_distinct();
    }
    match s {
        InstallmentStatus::Pending => String::from_str("Pending"),
        InstallmentStatus::Paid => String::from_str("Paid"),
        InstallmentStatus::Overdue => String::from_str("Overdue"),
        InstallmentStatus::Cancelled => String::from_str("Cancelled"),
    }
}

} // verus!
