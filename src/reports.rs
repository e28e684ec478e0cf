//! The ledger's read-side operations: searches, statistics, reminders, and
//! the batch change of students.
use crate::clock::{month_start, month_start_millis, now_millis, year_start, year_start_millis};
use crate::error::LedgerError;
use crate::manager::{checked, Ledger};
use crate::model::{
    class_named, parse_class_type, parse_subject_type, subject_named, Student, StudentView, DAY_MS,
};
use crate::stats::{
    active_course_count, all_rings_of, expense, revenue, selected, totals_of, Selection,
};
use crate::student::{
    holds_student, matching_students, student_views, StudentChange, StudentQuery,
    StudentUpdater,
};
use crate::text::same_text;
use crate::validation::{is_class_name, is_subject_name, validate_class_type, validate_subject_type};
use vstd::prelude::*;
use vstd::string::*;

verus! {

/// Figures over the whole ledger. Averages and maxima of scores are taken
/// over `Ledger::all_scores`.
#[derive(Clone, Copy, Debug, PartialEq, Eq, Structural)]
pub struct DashboardStats {
    pub total_students: usize,
    /// The sum of the positive amounts.
    pub total_revenue: i128,
    /// The sum of the absolute values of the negative amounts.
    pub total_expense: i128,
    /// Students with a membership not yet ended or with lessons left.
    pub active_courses: usize,
}

/// Where a student's membership stands at a given time.
#[derive(Clone, Copy, Debug, PartialEq, Eq, Structural)]
pub enum MembershipStatus {
    NoMembership,
    Upcoming,
    Active,
    Expired,
}

/// Figures about one student.
#[derive(Clone, Copy, Debug, PartialEq, Eq, Structural)]
pub struct StudentStats {
    /// The signed sum of the student's cash records.
    pub total_payments: i128,
    pub payment_count: usize,
    pub score_count: usize,
    pub membership_status: MembershipStatus,
}

/// A span of time that ends now.
#[derive(Clone, Copy, Debug, PartialEq, Eq, Structural)]
pub enum TimePeriod {
    Today,
    ThisWeek,
    ThisMonth,
    ThisYear,
}

/// Income and expense of the records dated within a period.
#[derive(Clone, Copy, Debug, PartialEq, Eq, Structural)]
pub struct FinancialStats {
    pub total_income: i128,
    pub total_expense: i128,
    pub net_income: i128,
    pub transaction_count: usize,
    pub installment_count: usize,
}

/// Changes to apply to several students at once: name, age, class and
/// subject. The note is carried but not applied.
pub struct StudentUpdateBatch {
    pub name: Option<String>,
    pub age: Option<u8>,
    pub class_type: Option<String>,
    pub subject: Option<String>,
    pub note: Option<String>,
}

pub open spec fn membership_status_at(v: StudentView, now: i64) -> MembershipStatus {
    match (v.membership_start_date, v.membership_end_date) {
        (Some(s), Some(e)) => if now < s {
            MembershipStatus::Upcoming
        } else if now <= e {
            MembershipStatus::Active
        } else {
            MembershipStatus::Expired
        },
        _ => MembershipStatus::NoMembership,
    }
}

/// The period a name stands for.
pub open spec fn period_named(s: Seq<char>) -> Option<TimePeriod> {
    if s == "Today"@ {
        Some(TimePeriod::Today)
    } else if s == "ThisWeek"@ {
        Some(TimePeriod::ThisWeek)
    } else if s == "ThisMonth"@ {
        Some(TimePeriod::ThisMonth)
    } else if s == "ThisYear"@ {
        Some(TimePeriod::ThisYear)
    } else {
        None
    }
}

/// The first instant of a period that ends at `now`, in UTC: midnight today,
/// Monday midnight this week, the first of this month, the first of January.
pub open spec fn period_start(p: TimePeriod, now: i64) -> Option<i64> {
    let day = now as int / DAY_MS as int;
    match p {
        TimePeriod::Today => instant_of(day * DAY_MS),
        TimePeriod::ThisWeek => instant_of((day - (day + 3) % 7) * DAY_MS),
        TimePeriod::ThisMonth => month_start(now),
        TimePeriod::ThisYear => year_start(now),
    }
}

/// `t` as an instant, when it fits one.
pub open spec fn instant_of(t: int) -> Option<i64> {
    if i64::MIN <= t <= i64::MAX {
        Some(t as i64)
    } else {
        None
    }
}

/// The students of `s` whose membership is running at `now` and ends no
/// later than `cutoff`, in store order.
pub open spec fn expiring_students(s: Seq<StudentView>, now: i64, cutoff: int) -> Seq<StudentView>
    decreases s.len(),
{
    if s.len() == 0 {
        Seq::empty()
    } else {
        let rest = expiring_students(s.drop_last(), now, cutoff);
        let v = s.last();
        if v.membership_start_date is Some && (v.membership_end_date matches Some(e) && e <= cutoff)
            && v.membership_active_at(now) {
            rest.push(v)
        } else {
            rest
        }
    }
}

/// The change that a batch makes: name, age, class and subject where given.
pub open spec fn batch_change(b: StudentUpdateBatch) -> StudentChange {
    StudentChange {
        name: match b.name {
            Some(n) => Some(n@),
            None => None,
        },
        age: b.age,
        class: match b.class_type {
            Some(c) => class_named(c@),
            None => None,
        },
        subject: match b.subject {
            Some(s) => subject_named(s@),
            None => None,
        },
        ..StudentChange::none()
    }
}

/// How many of `uids` name a student of `s`.
pub open spec fn present_count(uids: Seq<u64>, s: Seq<StudentView>) -> nat
    decreases uids.len(),
{
    if uids.len() == 0 {
        0
    } else {
        present_count(uids.drop_last(), s) + if holds_student(s, uids.last()) {
            1nat
        } else {
            0nat
        }
    }
}

/// Reads a period by name.
pub fn parse_time_period(s: &str) -> (r: Option<TimePeriod>)
    ensures
        r == period_named(s@),
{
    if same_text(s, "Today") {
        Some(TimePeriod::Today)
    } else if same_text(s, "ThisWeek") {
        Some(TimePeriod::ThisWeek)
    } else if same_text(s, "ThisMonth") {
        Some(TimePeriod::ThisMonth)
    } else if same_text(s, "ThisYear") {
        Some(TimePeriod::ThisYear)
    } else {
        None
    }
}

/// The first instant of period `p` ending at `now`.
pub fn period_start_millis(p: TimePeriod, now: i64) -> (r: Option<i64>)
    ensures
        r == period_start(p, now),
{
    let day = now.checked_div_euclid(DAY_MS).unwrap();
    assert(day == now as int / DAY_MS as int);
    let day_start = day as i128 * DAY_MS as i128;
    match p {
        TimePeriod::Today => {
            if day_start < i64::MIN as i128 {
                None
            } else {
                assert(day * DAY_MS <= now) by (nonlinear_arith)
                    requires
                        day == now as int / DAY_MS as int,
                ;
                Some(day_start as i64)
            }
        },
        TimePeriod::ThisWeek => {
            let back = (day + 3).checked_rem_euclid(7).unwrap();
            assert(back == (day + 3) % 7);
            let week_start = day_start - back as i128 * DAY_MS as i128;
            if week_start < i64::MIN as i128 {
                None
            } else {
                assert(day * DAY_MS <= now) by (nonlinear_arith)
                    requires
                        day == now as int / DAY_MS as int,
                ;
                Some(week_start as i64)
            }
        },
        TimePeriod::ThisMonth => month_start_millis(now),
        TimePeriod::ThisYear => year_start_millis(now),
    }
}

impl Ledger {
    /// Copies of the students that meet the given conditions, in store
    /// order. An age range applies when both ends are given; class and
    /// subject must be known names.
    pub fn search_students(
        &self,
        name_contains: Option<String>,
        min_age: Option<u8>,
        max_age: Option<u8>,
        class_type: Option<String>,
        subject: Option<String>,
        has_membership: Option<bool>,
    ) -> (r: Result<Vec<Student>, LedgerError>)
        ensures
            (class_type matches Some(c) && !is_class_name(c@)) || (subject matches Some(s)
                && !is_subject_name(s@)) || (min_age matches Some(lo) && max_age matches Some(hi)
                && lo > hi) <==> r is Err,
            r matches Err(e) ==> e is Validation,
            r matches Ok(v) ==> exists|q: StudentQuery|
                student_views(v@) == #[trigger] matching_students(self.students@, q) && (match q.name_contains {
                    Some(n) => Some(n@),
                    None => None,
                }) == (match name_contains {
                    Some(n) => Some(n@),
                    None => None,
                }) && q.age_range == (match (min_age, max_age) {
                    (Some(lo), Some(hi)) => Some((lo, hi)),
                    _ => None,
                }) && q.class == (match class_type {
                    Some(c) => class_named(c@),
                    None => None,
                }) && q.subject == (match subject {
                    Some(s) => subject_named(s@),
                    None => None,
                }) && q.has_membership == has_membership,
    {
        let mut q = StudentQuery::new();
        if let Some(n) = &name_contains {
            q = q.name_contains(n.as_str());
        }
        if let (Some(lo), Some(hi)) = (min_age, max_age) {
            if lo > hi {
                return Err(LedgerError::Validation(String::from_str("最小年龄不能大于最大年龄")));
            }
            q = q.age_range(lo, hi);
        }
        if let Some(c) = &class_type {
            if let Err(e) = checked(validate_class_type(c.as_str())) {
                return Err(e);
            }
            q = q.class(parse_class_type(c.as_str()).unwrap());
        }
        if let Some(s) = &subject {
            if let Err(e) = checked(validate_subject_type(s.as_str())) {
                return Err(e);
            }
            q = q.subject(parse_subject_type(s.as_str()).unwrap());
        }
        if let Some(h) = has_membership {
            q = q.has_membership(h);
        }
        self.students.search(&q)
    }

    /// Student count, revenue, expense and active courses at `now`.
    pub fn get_dashboard_stats_at(&self, now: i64) -> (r: DashboardStats)
        ensures
            r.total_students == self.students@.len(),
            r.total_revenue == revenue(self.cash@),
            r.total_expense == expense(self.cash@),
            r.active_courses == active_course_count(self.students@, now),
    {
        let t = self.cash.totals(Selection::All);
        proof {
            crate::stats::lemma_select_all(self.cash@);
        }
        DashboardStats {
            total_students: self.students.len(),
            total_revenue: t.income,
            total_expense: t.expense,
            active_courses: self.students.active_courses(now),
        }
    }

    /// `get_dashboard_stats_at` the time now.
    pub fn get_dashboard_stats(&self) -> (r: DashboardStats)
        ensures
            r.total_students == self.students@.len(),
            r.total_revenue == revenue(self.cash@),
            r.total_expense == expense(self.cash@),
            exists|t: i64| r.active_courses == #[trigger] active_course_count(self.students@, t),
    {
        let now = now_millis();
        self.get_dashboard_stats_at(now)
    }

    /// All scores of all students, student after student.
    pub fn all_scores(&self) -> (r: Vec<u64>)
        ensures
            r@ == all_rings_of(self.students@),
    {
        self.students.all_rings()
    }

    /// Payments, scores and membership of student `uid` at `now`.
    pub fn get_student_stats_at(&self, student_uid: u64, now: i64) -> (r: Result<
        StudentStats,
        LedgerError,
    >)
        requires
            self.wf(),
        ensures
            r is Err <==> !holds_student(self.students@, student_uid),
            r matches Err(e) ==> e == LedgerError::NotFound,
            r matches Ok(st) ==> {
                let t = totals_of(selected(self.cash@, Selection::OfStudent(student_uid)));
                &&& st.total_payments == t.income - t.expense
                &&& st.payment_count == t.count
                &&& exists|i: int|
                    0 <= i < self.students@.len() && #[trigger] self.students@[i].uid
                        == student_uid && st.score_count == self.students@[i].rings.len()
                        && st.membership_status == membership_status_at(self.students@[i], now)
            },
    {
        let s = match self.students.get(student_uid) {
            Some(s) => s,
            None => {
                return Err(LedgerError::NotFound);
            },
        };
        let t = self.cash.totals(Selection::OfStudent(student_uid));
        let status = match (s.membership_start_date, s.membership_end_date) {
            (Some(a), Some(b)) => if now < a {
                MembershipStatus::Upcoming
            } else if now <= b {
                MembershipStatus::Active
            } else {
                MembershipStatus::Expired
            },
            _ => MembershipStatus::NoMembership,
        };
        proof {
            crate::stats::lemma_revenue_less_expense(selected(self.cash@, Selection::OfStudent(student_uid)));
        }
        assert(t.income >= 0 && t.expense >= 0 && t.income <= i128::MAX && t.expense <= i128::MAX);
        Ok(
            StudentStats {
                total_payments: t.income - t.expense,
                payment_count: t.count,
                score_count: s.rings.len(),
                membership_status: status,
            },
        )
    }

    /// `get_student_stats_at` the time now.
    pub fn get_student_stats(&self, student_uid: u64) -> (r: Result<StudentStats, LedgerError>)
        requires
            self.wf(),
        ensures
            r is Err <==> !holds_student(self.students@, student_uid),
            r matches Err(e) ==> e == LedgerError::NotFound,
            r matches Ok(st) ==> {
                let t = totals_of(selected(self.cash@, Selection::OfStudent(student_uid)));
                &&& st.total_payments == t.income - t.expense
                &&& st.payment_count == t.count
                &&& exists|i: int|
                    0 <= i < self.students@.len() && #[trigger] self.students@[i].uid
                        == student_uid && st.score_count == self.students@[i].rings.len()
            },
    {
        let now = now_millis();
        self.get_student_stats_at(student_uid, now)
    }

    /// Income, expense and counts of the records dated from the start of
    /// period `p` up to `now`.
    pub fn get_financial_stats_at(&self, p: TimePeriod, now: i64) -> (r: Result<
        FinancialStats,
        LedgerError,
    >)
        ensures
            period_start(p, now) is None <==> r is Err,
            r matches Err(e) ==> e == LedgerError::State,
            r matches Ok(f) ==> {
                let t = totals_of(
                    selected(self.cash@, Selection::DatedWithin(period_start(p, now)->Some_0, now)),
                );
                &&& f.total_income == t.income
                &&& f.total_expense == t.expense
                &&& f.net_income == t.income - t.expense
                &&& f.transaction_count == t.count
                &&& f.installment_count == t.installments
            },
    {
        let from = match period_start_millis(p, now) {
            Some(f) => f,
            None => {
                return Err(LedgerError::State);
            },
        };
        let t = self.cash.totals(Selection::DatedWithin(from, now));
        Ok(
            FinancialStats {
                total_income: t.income,
                total_expense: t.expense,
                net_income: t.income - t.expense,
                transaction_count: t.count,
                installment_count: t.installments,
            },
        )
    }

    /// Financial figures of a period named `Today`, `ThisWeek`, `ThisMonth`
    /// or `ThisYear`, up to the time now.
    pub fn get_financial_stats(&self, period: &str) -> (r: Result<FinancialStats, LedgerError>)
        ensures
            period_named(period@) is None ==> r matches Err(LedgerError::Validation(_)),
            period_named(period@) is Some ==> (r is Ok || r == Err::<FinancialStats, LedgerError>(
                LedgerError::State,
            )),
            r == Err::<FinancialStats, LedgerError>(LedgerError::State) ==> exists|t: i64|
                (#[trigger] period_start(period_named(period@)->Some_0, t)) is None,
            r matches Ok(f) ==> exists|t: i64|
                #[trigger] period_start(period_named(period@)->Some_0, t) matches Some(from) && {
                    let s = totals_of(selected(self.cash@, Selection::DatedWithin(from, t)));
                    &&& f.total_income == s.income
                    &&& f.total_expense == s.expense
                    &&& f.net_income == s.income - s.expense
                    &&& f.transaction_count == s.count
                    &&& f.installment_count == s.installments
                },
    {
        let p = match parse_time_period(period) {
            Some(p) => p,
            None => {
                return Err(LedgerError::Validation(String::from_str("无效的时间段")));
            },
        };
        let now = now_millis();
        self.get_financial_stats_at(p, now)
    }

    /// Applies the batch's name, age, class and subject to each listed
    /// student, and gives how many of the listed ids were changed. Class and
    /// subject must be known names; a student the change cannot apply to is
    /// skipped.
    pub fn update_multiple_students(&mut self, student_uids: &Vec<u64>, updates: &StudentUpdateBatch) -> (r:
        Result<usize, LedgerError>)
        requires
            old(self).wf(),
        ensures
            final(self).wf(),
            final(self).cash == old(self).cash,
            (updates.class_type matches Some(c) && !is_class_name(c@)) || (updates.subject matches Some(
                s,
            ) && !is_subject_name(s@)) <==> r is Err,
            r is Err ==> *final(self) == *old(self),
            r matches Err(e) ==> e is Validation,
            r matches Ok(n) ==> n == if (updates.age matches Some(a) ==> 3 <= a <= 120) {
                present_count(student_uids@, old(self).students@)
            } else {
                0
            },
            final(self).students@.len() == old(self).students@.len(),
            r is Ok ==> forall|i: int|
                0 <= i < old(self).students@.len() ==> #[trigger] final(self).students@[i] == if (
                updates.age matches Some(a) ==> 3 <= a <= 120) && student_uids@.contains(
                    old(self).students@[i].uid,
                ) {
                    batch_change(*updates).applied_to(old(self).students@[i])
                } else {
                    old(self).students@[i]
                },
    {
        let mut u_class = None;
        if let Some(c) = &updates.class_type {
            if let Err(e) = checked(validate_class_type(c.as_str())) {
                return Err(e);
            }
            u_class = parse_class_type(c.as_str());
        }
        let mut u_subject = None;
        if let Some(s) = &updates.subject {
            if let Err(e) = checked(validate_subject_type(s.as_str())) {
                return Err(e);
            }
            u_subject = parse_subject_type(s.as_str());
        }
        let age_ok = match updates.age {
            Some(a) => 3 <= a && a <= 120,
            None => true,
        };
        let mut count: usize = 0;
        let mut k: usize = 0;
        while k < student_uids.len()
            invariant
                self.wf(),
                self.cash == old(self).cash,
                k <= student_uids.len(),
                age_ok == (updates.age matches Some(a) ==> 3 <= a <= 120),
                forall|id: u64| holds_student(self.students@, id) <==> holds_student(
                    old(self).students@,
                    id,
                ),
                age_ok ==> count == present_count(student_uids@.subrange(0, k as int), old(self).students@),
                !age_ok ==> count == 0,
                count <= k,
                u_class == (match updates.class_type {
                    Some(c) => class_named(c@),
                    None => None,
                }),
                u_subject == (match updates.subject {
                    Some(s) => subject_named(s@),
                    None => None,
                }),
                self.students@.len() == old(self).students@.len(),
                forall|i: int|
                    0 <= i < self.students@.len() ==> #[trigger] self.students@[i] == if age_ok
                        && student_uids@.subrange(0, k as int).contains(old(self).students@[i].uid) {
                        batch_change(*updates).applied_to(old(self).students@[i])
                    } else {
                        old(self).students@[i]
                    },
            decreases student_uids.len() - k,
        {
            proof {
                assert(student_uids@.subrange(0, k + 1).drop_last() =~= student_uids@.subrange(
                    0,
                    k as int,
                ));
            }
            let uid = student_uids[k];
            let mut u = StudentUpdater {
                name: None,
                age: updates.age,
                class: u_class,
                subject: u_subject,
                phone: None,
                note: None,
                lesson_left: None,
                membership: None,
                ring_edit: None,
            };
            if let Some(n) = &updates.name {
                u = u.name(n.as_str());
            }
            let ghost before = self.students@;
            let ghost c = batch_change(*updates);
            assert(u@ == c);
            let res = self.students.update(uid, u);
            proof {
                let prefix = student_uids@.subrange(0, k as int);
                let grown = student_uids@.subrange(0, k + 1);
                assert(grown =~= prefix.push(uid));
                assert forall|x: u64| #[trigger] grown.contains(x) <==> prefix.contains(x) || x == uid by {
                    if grown.contains(x) {
                        let t = choose|t: int| 0 <= t < grown.len() && grown[t] == x;
                        if t < prefix.len() {
                            assert(prefix[t] == x);
                        }
                    }
                    if prefix.contains(x) {
                        let t = choose|t: int| 0 <= t < prefix.len() && prefix[t] == x;
                        assert(grown[t] == x);
                    }
                    if x == uid {
                        assert(grown[k as int] == x);
                    }
                }
                assert forall|i: int| 0 <= i < before.len() implies #[trigger] before[i].uid
                    == old(self).students@[i].uid by {
                }
                if holds_student(before, uid) {
                    let j = choose|j: int| 0 <= j < before.len() && #[trigger] before[j].uid == uid;
                    assert forall|i: int| 0 <= i < before.len() && i != j implies #[trigger] before[i].uid
                        != uid by {
                        if i < j {
                            assert(before[i].uid < before[j].uid);
                        } else {
                            assert(before[j].uid < before[i].uid);
                        }
                    }
                    assert(c.applied_to(c.applied_to(old(self).students@[j])) == c.applied_to(
                        old(self).students@[j],
                    ));
                    assert(u@.allowed_on(before[j]) == age_ok);
                    if age_ok {
                        assert forall|id: u64| holds_student(self.students@, id) <==> holds_student(
                            before,
                            id,
                        ) by {
                            if holds_student(before, id) {
                                let j = choose|j: int|
                                    0 <= j < before.len() && #[trigger] before[j].uid == id;
                                assert(self.students@[j].uid == id);
                            }
                            if holds_student(self.students@, id) {
                                let j = choose|j: int|
                                    0 <= j < self.students@.len() && #[trigger] self.students@[j].uid
                                        == id;
                                assert(before[j].uid == id);
                            }
                        }
                    }
                } else {
                    assert forall|i: int| 0 <= i < before.len() implies #[trigger] before[i].uid
                        != uid by {
                        if before[i].uid == uid {
                            assert(holds_student(before, uid));
                        }
                    }
                }
            }
            if res.is_ok() {
                count = count + 1;
            }
            k = k + 1;
        }
        proof {
            assert(student_uids@.subrange(0, k as int) =~= student_uids@);
        }
        Ok(count)
    }

    /// Copies of the students whose membership is running at `now` and ends
    /// within `days` days of it, in store order.
    pub fn get_membership_expiring_soon_at(&self, days: i64, now: i64) -> (r: Result<
        Vec<Student>,
        LedgerError,
    >)
        ensures
            days <= 0 <==> r is Err,
            r matches Err(e) ==> e is Validation,
            r matches Ok(v) ==> student_views(v@) == expiring_students(
                self.students@,
                now,
                now + days * DAY_MS,
            ),
    {
        if days <= 0 {
            return Err(LedgerError::Validation(String::from_str("天数必须大于0")));
        }
        assert(0 < days * DAY_MS <= 0x8000_0000_0000_0000 * 86_400_000) by (nonlinear_arith)
            requires
                0 < days <= i64::MAX,
        ;
        let cutoff: i128 = now as i128 + days as i128 * DAY_MS as i128;
        assert(cutoff == now + days * DAY_MS) by (nonlinear_arith)
            requires
                cutoff == now as i128 + days as i128 * DAY_MS as i128,
                days > 0,
        ;
        let mut r: Vec<Student> = Vec::new();
        let mut i: usize = 0;
        while i < self.students.len()
            invariant
                i <= self.students@.len(),
                cutoff == now + days * DAY_MS,
                student_views(r@) == expiring_students(self.students@.subrange(0, i as int), now, cutoff as int),
            decreases self.students@.len() - i,
        {
            proof {
                assert(self.students@.subrange(0, i + 1).drop_last() =~= self.students@.subrange(
                    0,
                    i as int,
                ));
            }
            let s = self.students.at(i);
            let expiring = match (s.membership_start_date, s.membership_end_date) {
                (Some(_), Some(e)) => (e as i128) <= cutoff && s.is_membership_active(now),
                _ => false,
            };
            if expiring {
                let ghost prev = r@;
                let d = s.duplicate();
                r.push(d);
                assert(student_views(r@) =~= student_views(prev).push(d@));
            }
            i = i + 1;
        }
        proof {
            assert(self.students@.subrange(0, i as int) =~= self.students@);
        }
        Ok(r)
    }

    /// `get_membership_expiring_soon_at` the time now.
    pub fn get_membership_expiring_soon(&self, days: i64) -> (r: Result<Vec<Student>, LedgerError>)
        ensures
            days <= 0 <==> r is Err,
            r matches Err(e) ==> e is Validation,
            r matches Ok(v) ==> exists|t: i64|
                student_views(v@) == #[trigger] expiring_students(self.students@, t, t + days * DAY_MS),
    {
        let now = now_millis();
        self.get_membership_expiring_soon_at(days, now)
    }
}

} // verus!
