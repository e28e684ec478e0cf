//! The ledger: one student store and one cash store behind the operations
//! that callers use. Each operation checks its input, then changes the
//! stores all at once or not at all.
use crate::cash::CashStore;
use crate::clock::{now_millis, parse_rfc3339, rfc3339_instant};
use crate::error::LedgerError;
use crate::model::{opt_text, class_named, parse_class_type, parse_subject_type, subject_named, Student, StudentView, DAY_MS};
use crate::student::{
    holds_student, student_views, update_outcome, MembershipEdit, RingEdit, StudentBuilder,
    StudentChange, StudentStore, StudentUpdater,
};
use crate::text::{trim, trimmed};
use crate::validation::{
    is_class_name, is_subject_name, valid_age, valid_note, valid_phone_number, valid_student_name,
    validate_age, validate_class_type, validate_note, validate_phone_number, validate_student_name,
    validate_student_uid, validate_subject_type,
};
use vstd::prelude::*;
use vstd::string::*;

verus! {

/// The most lessons a student may have left.
pub const MAX_LESSONS: u32 = 9999;

/// The students and the cash records, kept together.
#[derive(Clone)]
pub struct Ledger {
    pub students: StudentStore,
    pub cash: CashStore,
}

/// A check's verdict as a ledger error.
pub(crate) fn checked(r: Result<(), String>) -> (out: Result<(), LedgerError>)
    ensures
        out is Ok <==> r is Ok,
        out matches Err(e) ==> e is Validation,
{
    match r {
        Ok(()) => Ok(()),
        Err(m) => Err(LedgerError::Validation(m)),
    }
}

/// The fields of a new student are all acceptable.
pub open spec fn student_fields_valid(
    name: Seq<char>,
    age: u8,
    class_type: Seq<char>,
    phone: Seq<char>,
    note: Seq<char>,
    subject: Seq<char>,
) -> bool {
    &&& valid_student_name(name)
    &&& valid_age(age)
    &&& valid_phone_number(phone)
    &&& valid_note(note)
    &&& is_class_name(class_type)
    &&& is_subject_name(subject)
}

/// The student that `add_student` makes under id `uid`: name, phone and note
/// trimmed, no scores, lessons or membership.
pub open spec fn new_student(
    uid: u64,
    name: Seq<char>,
    age: u8,
    class_type: Seq<char>,
    phone: Seq<char>,
    note: Seq<char>,
    subject: Seq<char>,
) -> StudentView {
    StudentView {
        uid,
        name: trimmed(name),
        age,
        class: class_named(class_type)->Some_0,
        subject: subject_named(subject)->Some_0,
        phone: trimmed(phone),
        note: trimmed(note),
        rings: Seq::empty(),
        lesson_left: None,
        membership_start_date: None,
        membership_end_date: None,
    }
}

/// The change that edits one score.
pub open spec fn ring_change(edit: RingEdit) -> StudentChange {
    StudentChange { ring_edit: Some(edit), ..StudentChange::none() }
}

/// The change that edits the membership.
pub open spec fn membership_change(edit: MembershipEdit) -> StudentChange {
    StudentChange { membership: Some(edit), ..StudentChange::none() }
}

/// The optional text `s` trimmed.
pub open spec fn trimmed_opt(s: Option<String>) -> Option<Seq<char>> {
    match s {
        Some(t) => Some(trimmed(t@)),
        None => None,
    }
}

/// The fields of a change of student information are all acceptable.
pub open spec fn info_valid(
    uid: u64,
    name: Option<String>,
    age: Option<u8>,
    class_type: Option<String>,
    phone: Option<String>,
    note: Option<String>,
    subject: Option<String>,
    lesson_left: Option<u32>,
) -> bool {
    &&& uid != 0
    &&& (name matches Some(n) ==> valid_student_name(n@))
    &&& (age matches Some(a) ==> valid_age(a))
    &&& (phone matches Some(p) ==> valid_phone_number(p@))
    &&& (note matches Some(n) ==> valid_note(n@))
    &&& (class_type matches Some(c) ==> is_class_name(c@))
    &&& (subject matches Some(s) ==> is_subject_name(s@))
    &&& (lesson_left matches Some(l) ==> l <= MAX_LESSONS)
}

/// Whether each given date is RFC 3339 text.
pub open spec fn date_readable(s: Option<String>) -> bool {
    s matches Some(t) ==> rfc3339_instant(t@) is Some
}

/// The instant of a readable optional date.
pub open spec fn date_value(s: Option<String>) -> Option<i64> {
    match s {
        Some(t) => rfc3339_instant(t@),
        None => None,
    }
}

/// The membership edit that a start and an end, each optional, make: both
/// replace the window, one replaces that bound, none leaves it.
pub open spec fn window_edit(start: Option<i64>, end: Option<i64>) -> Option<MembershipEdit> {
    match (start, end) {
        (Some(s), Some(e)) => Some(MembershipEdit::Replace(Some(s), Some(e))),
        (Some(s), None) => Some(MembershipEdit::Start(s)),
        (None, Some(e)) => Some(MembershipEdit::End(e)),
        (None, None) => None,
    }
}

/// The change that `update_student_info` makes: the name as given (it is
/// checked in its trimmed form), phone and note trimmed, lessons set when
/// given, the membership edited by the given bounds.
pub open spec fn info_change(
    name: Option<String>,
    age: Option<u8>,
    class_type: Option<String>,
    phone: Option<String>,
    note: Option<String>,
    subject: Option<String>,
    lesson_left: Option<u32>,
    start: Option<i64>,
    end: Option<i64>,
) -> StudentChange {
    StudentChange {
        name: opt_text(name),
        age,
        class: match class_type {
            Some(c) => class_named(c@),
            None => None,
        },
        subject: match subject {
            Some(s) => subject_named(s@),
            None => None,
        },
        phone: trimmed_opt(phone),
        note: trimmed_opt(note),
        lesson_left: match lesson_left {
            Some(l) => Some(Some(l)),
            None => None,
        },
        membership: window_edit(start, end),
        ring_edit: None,
    }
}

/// The membership window that `set_membership_by_type` gives: from `now`, or
/// from the end of the current membership when asked not to start today, for
/// 30 days (`month`) or 365 days (`year`).
pub open spec fn typed_window_start(v: StudentView, start_from_today: bool, now: i64) -> int {
    if start_from_today {
        now as int
    } else {
        match v.membership_end_date {
            Some(e) => e as int,
            None => now as int,
        }
    }
}

/// The length in days of a membership type: 30 for `month`, 365 for `year`.
pub open spec fn membership_type_days(t: Seq<char>) -> int {
    if t == "month"@ {
        30
    } else {
        365
    }
}

/// In `after`, student `uid` of `before` has the membership of type `t` that
/// starts at `now`, or at the end of its membership when not asked to start
/// today; nothing else has changed.
pub open spec fn typed_membership_set(
    before: Seq<StudentView>,
    after: Seq<StudentView>,
    uid: u64,
    t: Seq<char>,
    start_from_today: Option<bool>,
    now: i64,
) -> bool {
    forall|i: int|
        0 <= i < before.len() && #[trigger] before[i].uid == uid ==> {
            let start = typed_window_start(before[i], start_from_today != Some(false), now);
            let end = start + membership_type_days(t) * DAY_MS;
            &&& end <= i64::MAX
            &&& after == before.update(
                i,
                membership_change(
                    MembershipEdit::Replace(Some(start as i64), Some(end as i64)),
                ).applied_to(before[i]),
            )
        }
}

impl Ledger {
    pub open spec fn wf(&self) -> bool {
        self.students.wf() && self.cash.wf()
    }

    /// An empty ledger.
    pub fn new() -> (r: Ledger)
        ensures
            r.wf(),
            r.students@ == Seq::<StudentView>::empty(),
            r.cash@ == Seq::<crate::model::CashView>::empty(),
    {
        Ledger { students: StudentStore::new(), cash: CashStore::new() }
    }

    /// A ledger rebuilt from a saved snapshot: each store's records in store
    /// order and the id it gives next, so that no id is given twice across a
    /// reload. Refused when either part breaks its store's invariant.
    pub fn restore(
        students: Vec<Student>,
        next_student_uid: u64,
        cash: Vec<crate::model::Cash>,
        next_cash_uid: u64,
    ) -> (r: Result<Ledger, LedgerError>)
        ensures
            r is Ok <==> crate::student::student_store_wf(student_views(students@), next_student_uid)
                && crate::cash::cash_store_wf(crate::cash::cash_views(cash@), next_cash_uid),
            r matches Err(e) ==> e is Validation,
            r matches Ok(l) ==> {
                &&& l.wf()
                &&& l.students@ == student_views(students@)
                &&& l.students.next_id() == next_student_uid
                &&& l.cash@ == crate::cash::cash_views(cash@)
                &&& l.cash.next_id() == next_cash_uid
            },
    {
        let s = match StudentStore::from_parts(students, next_student_uid) {
            Some(s) => s,
            None => {
                return Err(LedgerError::Validation(String::from_str("学生数据不一致")));
            },
        };
        let c = match CashStore::from_parts(cash, next_cash_uid) {
            Some(c) => c,
            None => {
                return Err(LedgerError::Validation(String::from_str("现金记录数据不一致")));
            },
        };
        Ok(Ledger { students: s, cash: c })
    }

    /// Creates a student from checked fields and gives back what was stored.
    pub fn add_student(
        &mut self,
        name: &str,
        age: u8,
        class_type: &str,
        phone: &str,
        note: &str,
        subject: &str,
    ) -> (r: Result<Student, LedgerError>)
        requires
            old(self).wf(),
        ensures
            final(self).wf(),
            !student_fields_valid(name@, age, class_type@, phone@, note@, subject@) ==> (r matches Err(
                LedgerError::Validation(_),
            )) && *final(self) == *old(self),
            student_fields_valid(name@, age, class_type@, phone@, note@, subject@) ==> match r {
                Ok(s) => {
                    &&& s@ == new_student(
                        old(self).students.next_id(),
                        name@,
                        age,
                        class_type@,
                        phone@,
                        note@,
                        subject@,
                    )
                    &&& final(self).students@ == old(self).students@.push(s@)
                    &&& final(self).students.next_id() == s.uid + 1
                    &&& final(self).cash == old(self).cash
                },
                Err(e) => e == LedgerError::State && old(self).students.next_id() == u64::MAX
                    && *final(self) == *old(self),
            },
    {
        if let Err(e) = checked(validate_student_name(name)) {
            return Err(e);
        }
        if let Err(e) = checked(validate_age(age)) {
            return Err(e);
        }
        if let Err(e) = checked(validate_phone_number(phone)) {
            return Err(e);
        }
        if let Err(e) = checked(validate_note(note)) {
            return Err(e);
        }
        if let Err(e) = checked(validate_class_type(class_type)) {
            return Err(e);
        }
        if let Err(e) = checked(validate_subject_type(subject)) {
            return Err(e);
        }
        let class = parse_class_type(class_type).unwrap();
        let subject_kind = parse_subject_type(subject).unwrap();
        let b = StudentBuilder::new(trim(name), age).phone(trim(phone)).class(class).subject(
            subject_kind,
        ).note(trim(note));
        match self.students.insert(b) {
            Ok(_) => {
                let last = self.students.len() - 1;
                Ok(self.students.at(last).duplicate())
            },
            Err(e) => Err(e),
        }
    }

    /// Copies of all students, in the order they were added.
    pub fn list_students(&self) -> (r: Vec<Student>)
        ensures
            student_views(r@) == self.students@,
    {
        self.students.list()
    }

    /// A copy of the student with id `uid`, if there is one.
    pub fn get_student(&self, uid: u64) -> (r: Option<Student>)
        requires
            self.wf(),
        ensures
            r is Some <==> holds_student(self.students@, uid),
            r matches Some(s) ==> exists|i: int|
                0 <= i < self.students@.len() && self.students@[i].uid == uid
                    && #[trigger] self.students@[i] == s@,
    {
        self.students.get(uid)
    }

    /// Applies `u` to student `uid`, refusing the id zero.
    fn update_student_by(&mut self, uid: u64, u: StudentUpdater) -> (r: Result<(), LedgerError>)
        requires
            old(self).wf(),
        ensures
            final(self).wf(),
            final(self).cash == old(self).cash,
            final(self).students.next_id() == old(self).students.next_id(),
            r is Err ==> *final(self) == *old(self),
            uid == 0 ==> r matches Err(LedgerError::Validation(_)),
            uid != 0 ==> update_outcome(old(self).students@, final(self).students@, uid, u@, r),
    {
        if let Err(e) = checked(validate_student_uid(uid)) {
            return Err(e);
        }
        self.students.update(uid, u)
    }

    /// Appends a score (the bit pattern of its `f64` value) to student `uid`.
    pub fn add_score(&mut self, student_uid: u64, score: u64) -> (r: Result<(), LedgerError>)
        requires
            old(self).wf(),
        ensures
            final(self).wf(),
            final(self).cash == old(self).cash,
            r is Err ==> *final(self) == *old(self),
            student_uid == 0 ==> r matches Err(LedgerError::Validation(_)),
            student_uid != 0 ==> update_outcome(
                old(self).students@,
                final(self).students@,
                student_uid,
                ring_change(RingEdit::Add(score)),
                r,
            ),
    {
        let u = StudentUpdater::new().add_ring(score);
        assert(u@ == ring_change(RingEdit::Add(score)));
        self.update_student_by(student_uid, u)
    }

    /// Removes the score at `score_index` of student `uid`.
    pub fn delete_student_score(&mut self, student_uid: u64, score_index: usize) -> (r: Result<
        (),
        LedgerError,
    >)
        requires
            old(self).wf(),
        ensures
            final(self).wf(),
            final(self).cash == old(self).cash,
            r is Err ==> *final(self) == *old(self),
            student_uid == 0 ==> r matches Err(LedgerError::Validation(_)),
            student_uid != 0 ==> update_outcome(
                old(self).students@,
                final(self).students@,
                student_uid,
                ring_change(RingEdit::RemoveAt(score_index)),
                r,
            ),
    {
        let u = StudentUpdater::new().remove_ring_at(score_index);
        assert(u@ == ring_change(RingEdit::RemoveAt(score_index)));
        self.update_student_by(student_uid, u)
    }

    /// Replaces the score at `score_index` of student `uid`.
    pub fn update_student_score(&mut self, student_uid: u64, score_index: usize, new_score: u64) -> (r:
        Result<(), LedgerError>)
        requires
            old(self).wf(),
        ensures
            final(self).wf(),
            final(self).cash == old(self).cash,
            r is Err ==> *final(self) == *old(self),
            student_uid == 0 ==> r matches Err(LedgerError::Validation(_)),
            student_uid != 0 ==> update_outcome(
                old(self).students@,
                final(self).students@,
                student_uid,
                ring_change(RingEdit::UpdateAt(score_index, new_score)),
                r,
            ),
    {
        let u = StudentUpdater::new().update_ring_at(score_index, new_score);
        assert(u@ == ring_change(RingEdit::UpdateAt(score_index, new_score)));
        self.update_student_by(student_uid, u)
    }

    /// The scores of student `uid`, in the order they were added.
    pub fn get_student_scores(&self, student_uid: u64) -> (r: Result<Vec<u64>, LedgerError>)
        requires
            self.wf(),
        ensures
            r is Err <==> !holds_student(self.students@, student_uid),
            r matches Err(e) ==> e == LedgerError::NotFound,
            r matches Ok(v) ==> exists|i: int|
                0 <= i < self.students@.len() && #[trigger] self.students@[i].uid == student_uid
                    && v@ == self.students@[i].rings,
    {
        match self.students.get(student_uid) {
            Some(s) => Ok(s.rings),
            None => Err(LedgerError::NotFound),
        }
    }

    /// Changes the given fields of student `uid` and leaves the others. A
    /// membership bound given alone replaces that bound and keeps the other.
    pub fn update_student_info(
        &mut self,
        student_uid: u64,
        name: Option<String>,
        age: Option<u8>,
        class_type: Option<String>,
        phone: Option<String>,
        note: Option<String>,
        subject: Option<String>,
        lesson_left: Option<u32>,
        membership_start_date: Option<String>,
        membership_end_date: Option<String>,
    ) -> (r: Result<(), LedgerError>)
        requires
            old(self).wf(),
        ensures
            final(self).wf(),
            final(self).cash == old(self).cash,
            r is Err ==> *final(self) == *old(self),
            !info_valid(student_uid, name, age, class_type, phone, note, subject, lesson_left) ==> (r matches Err(
                LedgerError::Validation(_),
            )),
            info_valid(student_uid, name, age, class_type, phone, note, subject, lesson_left) && !(
            date_readable(membership_start_date) && date_readable(membership_end_date)) ==> (r matches Err(
                LedgerError::Validation(_),
            )),
            info_valid(student_uid, name, age, class_type, phone, note, subject, lesson_left)
                && date_readable(membership_start_date) && date_readable(membership_end_date)
                ==> update_outcome(
                old(self).students@,
                final(self).students@,
                student_uid,
                info_change(
                    name,
                    age,
                    class_type,
                    phone,
                    note,
                    subject,
                    lesson_left,
                    date_value(membership_start_date),
                    date_value(membership_end_date),
                ),
                r,
            ),
    {
        if let Err(e) = checked(validate_student_uid(student_uid)) {
            return Err(e);
        }
        if let Some(n) = &name {
            if let Err(e) = checked(validate_student_name(n.as_str())) {
                return Err(e);
            }
        }
        if let Some(a) = age {
            if let Err(e) = checked(validate_age(a)) {
                return Err(e);
            }
        }
        if let Some(p) = &phone {
            if let Err(e) = checked(validate_phone_number(p.as_str())) {
                return Err(e);
            }
        }
        if let Some(n) = &note {
            if let Err(e) = checked(validate_note(n.as_str())) {
                return Err(e);
            }
        }
        if let Some(c) = &class_type {
            if let Err(e) = checked(validate_class_type(c.as_str())) {
                return Err(e);
            }
        }
        if let Some(s) = &subject {
            if let Err(e) = checked(validate_subject_type(s.as_str())) {
                return Err(e);
            }
        }
        if let Some(l) = lesson_left {
            if l > MAX_LESSONS {
                return Err(LedgerError::Validation(String::from_str("剩余课时不能超过9999")));
            }
        }
        let start = match &membership_start_date {
            Some(s) => match parse_rfc3339(s.as_str()) {
                Some(t) => Some(t),
                None => {
                    return Err(LedgerError::Validation(String::from_str("会员开始日期格式错误")));
                },
            },
            None => None,
        };
        let end = match &membership_end_date {
            Some(s) => match parse_rfc3339(s.as_str()) {
                Some(t) => Some(t),
                None => {
                    return Err(LedgerError::Validation(String::from_str("会员结束日期格式错误")));
                },
            },
            None => None,
        };
        let mut u = StudentUpdater::new();
        if let Some(n) = &name {
            u = u.name(n.as_str());
        }
        if let Some(a) = age {
            u = u.age(a);
        }
        if let Some(c) = &class_type {
            u = u.class(parse_class_type(c.as_str()).unwrap());
        }
        if let Some(p) = &phone {
            u = u.phone(trim(p.as_str()));
        }
        if let Some(n) = &note {
            u = u.note(trim(n.as_str()));
        }
        if let Some(s) = &subject {
            u = u.subject(parse_subject_type(s.as_str()).unwrap());
        }
        if let Some(l) = lesson_left {
            u = u.lesson_left(Some(l));
        }
        u = match (start, end) {
            (Some(s), Some(e)) => u.membership(Some(s), Some(e)),
            (Some(s), None) => u.membership_start(s),
            (None, Some(e)) => u.membership_end(e),
            (None, None) => u,
        };
        assert(u@ == info_change(
            name,
            age,
            class_type,
            phone,
            note,
            subject,
            lesson_left,
            date_value(membership_start_date),
            date_value(membership_end_date),
        ));
        self.students.update(student_uid, u)
    }

    /// Sets the membership window of student `uid` to `start..end`; both
    /// unset clear it. Refused with `DomainConflict` when start is not before end.
    pub fn set_membership(&mut self, student_uid: u64, start: Option<i64>, end: Option<i64>) -> (r:
        Result<(), LedgerError>)
        requires
            old(self).wf(),
        ensures
            final(self).wf(),
            final(self).cash == old(self).cash,
            r is Err ==> *final(self) == *old(self),
            student_uid == 0 ==> r matches Err(LedgerError::Validation(_)),
            student_uid != 0 && (start matches Some(s) && end matches Some(e) && s >= e) ==> r
                == Err::<(), LedgerError>(LedgerError::DomainConflict),
            student_uid != 0 && !(start matches Some(s) && end matches Some(e) && s >= e)
                ==> update_outcome(
                old(self).students@,
                final(self).students@,
                student_uid,
                membership_change(MembershipEdit::Replace(start, end)),
                r,
            ),
    {
        if let Err(e) = checked(validate_student_uid(student_uid)) {
            return Err(e);
        }
        if let (Some(s), Some(e)) = (start, end) {
            if s >= e {
                return Err(LedgerError::DomainConflict);
            }
        }
        let u = StudentUpdater::new().membership(start, end);
        assert(u@ == membership_change(MembershipEdit::Replace(start, end)));
        self.students.update(student_uid, u)
    }

    /// Sets the membership window of student `uid` from RFC 3339 dates.
    pub fn set_student_membership(
        &mut self,
        student_uid: u64,
        start_date: Option<String>,
        end_date: Option<String>,
    ) -> (r: Result<(), LedgerError>)
        requires
            old(self).wf(),
        ensures
            final(self).wf(),
            final(self).cash == old(self).cash,
            r is Err ==> *final(self) == *old(self),
            student_uid == 0 ==> r matches Err(LedgerError::Validation(_)),
            student_uid != 0 && !(date_readable(start_date) && date_readable(end_date)) ==> (r matches Err(
                LedgerError::Validation(_),
            )),
            student_uid != 0 && date_readable(start_date) && date_readable(end_date) ==> {
                let s = date_value(start_date);
                let e = date_value(end_date);
                if s matches Some(a) && e matches Some(b) && a >= b {
                    r == Err::<(), LedgerError>(LedgerError::DomainConflict)
                } else {
                    update_outcome(
                        old(self).students@,
                        final(self).students@,
                        student_uid,
                        membership_change(MembershipEdit::Replace(s, e)),
                        r,
                    )
                }
            },
    {
        if let Err(e) = checked(validate_student_uid(student_uid)) {
            return Err(e);
        }
        let start = match &start_date {
            Some(s) => match parse_rfc3339(s.as_str()) {
                Some(t) => Some(t),
                None => {
                    return Err(LedgerError::Validation(String::from_str("会员开始日期格式错误")));
                },
            },
            None => None,
        };
        let end = match &end_date {
            Some(s) => match parse_rfc3339(s.as_str()) {
                Some(t) => Some(t),
                None => {
                    return Err(LedgerError::Validation(String::from_str("会员结束日期格式错误")));
                },
            },
            None => None,
        };
        self.set_membership(student_uid, start, end)
    }

    /// Removes the membership of student `uid`.
    pub fn clear_student_membership(&mut self, student_uid: u64) -> (r: Result<(), LedgerError>)
        requires
            old(self).wf(),
        ensures
            final(self).wf(),
            final(self).cash == old(self).cash,
            r is Err ==> *final(self) == *old(self),
            student_uid == 0 ==> r matches Err(LedgerError::Validation(_)),
            student_uid != 0 ==> update_outcome(
                old(self).students@,
                final(self).students@,
                student_uid,
                membership_change(MembershipEdit::Replace(None, None)),
                r,
            ),
    {
        self.set_membership(student_uid, None, None)
    }

    /// Gives student `uid` a membership of one month (30 days, `month`) or
    /// one year (365 days, `year`), starting `now`, or, when not asked to
    /// start today, where the current membership ends.
    pub fn set_membership_by_type_at(
        &mut self,
        student_uid: u64,
        membership_type: &str,
        start_from_today: Option<bool>,
        now: i64,
    ) -> (r: Result<(), LedgerError>)
        requires
            old(self).wf(),
        ensures
            final(self).wf(),
            final(self).cash == old(self).cash,
            r is Err ==> *final(self) == *old(self),
            student_uid == 0 ==> r matches Err(LedgerError::Validation(_)),
            student_uid != 0 && !holds_student(old(self).students@, student_uid) ==> r is Err,
            student_uid != 0 && !(membership_type@ == "month"@ || membership_type@ == "year"@)
                ==> r is Err,
            forall|i: int|
                0 <= i < old(self).students@.len() && #[trigger] old(self).students@[i].uid
                    == student_uid && student_uid != 0 ==> {
                    let v = old(self).students@[i];
                    let start = typed_window_start(v, start_from_today != Some(false), now);
                    let days: int = if membership_type@ == "month"@ {
                        30
                    } else {
                        365
                    };
                    let end = start + days * DAY_MS;
                    (membership_type@ == "month"@ || membership_type@ == "year"@) && end
                        <= i64::MAX ==> r is Ok && final(self).students@
                        == old(self).students@.update(
                        i,
                        membership_change(
                            MembershipEdit::Replace(Some(start as i64), Some(end as i64)),
                        ).applied_to(v),
                    )
                },
            r is Ok ==> typed_membership_set(
                old(self).students@,
                final(self).students@,
                student_uid,
                membership_type@,
                start_from_today,
                now,
            ),
    {
        if let Err(e) = checked(validate_student_uid(student_uid)) {
            return Err(e);
        }
        let start = if start_from_today != Some(false) {
            now
        } else {
            match self.students.get(student_uid) {
                Some(s) => match s.membership_end_date {
                    Some(e) => e,
                    None => now,
                },
                None => {
                    return Err(LedgerError::NotFound);
                },
            }
        };
        let days: i64 = if crate::text::same_text(membership_type, "month") {
            30
        } else if crate::text::same_text(membership_type, "year") {
            365
        } else {
            return Err(LedgerError::Validation(String::from_str("无效的会员类型，只支持 'month' 或 'year'")));
        };
        let end = match start.checked_add(days * DAY_MS) {
            Some(e) => e,
            None => {
                return Err(LedgerError::Validation(String::from_str("会员结束日期超出范围")));
            },
        };
        let u = StudentUpdater::new().membership(Some(start), Some(end));
        self.students.update(student_uid, u)
    }

    /// `set_membership_by_type_at`, starting from the time now.
    pub fn set_membership_by_type(
        &mut self,
        student_uid: u64,
        membership_type: &str,
        start_from_today: Option<bool>,
    ) -> (r: Result<(), LedgerError>)
        requires
            old(self).wf(),
        ensures
            final(self).wf(),
            final(self).cash == old(self).cash,
            r is Err ==> *final(self) == *old(self),
            student_uid == 0 ==> r matches Err(LedgerError::Validation(_)),
            student_uid != 0 && !holds_student(old(self).students@, student_uid) ==> r is Err,
            student_uid != 0 && !(membership_type@ == "month"@ || membership_type@ == "year"@)
                ==> r is Err,
            r is Ok ==> exists|t: i64|
                #[trigger] typed_membership_set(
                    old(self).students@,
                    final(self).students@,
                    student_uid,
                    membership_type@,
                    start_from_today,
                    t,
                ),
            forall|i: int|
                0 <= i < old(self).students@.len() && #[trigger] old(self).students@[i].uid
                    == student_uid && student_uid != 0 && start_from_today == Some(false) && (
                membership_type@ == "month"@ || membership_type@ == "year"@) && (old(
                    self,
                ).students@[i].membership_end_date matches Some(e) && e + membership_type_days(
                    membership_type@,
                ) * DAY_MS <= i64::MAX) ==> {
                    let e = old(self).students@[i].membership_end_date->Some_0;
                    let end = e + membership_type_days(membership_type@) * DAY_MS;
                    &&& r is Ok
                    &&& final(self).students@ == old(self).students@.update(
                        i,
                        membership_change(
                            MembershipEdit::Replace(Some(e), Some(end as i64)),
                        ).applied_to(old(self).students@[i]),
                    )
                },
    {
        let now = now_millis();
        self.set_membership_by_type_at(student_uid, membership_type, start_from_today, now)
    }

    /// Removes student `uid`. Their cash records stay.
    pub fn delete_student(&mut self, student_uid: u64) -> (r: Result<(), LedgerError>)
        requires
            old(self).wf(),
        ensures
            final(self).wf(),
            final(self).cash == old(self).cash,
            r is Err ==> *final(self) == *old(self),
            student_uid == 0 ==> r matches Err(LedgerError::Validation(_)),
            student_uid != 0 ==> (r is Ok <==> holds_student(old(self).students@, student_uid)),
            student_uid != 0 && r is Err ==> r == Err::<(), LedgerError>(LedgerError::NotFound),
            !holds_student(final(self).students@, student_uid),
            r is Ok ==> exists|i: int|
                0 <= i < old(self).students@.len() && #[trigger] old(self).students@[i].uid
                    == student_uid && final(self).students@ == old(self).students@.remove(i),
    {
        if let Err(e) = checked(validate_student_uid(student_uid)) {
            assert(!holds_student(self.students@, 0)) by {
                if holds_student(self.students@, 0) {
                    let k = choose|k: int|
                        0 <= k < self.students@.len() && #[trigger] self.students@[k].uid == 0;
                    assert(self.students@[k].uid >= 1);
                }
            }
            return Err(e);
        }
        if self.students.delete(student_uid) {
            Ok(())
        } else {
            Err(LedgerError::NotFound)
        }
    }
}

} // verus!
