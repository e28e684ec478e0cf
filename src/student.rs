//! The student store: students under ids it assigns, built by a builder,
//! changed by an updater, found by a query.
use crate::error::LedgerError;
use crate::model::{membership_consistent, opt_text, Class, Student, StudentView, Subject};
use crate::text::{contains_text, text_contains};
use crate::validation::valid_age;
use vstd::prelude::*;
use vstd::string::*;

verus! {

/// Gathers what a new student is made of; the store gives the id.
pub struct StudentBuilder {
    pub name: String,
    pub age: u8,
    pub class: Class,
    pub subject: Subject,
    pub phone: String,
    pub note: String,
    pub lesson_left: Option<u32>,
    pub membership_start_date: Option<i64>,
    pub membership_end_date: Option<i64>,
}

impl StudentBuilder {
    /// A builder with the two required fields; the class and subject start
    /// as `Others`, phone and note empty, no lessons and no membership.
    pub fn new(name: &str, age: u8) -> (r: StudentBuilder)
        ensures
            r.name@ == name@,
            r.age == age,
            r.class == Class::Others,
            r.subject == Subject::Others,
            r.phone@ == Seq::<char>::empty(),
            r.note@ == Seq::<char>::empty(),
            r.lesson_left is None,
            r.membership_start_date is None,
            r.membership_end_date is None,
    {
        StudentBuilder {
            name: String::from_str(name),
            age,
            class: Class::Others,
            subject: Subject::Others,
            phone: String::new(),
            note: String::new(),
            lesson_left: None,
            membership_start_date: None,
            membership_end_date: None,
        }
    }

    pub fn class(self, class: Class) -> (r: StudentBuilder)
        ensures
            r == (StudentBuilder { class, ..self }),
    {
        StudentBuilder { class, ..self }
    }

    pub fn subject(self, subject: Subject) -> (r: StudentBuilder)
        ensures
            r == (StudentBuilder { subject, ..self }),
    {
        StudentBuilder { subject, ..self }
    }

    pub fn phone(self, phone: &str) -> (r: StudentBuilder)
        ensures
            r.phone@ == phone@,
            r == (StudentBuilder { phone: r.phone, ..self }),
    {
        StudentBuilder { phone: String::from_str(phone), ..self }
    }

    pub fn note(self, note: &str) -> (r: StudentBuilder)
        ensures
            r.note@ == note@,
            r == (StudentBuilder { note: r.note, ..self }),
    {
        StudentBuilder { note: String::from_str(note), ..self }
    }

    pub fn lesson_left(self, lessons: Option<u32>) -> (r: StudentBuilder)
        ensures
            r == (StudentBuilder { lesson_left: lessons, ..self }),
    {
        StudentBuilder { lesson_left: lessons, ..self }
    }

    pub fn membership(self, start: Option<i64>, end: Option<i64>) -> (r: StudentBuilder)
        ensures
            r == (StudentBuilder { membership_start_date: start, membership_end_date: end, ..self }),
    {
        StudentBuilder { membership_start_date: start, membership_end_date: end, ..self }
    }

    /// The student this builder makes under id `uid`.
    pub open spec fn built(self, uid: u64) -> StudentView {
        StudentView {
            uid,
            name: self.name@,
            age: self.age,
            class: self.class,
            subject: self.subject,
            phone: self.phone@,
            note: self.note@,
            rings: Seq::empty(),
            lesson_left: self.lesson_left,
            membership_start_date: self.membership_start_date,
            membership_end_date: self.membership_end_date,
        }
    }
}

/// One change to a student's list of scores.
#[derive(Clone, Copy, Debug, PartialEq, Eq, Structural)]
pub enum RingEdit {
    Add(u64),
    RemoveAt(usize),
    UpdateAt(usize, u64),
}

/// A change to a student's membership window.
#[derive(Clone, Copy, Debug, PartialEq, Eq, Structural)]
pub enum MembershipEdit {
    /// Replaces both bounds; `Replace(None, None)` clears the membership.
    Replace(Option<i64>, Option<i64>),
    /// Replaces the start and keeps the end.
    Start(i64),
    /// Replaces the end and keeps the start.
    End(i64),
}

impl MembershipEdit {
    /// The window that results from this edit on the window `(start, end)`.
    pub open spec fn window(self, start: Option<i64>, end: Option<i64>) -> (Option<i64>, Option<i64>) {
        match self {
            MembershipEdit::Replace(s, e) => (s, e),
            MembershipEdit::Start(s) => (Some(s), end),
            MembershipEdit::End(e) => (start, Some(e)),
        }
    }
}

/// A partial change of a student: each field set replaces that field, each
/// field left unset leaves it as it is.
pub struct StudentUpdater {
    pub name: Option<String>,
    pub age: Option<u8>,
    pub class: Option<Class>,
    pub subject: Option<Subject>,
    pub phone: Option<String>,
    pub note: Option<String>,
    pub lesson_left: Option<Option<u32>>,
    pub membership: Option<MembershipEdit>,
    pub ring_edit: Option<RingEdit>,
}

/// What an updater changes, as the contracts see it.
pub struct StudentChange {
    pub name: Option<Seq<char>>,
    pub age: Option<u8>,
    pub class: Option<Class>,
    pub subject: Option<Subject>,
    pub phone: Option<Seq<char>>,
    pub note: Option<Seq<char>>,
    pub lesson_left: Option<Option<u32>>,
    pub membership: Option<MembershipEdit>,
    pub ring_edit: Option<RingEdit>,
}

impl View for StudentUpdater {
    type V = StudentChange;

    open spec fn view(&self) -> StudentChange {
        StudentChange {
            name: opt_text(self.name),
            age: self.age,
            class: self.class,
            subject: self.subject,
            phone: opt_text(self.phone),
            note: opt_text(self.note),
            lesson_left: self.lesson_left,
            membership: self.membership,
            ring_edit: self.ring_edit,
        }
    }
}

impl StudentChange {
    /// The change that changes nothing.
    pub open spec fn none() -> StudentChange {
        StudentChange {
            name: None,
            age: None,
            class: None,
            subject: None,
            phone: None,
            note: None,
            lesson_left: None,
            membership: None,
            ring_edit: None,
        }
    }

    /// Whether this change can be applied to `v`: a valid age, a consistent
    /// membership, a score index within the list.
    pub open spec fn allowed_on(self, v: StudentView) -> bool {
        &&& (self.age matches Some(a) ==> valid_age(a))
        &&& (self.membership matches Some(m) ==> membership_consistent(
            m.window(v.membership_start_date, v.membership_end_date).0,
            m.window(v.membership_start_date, v.membership_end_date).1,
        ))
        &&& (self.ring_edit matches Some(RingEdit::RemoveAt(i)) ==> i < v.rings.len())
        &&& (self.ring_edit matches Some(RingEdit::UpdateAt(i, _)) ==> i < v.rings.len())
    }

    /// `v` with this change applied.
    pub open spec fn applied_to(self, v: StudentView) -> StudentView {
        StudentView {
            uid: v.uid,
            name: match self.name {
                Some(n) => n,
                None => v.name,
            },
            age: match self.age {
                Some(a) => a,
                None => v.age,
            },
            class: match self.class {
                Some(c) => c,
                None => v.class,
            },
            subject: match self.subject {
                Some(s) => s,
                None => v.subject,
            },
            phone: match self.phone {
                Some(p) => p,
                None => v.phone,
            },
            note: match self.note {
                Some(n) => n,
                None => v.note,
            },
            rings: match self.ring_edit {
                Some(RingEdit::Add(b)) => v.rings.push(b),
                Some(RingEdit::RemoveAt(i)) => v.rings.remove(i as int),
                Some(RingEdit::UpdateAt(i, b)) => v.rings.update(i as int, b),
                None => v.rings,
            },
            lesson_left: match self.lesson_left {
                Some(l) => l,
                None => v.lesson_left,
            },
            membership_start_date: match self.membership {
                Some(m) => m.window(v.membership_start_date, v.membership_end_date).0,
                None => v.membership_start_date,
            },
            membership_end_date: match self.membership {
                Some(m) => m.window(v.membership_start_date, v.membership_end_date).1,
                None => v.membership_end_date,
            },
        }
    }
}

impl StudentUpdater {
    /// An updater that changes nothing.
    pub fn new() -> (r: StudentUpdater)
        ensures
            r.is_empty(),
    {
        StudentUpdater {
            name: None,
            age: None,
            class: None,
            subject: None,
            phone: None,
            note: None,
            lesson_left: None,
            membership: None,
            ring_edit: None,
        }
    }

    pub open spec fn is_empty(self) -> bool {
        &&& self.name is None
        &&& self.age is None
        &&& self.class is None
        &&& self.subject is None
        &&& self.phone is None
        &&& self.note is None
        &&& self.lesson_left is None
        &&& self.membership is None
        &&& self.ring_edit is None
    }

    pub fn name(self, name: &str) -> (r: StudentUpdater)
        ensures
            r.name matches Some(n) && n@ == name@,
            r == (StudentUpdater { name: r.name, ..self }),
    {
        StudentUpdater { name: Some(String::from_str(name)), ..self }
    }

    pub fn age(self, age: u8) -> (r: StudentUpdater)
        ensures
            r == (StudentUpdater { age: Some(age), ..self }),
    {
        StudentUpdater { age: Some(age), ..self }
    }

    pub fn class(self, class: Class) -> (r: StudentUpdater)
        ensures
            r == (StudentUpdater { class: Some(class), ..self }),
    {
        StudentUpdater { class: Some(class), ..self }
    }

    pub fn subject(self, subject: Subject) -> (r: StudentUpdater)
        ensures
            r == (StudentUpdater { subject: Some(subject), ..self }),
    {
        StudentUpdater { subject: Some(subject), ..self }
    }

    pub fn phone(self, phone: &str) -> (r: StudentUpdater)
        ensures
            r.phone matches Some(p) && p@ == phone@,
            r == (StudentUpdater { phone: r.phone, ..self }),
    {
        StudentUpdater { phone: Some(String::from_str(phone)), ..self }
    }

    pub fn note(self, note: &str) -> (r: StudentUpdater)
        ensures
            r.note matches Some(n) && n@ == note@,
            r == (StudentUpdater { note: r.note, ..self }),
    {
        StudentUpdater { note: Some(String::from_str(note)), ..self }
    }

    pub fn lesson_left(self, lessons: Option<u32>) -> (r: StudentUpdater)
        ensures
            r == (StudentUpdater { lesson_left: Some(lessons), ..self }),
    {
        StudentUpdater { lesson_left: Some(lessons), ..self }
    }

    /// Replaces the membership window; `(None, None)` clears it.
    pub fn membership(self, start: Option<i64>, end: Option<i64>) -> (r: StudentUpdater)
        ensures
            r == (StudentUpdater { membership: Some(MembershipEdit::Replace(start, end)), ..self }),
    {
        StudentUpdater { membership: Some(MembershipEdit::Replace(start, end)), ..self }
    }

    /// Replaces the start of the membership and keeps its end.
    pub fn membership_start(self, start: i64) -> (r: StudentUpdater)
        ensures
            r == (StudentUpdater { membership: Some(MembershipEdit::Start(start)), ..self }),
    {
        StudentUpdater { membership: Some(MembershipEdit::Start(start)), ..self }
    }

    /// Replaces the end of the membership and keeps its start.
    pub fn membership_end(self, end: i64) -> (r: StudentUpdater)
        ensures
            r == (StudentUpdater { membership: Some(MembershipEdit::End(end)), ..self }),
    {
        StudentUpdater { membership: Some(MembershipEdit::End(end)), ..self }
    }

    pub fn add_ring(self, score: u64) -> (r: StudentUpdater)
        ensures
            r == (StudentUpdater { ring_edit: Some(RingEdit::Add(score)), ..self }),
    {
        StudentUpdater { ring_edit: Some(RingEdit::Add(score)), ..self }
    }

    pub fn remove_ring_at(self, index: usize) -> (r: StudentUpdater)
        ensures
            r == (StudentUpdater { ring_edit: Some(RingEdit::RemoveAt(index)), ..self }),
    {
        StudentUpdater { ring_edit: Some(RingEdit::RemoveAt(index)), ..self }
    }

    pub fn update_ring_at(self, index: usize, score: u64) -> (r: StudentUpdater)
        ensures
            r == (StudentUpdater { ring_edit: Some(RingEdit::UpdateAt(index, score)), ..self }),
    {
        StudentUpdater { ring_edit: Some(RingEdit::UpdateAt(index, score)), ..self }
    }

    pub open spec fn allowed_on(self, v: StudentView) -> bool {
        self@.allowed_on(v)
    }

    pub open spec fn applied_to(self, v: StudentView) -> StudentView {
        self@.applied_to(v)
    }

    /// Checks that this updater can be applied to `s`.
    pub fn check(&self, s: &Student) -> (r: bool)
        ensures
            r == self.allowed_on(s@),
    {
        let age_ok = match self.age {
            Some(a) => 3 <= a && a <= 120,
            None => true,
        };
        let membership_ok = match self.membership {
            Some(m) => {
                let (st, en) = match m {
                    MembershipEdit::Replace(a, b) => (a, b),
                    MembershipEdit::Start(a) => (Some(a), s.membership_end_date),
                    MembershipEdit::End(b) => (s.membership_start_date, Some(b)),
                };
                match (st, en) {
                    (Some(a), Some(b)) => a < b,
                    (None, None) => true,
                    _ => false,
                }
            },
            None => true,
        };
        let ring_ok = match self.ring_edit {
            Some(RingEdit::RemoveAt(i)) => i < s.rings.len(),
            Some(RingEdit::UpdateAt(i, _)) => i < s.rings.len(),
            _ => true,
        };
        age_ok && membership_ok && ring_ok
    }

    /// Applies this updater to `s`.
    pub fn apply(self, s: &mut Student)
        requires
            self.allowed_on(old(s)@),
        ensures
            final(s)@ == self.applied_to(old(s)@),
    {
        if let Some(n) = self.name {
            s.name = n;
        }
        if let Some(a) = self.age {
            s.age = a;
        }
        if let Some(c) = self.class {
            s.class = c;
        }
        if let Some(x) = self.subject {
            s.subject = x;
        }
        if let Some(p) = self.phone {
            s.phone = p;
        }
        if let Some(n) = self.note {
            s.note = n;
        }
        if let Some(l) = self.lesson_left {
            s.lesson_left = l;
        }
        if let Some(m) = self.membership {
            match m {
                MembershipEdit::Replace(st, en) => {
                    s.membership_start_date = st;
                    s.membership_end_date = en;
                },
                MembershipEdit::Start(st) => {
                    s.membership_start_date = Some(st);
                },
                MembershipEdit::End(en) => {
                    s.membership_end_date = Some(en);
                },
            }
        }
        match self.ring_edit {
            Some(RingEdit::Add(b)) => {
                s.rings.push(b);
            },
            Some(RingEdit::RemoveAt(i)) => {
                s.rings.remove(i);
            },
            Some(RingEdit::UpdateAt(i, b)) => {
                s.rings.set(i, b);
            },
            None => {},
        }
    }
}

/// Ids ascend strictly in store order, so no id is held twice.
pub open spec fn ids_ascending(s: Seq<StudentView>) -> bool {
    forall|i: int, j: int| 0 <= i < j < s.len() ==> #[trigger] s[i].uid < #[trigger] s[j].uid
}

/// Whether a student with id `uid` is in `s`.
pub open spec fn holds_student(s: Seq<StudentView>, uid: u64) -> bool {
    exists|i: int| 0 <= i < s.len() && #[trigger] s[i].uid == uid
}

/// What a well-formed store holds: ascending ids, all of them below the next
/// id to be given and none zero, and well-formed students.
pub open spec fn student_store_wf(s: Seq<StudentView>, next_uid: u64) -> bool {
    &&& ids_ascending(s)
    &&& forall|i: int| 0 <= i < s.len() ==> 1 <= #[trigger] s[i].uid < next_uid
    &&& forall|i: int| 0 <= i < s.len() ==> (#[trigger] s[i]).wf()
    &&& next_uid >= 1
}

/// What applying `u` to the student with id `uid` does to the students
/// `before`, leaving `after` and answering `r`: `NotFound` and no change when
/// there is no such student; `Validation` and no change when `u` cannot
/// apply to it; else success, with that student replaced by `u` applied to it.
pub open spec fn update_outcome(
    before: Seq<StudentView>,
    after: Seq<StudentView>,
    uid: u64,
    u: StudentChange,
    r: Result<(), LedgerError>,
) -> bool {
    &&& !holds_student(before, uid) ==> r == Err::<(), LedgerError>(LedgerError::NotFound) && after
        == before
    &&& forall|i: int|
        0 <= i < before.len() && #[trigger] before[i].uid == uid ==> {
            if u.allowed_on(before[i]) {
                r is Ok && after == before.update(i, u.applied_to(before[i]))
            } else {
                r matches Err(LedgerError::Validation(_)) && after == before
            }
        }
}

/// Optional conditions on students; a student matches when it meets every
/// condition that is set.
pub struct StudentQuery {
    pub name_contains: Option<String>,
    pub age_range: Option<(u8, u8)>,
    pub class: Option<Class>,
    pub subject: Option<Subject>,
    pub has_membership: Option<bool>,
}

impl StudentQuery {
    /// The query that every student matches.
    pub fn new() -> (r: StudentQuery)
        ensures
            r.name_contains is None,
            r.age_range is None,
            r.class is None,
            r.subject is None,
            r.has_membership is None,
    {
        StudentQuery {
            name_contains: None,
            age_range: None,
            class: None,
            subject: None,
            has_membership: None,
        }
    }

    pub fn name_contains(self, needle: &str) -> (r: StudentQuery)
        ensures
            r.name_contains matches Some(n) && n@ == needle@,
            r == (StudentQuery { name_contains: r.name_contains, ..self }),
    {
        StudentQuery { name_contains: Some(String::from_str(needle)), ..self }
    }

    pub fn age_range(self, min: u8, max: u8) -> (r: StudentQuery)
        ensures
            r == (StudentQuery { age_range: Some((min, max)), ..self }),
    {
        StudentQuery { age_range: Some((min, max)), ..self }
    }

    pub fn class(self, class: Class) -> (r: StudentQuery)
        ensures
            r == (StudentQuery { class: Some(class), ..self }),
    {
        StudentQuery { class: Some(class), ..self }
    }

    pub fn subject(self, subject: Subject) -> (r: StudentQuery)
        ensures
            r == (StudentQuery { subject: Some(subject), ..self }),
    {
        StudentQuery { subject: Some(subject), ..self }
    }

    pub fn has_membership(self, has: bool) -> (r: StudentQuery)
        ensures
            r == (StudentQuery { has_membership: Some(has), ..self }),
    {
        StudentQuery { has_membership: Some(has), ..self }
    }

    /// Whether a range condition is inverted, so that the query is refused.
    pub open spec fn inverted(self) -> bool {
        self.age_range matches Some((lo, hi)) && lo > hi
    }

    /// Whether `v` meets every condition that is set.
    pub open spec fn matches(self, v: StudentView) -> bool {
        &&& (self.name_contains matches Some(n) ==> contains_text(v.name, n@))
        &&& (self.age_range matches Some((lo, hi)) ==> lo <= v.age <= hi)
        &&& (self.class matches Some(c) ==> v.class == c)
        &&& (self.subject matches Some(x) ==> v.subject == x)
        &&& (self.has_membership matches Some(h) ==> (v.membership_start_date is Some) == h)
    }

    /// Tests a student against this query.
    pub fn test(&self, s: &Student) -> (r: bool)
        ensures
            r == self.matches(s@),
    {
        let name_ok = match &self.name_contains {
            Some(n) => text_contains(s.name.as_str(), n.as_str()),
            None => true,
        };
        let age_ok = match self.age_range {
            Some((lo, hi)) => lo <= s.age && s.age <= hi,
            None => true,
        };
        let class_ok = match self.class {
            Some(c) => s.class == c,
            None => true,
        };
        let subject_ok = match self.subject {
            Some(x) => s.subject == x,
            None => true,
        };
        let membership_ok = match self.has_membership {
            Some(h) => s.membership_start_date.is_some() == h,
            None => true,
        };
        name_ok && age_ok && class_ok && subject_ok && membership_ok
    }
}

/// The students of `s` that `q` matches, in store order.
pub open spec fn matching_students(s: Seq<StudentView>, q: StudentQuery) -> Seq<StudentView>
    decreases s.len(),
{
    if s.len() == 0 {
        Seq::empty()
    } else if q.matches(s.last()) {
        matching_students(s.drop_last(), q).push(s.last())
    } else {
        matching_students(s.drop_last(), q)
    }
}

/// The views of a sequence of students.
pub open spec fn student_views(v: Seq<Student>) -> Seq<StudentView> {
    v.map_values(|s: Student| s@)
}

/// The students, in the order they were added, under ids that the store
/// assigns in ascending order and never gives twice.
#[derive(Clone)]
pub struct StudentStore {
    students: Vec<Student>,
    next_uid: u64,
}

impl View for StudentStore {
    type V = Seq<StudentView>;

    closed spec fn view(&self) -> Seq<StudentView> {
        student_views(self.students@)
    }
}

impl StudentStore {
    /// The id that the next student will get.
    pub closed spec fn next_id(&self) -> u64 {
        self.next_uid
    }

    pub open spec fn wf(&self) -> bool {
        student_store_wf(self@, self.next_id())
    }

    /// An empty store whose first id is 1.
    pub fn new() -> (r: StudentStore)
        ensures
            r.wf(),
            r@ == Seq::<StudentView>::empty(),
            r.next_id() == 1,
    {
        let r = StudentStore { students: Vec::new(), next_uid: 1 };
        assert(r@ =~= Seq::<StudentView>::empty());
        r
    }

    /// A store rebuilt from saved parts: the students in store order and the
    /// id to give next. None when the parts break the store's invariant.
    pub fn from_parts(students: Vec<Student>, next_uid: u64) -> (r: Option<StudentStore>)
        ensures
            r is Some <==> student_store_wf(student_views(students@), next_uid),
            r matches Some(s) ==> s@ == student_views(students@) && s.next_id() == next_uid && s.wf(),
    {
        let ghost all = student_views(students@);
        if next_uid == 0 {
            return None;
        }
        let mut i: usize = 0;
        assert(all.subrange(0, 0) =~= Seq::<StudentView>::empty());
        while i < students.len()
            invariant
                i <= students.len(),
                all == student_views(students@),
                next_uid >= 1,
                student_store_wf(all.subrange(0, i as int), next_uid),
            decreases students.len() - i,
        {
            let s = &students[i];
            assert(all[i as int] == s@);
            let ok = 1 <= s.uid && s.uid < next_uid && (i == 0 || students[i - 1].uid < s.uid) && 3
                <= s.age && s.age <= 120 && match (s.membership_start_date, s.membership_end_date) {
                (None, None) => true,
                (Some(a), Some(b)) => a < b,
                _ => false,
            };
            if !ok {
                proof {
                    if !(i == 0 || students@[i - 1].uid < s.uid) {
                        assert(all[i - 1].uid == students@[i - 1].uid);
                        assert(ids_ascending(all) ==> all[i - 1].uid < all[i as int].uid);
                    } else {
                        assert(!(all[i as int].wf() && 1 <= all[i as int].uid < next_uid));
                    }
                }
                return None;
            }
            proof {
                let pre = all.subrange(0, i as int);
                let ext = all.subrange(0, i + 1);
                assert forall|a: int, b: int| 0 <= a < b < ext.len() implies #[trigger] ext[a].uid
                    < #[trigger] ext[b].uid by {
                    if b == i {
                        if a < i - 1 {
                            assert(pre[a].uid < pre[i - 1].uid);
                        }
                        assert(all[i - 1].uid == students@[i - 1].uid);
                    } else {
                        assert(pre[a].uid < pre[b].uid);
                    }
                }
                assert forall|k: int| 0 <= k < ext.len() implies 1 <= #[trigger] ext[k].uid
                    < next_uid && ext[k].wf() by {
                    if k < i {
                        assert(ext[k] == pre[k]);
                    }
                }
            }
            i = i + 1;
        }
        assert(all.subrange(0, i as int) =~= all);
        Some(StudentStore { students, next_uid })
    }

    /// The id that the next student will get.
    pub fn next_uid(&self) -> (r: u64)
        ensures
            r == self.next_id(),
    {
        self.next_uid
    }

    /// The number of students.
    pub fn len(&self) -> (r: usize)
        ensures
            r == self@.len(),
    {
        self.students.len()
    }

    /// The student at position `i` in store order.
    pub fn at(&self, i: usize) -> (r: &Student)
        requires
            i < self@.len(),
        ensures
            r@ == self@[i as int],
    {
        &self.students[i]
    }

    /// The position of the student with id `uid`.
    pub fn position(&self, uid: u64) -> (r: Option<usize>)
        requires
            self.wf(),
        ensures
            r is None <==> !holds_student(self@, uid),
            r matches Some(i) ==> i < self@.len() && self@[i as int].uid == uid,
    {
        let mut i: usize = 0;
        while i < self.students.len()
            invariant
                self.wf(),
                i <= self.students.len(),
                forall|k: int| 0 <= k < i ==> #[trigger] self@[k].uid != uid,
            decreases self.students.len() - i,
        {
            assert(self@[i as int] == self.students@[i as int]@);
            if self.students[i].uid == uid {
                assert(self@[i as int].uid == uid);
                return Some(i);
            }
            i = i + 1;
        }
        None
    }

    /// Adds the student that `b` describes under the next id.
    pub fn insert(&mut self, b: StudentBuilder) -> (r: Result<u64, LedgerError>)
        requires
            old(self).wf(),
        ensures
            final(self).wf(),
            match r {
                Ok(uid) => {
                    &&& b.built(uid).wf()
                    &&& uid == old(self).next_id()
                    &&& final(self)@ == old(self)@.push(b.built(uid))
                    &&& final(self).next_id() == uid + 1
                },
                Err(LedgerError::Validation(_)) => !b.built(old(self).next_id()).wf()
                    && *final(self) == *old(self),
                Err(LedgerError::State) => b.built(old(self).next_id()).wf()
                    && old(self).next_id() == u64::MAX && *final(self) == *old(self),
                Err(_) => false,
            },
    {
        let uid = self.next_uid;
        let age_ok = 3 <= b.age && b.age <= 120;
        let membership_ok = match (b.membership_start_date, b.membership_end_date) {
            (None, None) => true,
            (Some(s), Some(e)) => s < e,
            _ => false,
        };
        if !age_ok || !membership_ok {
            return Err(LedgerError::Validation(String::from_str("学生信息无效")));
        }
        if uid == u64::MAX {
            return Err(LedgerError::State);
        }
        let s = Student {
            uid,
            name: b.name,
            age: b.age,
            class: b.class,
            subject: b.subject,
            phone: b.phone,
            note: b.note,
            rings: Vec::new(),
            lesson_left: b.lesson_left,
            membership_start_date: b.membership_start_date,
            membership_end_date: b.membership_end_date,
        };
        let ghost before = self@;
        self.students.push(s);
        self.next_uid = uid + 1;
        assert(self@ =~= before.push(s@));
        Ok(uid)
    }

    /// A copy of the student with id `uid`, if there is one.
    pub fn get(&self, uid: u64) -> (r: Option<Student>)
        requires
            self.wf(),
        ensures
            r is Some <==> holds_student(self@, uid),
            r matches Some(s) ==> exists|i: int|
                0 <= i < self@.len() && self@[i].uid == uid && #[trigger] self@[i] == s@,
    {
        match self.position(uid) {
            Some(i) => Some(self.students[i].duplicate()),
            None => None,
        }
    }

    /// Applies `u` to the student with id `uid`: all of it, or nothing when
    /// there is no such student or the updater cannot apply.
    pub fn update(&mut self, uid: u64, u: StudentUpdater) -> (r: Result<(), LedgerError>)
        requires
            old(self).wf(),
        ensures
            final(self).wf(),
            final(self).next_id() == old(self).next_id(),
            r is Err ==> *final(self) == *old(self),
            update_outcome(old(self)@, final(self)@, uid, u@, r),
    {
        match self.position(uid) {
            None => Err(LedgerError::NotFound),
            Some(i) => {
                assert(self@[i as int] == self.students@[i as int]@);
                if !u.check(&self.students[i]) {
                    return Err(LedgerError::Validation(String::from_str("更新内容无效")));
                }
                let ghost before = self@;
                let mut s = self.students[i].duplicate();
                u.apply(&mut s);
                self.students.set(i, s);
                assert(self@ =~= before.update(i as int, s@));
                assert forall|k: int|
                    0 <= k < before.len() && #[trigger] before[k].uid == uid implies k == i by {
                    if k < i {
                        assert(before[k].uid < before[i as int].uid);
                    } else if k > i {
                        assert(before[i as int].uid < before[k].uid);
                    }
                }
                assert forall|a: int, c: int| 0 <= a < c < self@.len() implies #[trigger] self@[a].uid
                    < #[trigger] self@[c].uid by {
                    assert(before[a].uid < before[c].uid);
                }
                Ok(())
            },
        }
    }

    /// Removes the student with id `uid`; true when there was one.
    pub fn delete(&mut self, uid: u64) -> (r: bool)
        requires
            old(self).wf(),
        ensures
            final(self).wf(),
            final(self).next_id() == old(self).next_id(),
            r == holds_student(old(self)@, uid),
            !holds_student(final(self)@, uid),
            !r ==> *final(self) == *old(self),
            r ==> exists|i: int|
                0 <= i < old(self)@.len() && #[trigger] old(self)@[i].uid == uid && final(self)@
                    == old(self)@.remove(i),
    {
        match self.position(uid) {
            None => false,
            Some(i) => {
                let ghost before = self@;
                self.students.remove(i);
                assert(self@ =~= before.remove(i as int));
                assert forall|k: int| 0 <= k < self@.len() implies #[trigger] self@[k].uid
                    != uid by {
                    if k < i {
                        assert(before[k].uid < before[i as int].uid);
                    } else {
                        assert(self@[k] == before[k + 1]);
                        assert(before[i as int].uid < before[k + 1].uid);
                    }
                }
                assert forall|a: int, c: int| 0 <= a < c < self@.len() implies #[trigger] self@[a].uid
                    < #[trigger] self@[c].uid by {
                    let a2 = if a < i {
                        a
                    } else {
                        a + 1
                    };
                    let c2 = if c < i {
                        c
                    } else {
                        c + 1
                    };
                    assert(before[a2].uid < before[c2].uid);
                }
                assert forall|k: int| 0 <= k < self@.len() implies 1 <= #[trigger] self@[k].uid
                    < self.next_uid && self@[k].wf() by {
                    if k >= i {
                        assert(self@[k] == before[k + 1]);
                    }
                }
                true
            },
        }
    }

    /// Copies of all students, in store order.
    pub fn list(&self) -> (r: Vec<Student>)
        ensures
            student_views(r@) == self@,
    {
        let mut r: Vec<Student> = Vec::new();
        let mut i: usize = 0;
        while i < self.students.len()
            invariant
                i <= self.students.len(),
                student_views(r@) == self@.subrange(0, i as int),
            decreases self.students.len() - i,
        {
            assert(self@[i as int] == self.students@[i as int]@);
            let ghost prev = r@;
            let d = self.students[i].duplicate();
            r.push(d);
            assert(student_views(r@) =~= student_views(prev).push(d@));
            assert(self@.subrange(0, i + 1) =~= self@.subrange(0, i as int).push(self@[i as int]));
            i = i + 1;
        }
        assert(self@.subrange(0, i as int) =~= self@);
        r
    }

    /// Copies of the students that `q` matches, in store order; refused
    /// before any scan when an age range is inverted.
    pub fn search(&self, q: &StudentQuery) -> (r: Result<Vec<Student>, LedgerError>)
        ensures
            q.inverted() <==> r is Err,
            r matches Err(e) ==> e is Validation,
            r matches Ok(v) ==> student_views(v@) == matching_students(self@, *q),
    {
        if let Some((lo, hi)) = q.age_range {
            if lo > hi {
                return Err(LedgerError::Validation(String::from_str("最小年龄不能大于最大年龄")));
            }
        }
        let mut r: Vec<Student> = Vec::new();
        let mut i: usize = 0;
        while i < self.students.len()
            invariant
                i <= self.students.len(),
                student_views(r@) == matching_students(self@.subrange(0, i as int), *q),
            decreases self.students.len() - i,
        {
            let ghost pre = self@.subrange(0, i as int);
            assert(self@.subrange(0, i + 1).drop_last() =~= pre);
            assert(self@[i as int] == self.students@[i as int]@);
            if q.test(&self.students[i]) {
                r.push(self.students[i].duplicate());
                assert(student_views(r@) =~= matching_students(pre, *q).push(self@[i as int]));
            }
            i = i + 1;
        }
        assert(self@.subrange(0, i as int) =~= self@);
        Ok(r)
    }
}

} // verus!
