//! Figures derived by scanning the stores: income and expense, counts,
//! active courses.
use crate::cash::CashStore;
use crate::model::{CashView, StudentView};
use crate::student::StudentStore;
use vstd::prelude::*;

verus! {

/// The sum of all amounts of `s`, signed.
pub open spec fn signed_total(s: Seq<CashView>) -> int
    decreases s.len(),
{
    if s.len() == 0 {
        0
    } else {
        signed_total(s.drop_last()) + s.last().cash
    }
}

/// The sum of the positive amounts of `s`.
pub open spec fn revenue(s: Seq<CashView>) -> int
    decreases s.len(),
{
    if s.len() == 0 {
        0
    } else {
        revenue(s.drop_last()) + if s.last().cash > 0 {
            s.last().cash as int
        } else {
            0
        }
    }
}

/// The sum of the absolute values of the negative amounts of `s`.
pub open spec fn expense(s: Seq<CashView>) -> int
    decreases s.len(),
{
    if s.len() == 0 {
        0
    } else {
        expense(s.drop_last()) + if s.last().cash < 0 {
            -s.last().cash
        } else {
            0
        }
    }
}

/// Which records a total covers.
#[derive(Clone, Copy, Debug, PartialEq, Eq, Structural)]
pub enum Selection {
    /// Every record.
    All,
    /// The records dated within `from..=to`.
    DatedWithin(i64, i64),
    /// The records of one student.
    OfStudent(u64),
}

impl Selection {
    pub open spec fn covers(self, v: CashView) -> bool {
        match self {
            Selection::All => true,
            Selection::DatedWithin(from, to) => from <= v.date() <= to,
            Selection::OfStudent(uid) => v.student_id == Some(uid),
        }
    }
}

/// The records of `s` that `sel` covers, in store order.
pub open spec fn selected(s: Seq<CashView>, sel: Selection) -> Seq<CashView>
    decreases s.len(),
{
    if s.len() == 0 {
        Seq::empty()
    } else if sel.covers(s.last()) {
        selected(s.drop_last(), sel).push(s.last())
    } else {
        selected(s.drop_last(), sel)
    }
}

/// How many records of `s` carry an installment.
pub open spec fn installment_count(s: Seq<CashView>) -> nat
    decreases s.len(),
{
    if s.len() == 0 {
        0
    } else {
        installment_count(s.drop_last()) + if s.last().installment is Some {
            1nat
        } else {
            0nat
        }
    }
}

/// A student with a course running at `now`: a membership not yet ended, or
/// lessons left.
pub open spec fn has_active_course(v: StudentView, now: i64) -> bool {
    ||| (v.membership_end_date matches Some(e) && now <= e)
    ||| (v.lesson_left matches Some(n) && n > 0)
}

/// How many students of `s` have a course running at `now`.
pub open spec fn active_course_count(s: Seq<StudentView>, now: i64) -> nat
    decreases s.len(),
{
    if s.len() == 0 {
        0
    } else {
        active_course_count(s.drop_last(), now) + if has_active_course(s.last(), now) {
            1nat
        } else {
            0nat
        }
    }
}

/// All scores of all students, student after student, in store order.
pub open spec fn all_rings_of(s: Seq<StudentView>) -> Seq<u64>
    decreases s.len(),
{
    if s.len() == 0 {
        Seq::empty()
    } else {
        all_rings_of(s.drop_last()) + s.last().rings
    }
}

/// Income, expense and counts over some records.
#[derive(Clone, Copy, Debug, PartialEq, Eq, Structural)]
pub struct CashTotals {
    /// The sum of the positive amounts.
    pub income: i128,
    /// The sum of the absolute values of the negative amounts.
    pub expense: i128,
    /// The number of records.
    pub count: usize,
    /// The number of records that carry an installment.
    pub installments: usize,
}

/// The totals of the records `s`.
pub open spec fn totals_of(s: Seq<CashView>) -> CashTotals {
    CashTotals {
        income: revenue(s) as i128,
        expense: expense(s) as i128,
        count: s.len() as usize,
        installments: installment_count(s) as usize,
    }
}

/// Revenue less expense is the signed sum.
pub proof fn lemma_revenue_less_expense(s: Seq<CashView>)
    ensures
        revenue(s) - expense(s) == signed_total(s),
    decreases s.len(),
{
    if s.len() > 0 {
        lemma_revenue_less_expense(s.drop_last());
    }
}

proof fn lemma_sums_bounded(s: Seq<CashView>)
    ensures
        0 <= revenue(s) <= s.len() * 0x8000_0000_0000_0000,
        0 <= expense(s) <= s.len() * 0x8000_0000_0000_0000,
        installment_count(s) <= s.len(),
    decreases s.len(),
{
    if s.len() > 0 {
        lemma_sums_bounded(s.drop_last());
    }
}

proof fn lemma_selected_len(s: Seq<CashView>, sel: Selection)
    ensures
        selected(s, sel).len() <= s.len(),
    decreases s.len(),
{
    if s.len() > 0 {
        lemma_selected_len(s.drop_last(), sel);
    }
}

/// Selecting every record selects them all.
pub proof fn lemma_select_all(s: Seq<CashView>)
    ensures
        selected(s, Selection::All) == s,
    decreases s.len(),
{
    if s.len() > 0 {
        lemma_select_all(s.drop_last());
        assert(s.drop_last().push(s.last()) =~= s);
    }
}

impl CashStore {
    /// Income, expense and counts of the records that `sel` covers.
    pub fn totals(&self, sel: Selection) -> (r: CashTotals)
        ensures
            r == totals_of(selected(self@, sel)),
            r.income == revenue(selected(self@, sel)),
            r.expense == expense(selected(self@, sel)),
            0 <= r.income <= 0x7fff_ffff_ffff_ffff_8000_0000_0000_0000,
            0 <= r.expense <= 0x7fff_ffff_ffff_ffff_8000_0000_0000_0000,
    {
        let mut income: i128 = 0;
        let mut outgo: i128 = 0;
        let mut count: usize = 0;
        let mut installments: usize = 0;
        let mut i: usize = 0;
        while i < self.len()
            invariant
                i <= self@.len(),
                income == revenue(selected(self@.subrange(0, i as int), sel)),
                outgo == expense(selected(self@.subrange(0, i as int), sel)),
                count == selected(self@.subrange(0, i as int), sel).len(),
                installments == installment_count(selected(self@.subrange(0, i as int), sel)),
            decreases self@.len() - i,
        {
            let ghost pre = selected(self@.subrange(0, i as int), sel);
            let ghost post = selected(self@.subrange(0, i + 1), sel);
            proof {
                assert(self@.subrange(0, i + 1).drop_last() =~= self@.subrange(0, i as int));
                lemma_selected_len(self@.subrange(0, i + 1), sel);
                lemma_sums_bounded(post);
                lemma_sums_bounded(pre);
            }
            let c = self.at(i);
            let covered = match sel {
                Selection::All => true,
                Selection::DatedWithin(from, to) => {
                    let d = c.date();
                    from <= d && d <= to
                },
                Selection::OfStudent(uid) => c.student_id == Some(uid),
            };
            if covered {
                assert(post == pre.push(self@[i as int]));
                assert(post.drop_last() == pre);
                let a = c.cash;
                if a > 0 {
                    income = income + a as i128;
                } else if a < 0 {
                    outgo = outgo - a as i128;
                }
                if c.installment.is_some() {
                    installments = installments + 1;
                }
                count = count + 1;
            }
            i = i + 1;
        }
        assert(self@.subrange(0, i as int) =~= self@);
        proof {
            lemma_selected_len(self@, sel);
            lemma_sums_bounded(selected(self@, sel));
            assert(selected(self@, sel).len() * 0x8000_0000_0000_0000 <= 0x7fff_ffff_ffff_ffff_8000_0000_0000_0000)
                by (nonlinear_arith)
                requires
                    selected(self@, sel).len() <= usize::MAX,
            ;
        }
        CashTotals { income, expense: outgo, count, installments }
    }
}

proof fn lemma_active_bounded(s: Seq<StudentView>, now: i64)
    ensures
        active_course_count(s, now) <= s.len(),
    decreases s.len(),
{
    if s.len() > 0 {
        lemma_active_bounded(s.drop_last(), now);
    }
}

impl StudentStore {
    /// How many students have a course running at `now`.
    pub fn active_courses(&self, now: i64) -> (r: usize)
        ensures
            r == active_course_count(self@, now),
    {
        let mut n: usize = 0;
        let mut i: usize = 0;
        while i < self.len()
            invariant
                i <= self@.len(),
                n == active_course_count(self@.subrange(0, i as int), now),
            decreases self@.len() - i,
        {
            proof {
                assert(self@.subrange(0, i + 1).drop_last() =~= self@.subrange(0, i as int));
                lemma_active_bounded(self@.subrange(0, i + 1), now);
            }
            let s = self.at(i);
            let running = match s.membership_end_date {
                Some(e) => now <= e,
                None => false,
            } || match s.lesson_left {
                Some(k) => k > 0,
                None => false,
            };
            if running {
                n = n + 1;
            }
            i = i + 1;
        }
        assert(self@.subrange(0, i as int) =~= self@);
        n
    }

    /// All scores of all students, student after student, in store order.
    pub fn all_rings(&self) -> (r: Vec<u64>)
        ensures
            r@ == all_rings_of(self@),
    {
        let mut r: Vec<u64> = Vec::new();
        let mut i: usize = 0;
        while i < self.len()
            invariant
                i <= self@.len(),
                r@ == all_rings_of(self@.subrange(0, i as int)),
            decreases self@.len() - i,
        {
            assert(self@.subrange(0, i + 1).drop_last() =~= self@.subrange(0, i as int));
            let s = self.at(i);
            let ghost before = r@;
            let mut k: usize = 0;
            while k < s.rings.len()
                invariant
                    k <= s.rings@.len(),
                    r@ == before + s.rings@.subrange(0, k as int),
                decreases s.rings@.len() - k,
            {
                r.push(s.rings[k]);
                assert(s.rings@.subrange(0, k + 1) =~= s.rings@.subrange(0, k as int).push(
                    s.rings@[k as int],
                ));
                k = k + 1;
            }
            assert(s.rings@.subrange(0, k as int) =~= s.rings@);
            i = i + 1;
        }
        assert(self@.subrange(0, i as int) =~= self@);
        r
    }
}

} // verus!
