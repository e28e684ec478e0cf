use qmx_ledger::error::LedgerError;
use qmx_ledger::manager::Ledger;
use qmx_ledger::model::{Class, Subject, DAY_MS};
use qmx_ledger::reports::{MembershipStatus, StudentUpdateBatch, TimePeriod};
use qmx_ledger::response::convert_student_to_response;
use qmx_ledger::student::StudentUpdater;

const T0: i64 = 1_704_067_200_000; // 2024-01-01T00:00:00Z

fn with_alice() -> (Ledger, u64) {
    let mut l = Ledger::new();
    let s = l.add_student("Alice", 10, "Month", "13800138000", "", "Shooting").unwrap();
    (l, s.uid)
}

#[test]
fn create_student_then_scores() {
    let (mut l, uid) = with_alice();
    let s = l.get_student(uid).unwrap();
    assert_eq!(s.name, "Alice");
    assert_eq!(s.class, Class::Month);
    assert_eq!(s.subject, Subject::Shooting);
    let r = convert_student_to_response(&s, T0);
    assert_eq!(r.lesson_left, None);
    assert!(!r.is_membership_active);
    assert_eq!(r.membership_days_remaining, None);
    assert_eq!(r.class, "Month");
    assert_eq!(r.subject, "Shooting");
    l.add_score(uid, 9.5f64.to_bits()).unwrap();
    l.add_score(uid, 8.0f64.to_bits()).unwrap();
    let scores: Vec<f64> = l.get_student_scores(uid).unwrap().into_iter().map(f64::from_bits).collect();
    assert_eq!(scores, vec![9.5, 8.0]);
    let average = scores.iter().sum::<f64>() / scores.len() as f64;
    assert_eq!(average, 8.75);
}

#[test]
fn add_student_trims_and_validates() {
    let mut l = Ledger::new();
    let s = l.add_student("  Bob ", 30, "Year", " 555 ", " hi ", "Archery").unwrap();
    assert_eq!(s.name, "Bob");
    assert_eq!(s.phone, "555");
    assert_eq!(s.note, "hi");
    assert!(matches!(
        l.add_student("Bob", 2, "Year", "555", "", "Archery"),
        Err(LedgerError::Validation(_))
    ));
    assert!(matches!(
        l.add_student("Bob", 30, "Weekly", "555", "", "Archery"),
        Err(LedgerError::Validation(_))
    ));
    assert_eq!(l.list_students().len(), 1);
}

#[test]
fn two_creations_never_share_an_id() {
    let mut l = Ledger::new();
    let a = l.add_student("A", 10, "Month", "1", "", "Shooting").unwrap();
    let b = l.add_student("B", 11, "Month", "2", "", "Shooting").unwrap();
    assert_ne!(a.uid, b.uid);
    l.delete_student(b.uid).unwrap();
    let c = l.add_student("C", 12, "Month", "3", "", "Shooting").unwrap();
    assert!(c.uid > b.uid);
}

#[test]
fn delete_then_get_and_delete_again() {
    let (mut l, uid) = with_alice();
    assert_eq!(l.delete_student(uid), Ok(()));
    assert!(l.get_student(uid).is_none());
    assert_eq!(l.get_student_scores(uid), Err(LedgerError::NotFound));
    assert_eq!(l.delete_student(uid), Err(LedgerError::NotFound));
    assert!(matches!(l.delete_student(0), Err(LedgerError::Validation(_))));
    assert!(!l.students.delete(uid));
}

#[test]
fn updater_leaves_unset_fields() {
    let (mut l, uid) = with_alice();
    l.add_score(uid, 7.0f64.to_bits()).unwrap();
    let before = l.get_student(uid).unwrap();
    l.students.update(uid, StudentUpdater::new().name("Alicia")).unwrap();
    let after = l.get_student(uid).unwrap();
    assert_eq!(after.name, "Alicia");
    assert_eq!(after.age, before.age);
    assert_eq!(after.class, before.class);
    assert_eq!(after.subject, before.subject);
    assert_eq!(after.phone, before.phone);
    assert_eq!(after.note, before.note);
    assert_eq!(after.rings, before.rings);
    assert_eq!(after.lesson_left, before.lesson_left);
    assert_eq!(after.membership_start_date, before.membership_start_date);
    assert_eq!(after.membership_end_date, before.membership_end_date);
}

#[test]
fn update_of_missing_student_is_not_found() {
    let (mut l, _) = with_alice();
    assert_eq!(l.add_score(999, 1), Err(LedgerError::NotFound));
    assert!(matches!(l.add_score(0, 1), Err(LedgerError::Validation(_))));
}

#[test]
fn score_edits_by_index() {
    let (mut l, uid) = with_alice();
    l.add_score(uid, 1).unwrap();
    l.add_score(uid, 2).unwrap();
    l.add_score(uid, 3).unwrap();
    l.update_student_score(uid, 1, 20).unwrap();
    assert_eq!(l.get_student_scores(uid).unwrap(), vec![1, 20, 3]);
    l.delete_student_score(uid, 0).unwrap();
    assert_eq!(l.get_student_scores(uid).unwrap(), vec![20, 3]);
    assert!(matches!(l.delete_student_score(uid, 2), Err(LedgerError::Validation(_))));
    assert!(matches!(l.update_student_score(uid, 5, 1), Err(LedgerError::Validation(_))));
    assert_eq!(l.get_student_scores(uid).unwrap(), vec![20, 3]);
}

#[test]
fn membership_must_start_before_it_ends() {
    let (mut l, uid) = with_alice();
    l.set_membership(uid, Some(T0), Some(T0 + 30 * DAY_MS)).unwrap();
    let before = l.get_student(uid).unwrap();
    assert_eq!(l.set_membership(uid, Some(T0 + DAY_MS), Some(T0 + DAY_MS)), Err(LedgerError::DomainConflict));
    assert_eq!(l.set_membership(uid, Some(T0 + 5 * DAY_MS), Some(T0)), Err(LedgerError::DomainConflict));
    let after = l.get_student(uid).unwrap();
    assert_eq!(after.membership_start_date, before.membership_start_date);
    assert_eq!(after.membership_end_date, before.membership_end_date);
    assert!(matches!(l.set_membership(uid, Some(T0), None), Err(LedgerError::Validation(_))));
}

#[test]
fn membership_from_rfc3339_text() {
    let (mut l, uid) = with_alice();
    l.set_student_membership(
        uid,
        Some("2024-01-01T00:00:00Z".to_string()),
        Some("2024-01-31T08:00:00+08:00".to_string()),
    )
    .unwrap();
    let s = l.get_student(uid).unwrap();
    assert_eq!(s.membership_start_date, Some(T0));
    assert_eq!(s.membership_end_date, Some(T0 + 30 * DAY_MS));
    assert!(s.is_membership_active(T0 + DAY_MS));
    assert_eq!(s.membership_days_remaining(T0 + DAY_MS), Some(29));
    assert_eq!(s.membership_days_remaining(T0 + 40 * DAY_MS), Some(0));
    let r = convert_student_to_response(&s, T0);
    assert_eq!(r.membership_start_date.as_deref(), Some("2024-01-01T00:00:00+00:00"));
    assert!(matches!(
        l.set_student_membership(uid, Some("yesterday".to_string()), None),
        Err(LedgerError::Validation(_))
    ));
    l.clear_student_membership(uid).unwrap();
    let s = l.get_student(uid).unwrap();
    assert_eq!(s.membership_start_date, None);
    assert_eq!(s.membership_end_date, None);
}

#[test]
fn update_info_merges_one_bound() {
    let (mut l, uid) = with_alice();
    l.set_membership(uid, Some(T0), Some(T0 + 30 * DAY_MS)).unwrap();
    l.update_student_info(
        uid,
        Some(" Alicia ".to_string()),
        Some(11),
        Some("Year".to_string()),
        None,
        None,
        None,
        Some(12),
        None,
        Some("2024-03-01T00:00:00Z".to_string()),
    )
    .unwrap();
    let s = l.get_student(uid).unwrap();
    assert_eq!(s.name, " Alicia ");
    assert_eq!(s.age, 11);
    assert_eq!(s.class, Class::Year);
    assert_eq!(s.subject, Subject::Shooting);
    assert_eq!(s.lesson_left, Some(12));
    assert_eq!(s.membership_start_date, Some(T0));
    assert_eq!(s.membership_end_date, Some(T0 + 60 * DAY_MS));
    let refused = l.update_student_info(uid, None, None, None, None, None, None, Some(10_000), None, None);
    assert!(matches!(refused, Err(LedgerError::Validation(_))));
}

#[test]
fn membership_by_type() {
    let (mut l, uid) = with_alice();
    l.set_membership_by_type_at(uid, "month", None, T0).unwrap();
    let s = l.get_student(uid).unwrap();
    assert_eq!(s.membership_start_date, Some(T0));
    assert_eq!(s.membership_end_date, Some(T0 + 30 * DAY_MS));
    l.set_membership_by_type_at(uid, "year", Some(false), T0 + DAY_MS).unwrap();
    let s = l.get_student(uid).unwrap();
    assert_eq!(s.membership_start_date, Some(T0 + 30 * DAY_MS));
    assert_eq!(s.membership_end_date, Some(T0 + 395 * DAY_MS));
    assert!(matches!(l.set_membership_by_type_at(uid, "week", None, T0), Err(LedgerError::Validation(_))));
    assert_eq!(l.set_membership_by_type_at(77, "month", Some(false), T0), Err(LedgerError::NotFound));
    l.set_membership_by_type(uid, "month", None).unwrap();
    assert!(l.get_student(uid).unwrap().membership_start_date.unwrap() > T0);
}

#[test]
fn search_students_composes_conditions() {
    let mut l = Ledger::new();
    l.add_student("Alice", 10, "Month", "1", "", "Shooting").unwrap();
    l.add_student("Alan", 30, "Year", "2", "", "Archery").unwrap();
    l.add_student("Bea", 12, "Month", "3", "", "Archery").unwrap();
    let all = l.search_students(None, None, None, None, None, None).unwrap();
    assert_eq!(all.len(), 3);
    let al = l.search_students(Some("Al".to_string()), None, None, None, None, None).unwrap();
    assert_eq!(al.iter().map(|s| s.name.as_str()).collect::<Vec<_>>(), vec!["Alice", "Alan"]);
    let young = l.search_students(None, Some(10), Some(12), Some("Month".to_string()), None, None).unwrap();
    assert_eq!(young.len(), 2);
    let archers = l.search_students(None, None, None, None, Some("Archery".to_string()), None).unwrap();
    assert_eq!(archers.len(), 2);
    assert!(matches!(
        l.search_students(None, Some(20), Some(10), None, None, None),
        Err(LedgerError::Validation(_))
    ));
    assert!(matches!(
        l.search_students(None, None, None, Some("Weekly".to_string()), None, None),
        Err(LedgerError::Validation(_))
    ));
}

#[test]
fn batch_update_counts_present_students() {
    let mut l = Ledger::new();
    let a = l.add_student("A", 10, "Month", "1", "", "Shooting").unwrap().uid;
    let b = l.add_student("B", 11, "Month", "2", "", "Shooting").unwrap().uid;
    let batch = StudentUpdateBatch {
        name: None,
        age: Some(20),
        class_type: Some("Year".to_string()),
        subject: None,
        note: None,
    };
    assert_eq!(l.update_multiple_students(&vec![a, 999, b], &batch), Ok(2));
    assert_eq!(l.get_student(a).unwrap().age, 20);
    assert_eq!(l.get_student(b).unwrap().class, Class::Year);
    let bad = StudentUpdateBatch { name: None, age: Some(1), class_type: None, subject: None, note: None };
    assert_eq!(l.update_multiple_students(&vec![a, b], &bad), Ok(0));
    assert_eq!(l.get_student(a).unwrap().age, 20);
    let unknown = StudentUpdateBatch {
        name: None,
        age: None,
        class_type: Some("Weekly".to_string()),
        subject: None,
        note: None,
    };
    assert!(matches!(l.update_multiple_students(&vec![a], &unknown), Err(LedgerError::Validation(_))));
}

#[test]
fn expiring_memberships() {
    let mut l = Ledger::new();
    let a = l.add_student("A", 10, "Month", "1", "", "Shooting").unwrap().uid;
    let b = l.add_student("B", 11, "Month", "2", "", "Shooting").unwrap().uid;
    let c = l.add_student("C", 12, "Month", "3", "", "Shooting").unwrap().uid;
    l.set_membership(a, Some(T0), Some(T0 + 5 * DAY_MS)).unwrap();
    l.set_membership(b, Some(T0), Some(T0 + 50 * DAY_MS)).unwrap();
    l.set_membership(c, Some(T0 - 10 * DAY_MS), Some(T0 - DAY_MS)).unwrap();
    let soon = l.get_membership_expiring_soon_at(7, T0).unwrap();
    assert_eq!(soon.iter().map(|s| s.uid).collect::<Vec<_>>(), vec![a]);
    assert!(matches!(l.get_membership_expiring_soon_at(0, T0), Err(LedgerError::Validation(_))));
}

#[test]
fn student_stats_and_status() {
    let (mut l, uid) = with_alice();
    l.add_score(uid, 1).unwrap();
    l.add_cash_transaction_at(Some(uid), 500, None, None, None, None, None, None, None, None, T0).unwrap();
    l.add_cash_transaction_at(Some(uid), -200, None, None, None, None, None, None, None, None, T0).unwrap();
    l.add_cash_transaction_at(None, 900, None, None, None, None, None, None, None, None, T0).unwrap();
    let st = l.get_student_stats_at(uid, T0).unwrap();
    assert_eq!(st.total_payments, 300);
    assert_eq!(st.payment_count, 2);
    assert_eq!(st.score_count, 1);
    assert_eq!(st.membership_status, MembershipStatus::NoMembership);
    l.set_membership(uid, Some(T0 + DAY_MS), Some(T0 + 2 * DAY_MS)).unwrap();
    assert_eq!(l.get_student_stats_at(uid, T0).unwrap().membership_status, MembershipStatus::Upcoming);
    assert_eq!(l.get_student_stats_at(uid, T0 + DAY_MS).unwrap().membership_status, MembershipStatus::Active);
    assert_eq!(l.get_student_stats_at(uid, T0 + 3 * DAY_MS).unwrap().membership_status, MembershipStatus::Expired);
    assert_eq!(l.get_student_stats_at(99, T0), Err(LedgerError::NotFound));
}

#[test]
fn dashboard_revenue_less_expense_is_signed_sum() {
    let mut l = Ledger::new();
    let uid = l.add_student("A", 10, "Month", "1", "", "Shooting").unwrap().uid;
    let amounts = [1000i64, -250, 40, -90, 0];
    for a in amounts {
        l.add_cash_transaction_at(None, a, None, None, None, None, None, None, None, None, T0).unwrap();
    }
    let d = l.get_dashboard_stats_at(T0);
    assert_eq!(d.total_students, 1);
    assert_eq!(d.total_revenue, 1040);
    assert_eq!(d.total_expense, 340);
    assert_eq!(d.total_revenue - d.total_expense, amounts.iter().map(|a| *a as i128).sum::<i128>());
    assert_eq!(d.active_courses, 0);
    l.update_student_info(uid, None, None, None, None, None, None, Some(3), None, None).unwrap();
    assert_eq!(l.get_dashboard_stats_at(T0).active_courses, 1);
    assert_eq!(l.get_dashboard_stats().total_revenue, 1040);
}

#[test]
fn all_scores_in_store_order() {
    let mut l = Ledger::new();
    let a = l.add_student("A", 10, "Month", "1", "", "Shooting").unwrap().uid;
    let b = l.add_student("B", 11, "Month", "2", "", "Shooting").unwrap().uid;
    l.add_score(b, 5).unwrap();
    l.add_score(a, 1).unwrap();
    l.add_score(a, 2).unwrap();
    assert_eq!(l.all_scores(), vec![1, 2, 5]);
}

#[test]
fn financial_stats_by_period() {
    let mut l = Ledger::new();
    // 2024-03-15 (a Friday) at noon.
    let now = 1_710_504_000_000i64;
    let day = now - now.rem_euclid(DAY_MS);
    l.add_cash_transaction_at(None, 100, None, None, None, None, None, None, None, None, now - DAY_MS / 4).unwrap();
    l.add_cash_transaction_at(None, -30, None, None, None, None, None, None, None, None, day - DAY_MS).unwrap();
    l.add_cash_transaction_at(None, 70, None, None, None, None, None, None, None, None, day - 10 * DAY_MS).unwrap();
    l.add_cash_transaction_at(None, 5, None, None, None, None, None, None, None, None, day - 60 * DAY_MS).unwrap();
    let today = l.get_financial_stats_at(TimePeriod::Today, now).unwrap();
    assert_eq!((today.total_income, today.total_expense, today.transaction_count), (100, 0, 1));
    let week = l.get_financial_stats_at(TimePeriod::ThisWeek, now).unwrap();
    assert_eq!((week.total_income, week.total_expense, week.net_income), (100, 30, 70));
    let month = l.get_financial_stats_at(TimePeriod::ThisMonth, now).unwrap();
    assert_eq!(month.transaction_count, 3);
    let year = l.get_financial_stats_at(TimePeriod::ThisYear, now).unwrap();
    assert_eq!(year.transaction_count, 4);
    assert_eq!(year.total_income, 175);
    assert!(matches!(l.get_financial_stats("Decade"), Err(LedgerError::Validation(_))));
    assert!(l.get_financial_stats("ThisYear").is_ok());
}

#[test]
fn restore_keeps_the_id_counter() {
    let mut l = Ledger::new();
    let a = l.add_student("A", 10, "Month", "1", "", "Shooting").unwrap();
    let b = l.add_student("B", 11, "Month", "2", "", "Shooting").unwrap();
    l.add_cash_transaction_at(Some(a.uid), 10, None, None, None, None, None, None, None, None, T0).unwrap();
    l.delete_student(b.uid).unwrap();
    let students = l.list_students();
    let cash = l.get_all_transactions();
    let next_student = l.students.next_uid();
    let next_cash = l.cash.next_uid();
    assert_eq!(next_student, 3);
    let mut back = Ledger::restore(students, next_student, cash, next_cash).unwrap();
    assert_eq!(back.list_students().len(), 1);
    assert_eq!(back.get_all_transactions().len(), 1);
    let c = back.add_student("C", 12, "Month", "3", "", "Shooting").unwrap();
    assert_eq!(c.uid, 3);
}

#[test]
fn restore_refuses_inconsistent_parts() {
    let mut l = Ledger::new();
    l.add_student("A", 10, "Month", "1", "", "Shooting").unwrap();
    l.add_student("B", 11, "Month", "2", "", "Shooting").unwrap();
    let mut students = l.list_students();
    assert!(matches!(
        Ledger::restore(students.clone(), 2, Vec::new(), 1),
        Err(LedgerError::Validation(_))
    ));
    students.reverse();
    assert!(matches!(Ledger::restore(students, 3, Vec::new(), 1), Err(LedgerError::Validation(_))));
    assert!(matches!(Ledger::restore(Vec::new(), 0, Vec::new(), 1), Err(LedgerError::Validation(_))));
}

#[test]
fn exhausted_ids_are_a_state_error() {
    let mut l = Ledger::restore(Vec::new(), u64::MAX, Vec::new(), u64::MAX).unwrap();
    assert_eq!(l.add_student("A", 10, "Month", "1", "", "Shooting").unwrap_err(), LedgerError::State);
    assert_eq!(
        l.add_cash_transaction_at(None, 1, None, None, None, None, None, None, None, None, T0).unwrap_err(),
        LedgerError::State
    );
    assert!(l.list_students().is_empty());
}

#[test]
fn exhausted_plan_ids_are_a_state_error() {
    let mut l = Ledger::new();
    let c = l
        .add_cash_transaction_at(
            None,
            1,
            None,
            Some(true),
            Some(3),
            Some(3),
            None,
            Some("2024-01-01T00:00:00Z".to_string()),
            None,
            Some(u64::MAX),
            T0,
        )
        .unwrap();
    assert_eq!(c.installment.unwrap().plan_id, u64::MAX);
    let r = l.add_cash_transaction_at(
        None,
        1,
        None,
        Some(true),
        Some(3),
        Some(3),
        None,
        Some("2024-01-01T00:00:00Z".to_string()),
        None,
        None,
        T0,
    );
    assert_eq!(r.unwrap_err(), LedgerError::State);
}

#[test]
fn deleting_a_student_keeps_their_cash() {
    let (mut l, uid) = with_alice();
    l.add_cash_transaction_at(Some(uid), 10, None, None, None, None, None, None, None, None, T0).unwrap();
    l.delete_student(uid).unwrap();
    assert_eq!(l.get_student_cash(uid).len(), 1);
}
