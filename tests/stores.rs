use qmx_ledger::cash::{CashBuilder, CashQuery, CashStore, CashUpdater};
use qmx_ledger::error::LedgerError;
use qmx_ledger::model::{Class, Installment, InstallmentStatus, PaymentFrequency, Subject};
use qmx_ledger::student::{StudentBuilder, StudentQuery, StudentStore, StudentUpdater};

fn installment(plan_id: u64, current: u32, total: u32) -> Installment {
    Installment {
        plan_id,
        total_amount: 900,
        total_installments: total,
        current_installment: current,
        frequency: PaymentFrequency::Weekly,
        due_date: 1_000,
        status: InstallmentStatus::Pending,
    }
}

#[test]
fn student_builder_defaults_and_store_ids() {
    let mut s = StudentStore::new();
    let a = s.insert(StudentBuilder::new("Ann", 9)).unwrap();
    let b = s
        .insert(StudentBuilder::new("Ben", 40).class(Class::Year).subject(Subject::Archery).phone("9").note("n"))
        .unwrap();
    assert_eq!((a, b), (1, 2));
    let ann = s.get(a).unwrap();
    assert_eq!(ann.class, Class::Others);
    assert_eq!(ann.subject, Subject::Others);
    assert_eq!(ann.phone, "");
    assert!(ann.rings.is_empty());
    assert!(matches!(s.insert(StudentBuilder::new("Old", 121)), Err(LedgerError::Validation(_))));
    assert!(matches!(
        s.insert(StudentBuilder::new("Half", 10).membership(Some(5), None)),
        Err(LedgerError::Validation(_))
    ));
    assert!(matches!(
        s.insert(StudentBuilder::new("Backwards", 10).membership(Some(5), Some(5))),
        Err(LedgerError::Validation(_))
    ));
    assert_eq!(s.len(), 2);
    assert_eq!(s.next_uid(), 3);
}

#[test]
fn membership_edits_keep_the_other_bound() {
    let mut s = StudentStore::new();
    let id = s.insert(StudentBuilder::new("Ann", 9).membership(Some(10), Some(20))).unwrap();
    s.update(id, StudentUpdater::new().membership_end(30)).unwrap();
    let v = s.get(id).unwrap();
    assert_eq!((v.membership_start_date, v.membership_end_date), (Some(10), Some(30)));
    s.update(id, StudentUpdater::new().membership_start(25)).unwrap();
    let v = s.get(id).unwrap();
    assert_eq!((v.membership_start_date, v.membership_end_date), (Some(25), Some(30)));
    assert!(matches!(s.update(id, StudentUpdater::new().membership_start(30)), Err(LedgerError::Validation(_))));
    assert!(matches!(s.update(id, StudentUpdater::new().age(2).name("X")), Err(LedgerError::Validation(_))));
    let v = s.get(id).unwrap();
    assert_eq!(v.name, "Ann");
    assert_eq!(v.membership_start_date, Some(25));
    assert_eq!(s.update(99, StudentUpdater::new().age(10)), Err(LedgerError::NotFound));
}

#[test]
fn student_query_membership_presence() {
    let mut s = StudentStore::new();
    s.insert(StudentBuilder::new("Ann", 9).membership(Some(10), Some(20))).unwrap();
    s.insert(StudentBuilder::new("Ben", 9)).unwrap();
    let with = s.search(&StudentQuery::new().has_membership(true)).unwrap();
    assert_eq!(with.len(), 1);
    assert_eq!(with[0].name, "Ann");
    let without = s.search(&StudentQuery::new().has_membership(false)).unwrap();
    assert_eq!(without[0].name, "Ben");
    let both = s.search(&StudentQuery::new().age_range(9, 9).name_contains("n")).unwrap();
    assert_eq!(both.len(), 2);
    assert!(s.search(&StudentQuery::new().age_range(10, 9)).is_err());
}

#[test]
fn cash_store_insert_update_delete() {
    let mut c = CashStore::new();
    let a = c.insert(CashBuilder::new(50).student_id(3).note("x".to_string()), 7).unwrap();
    let b = c.insert(CashBuilder::new(-20).installment(installment(4, 1, 3)), 8).unwrap();
    assert!(matches!(c.insert(CashBuilder::new(1).installment(installment(0, 1, 3)), 9), Err(LedgerError::Validation(_))));
    assert!(matches!(c.insert(CashBuilder::new(1).installment(installment(4, 4, 3)), 9), Err(LedgerError::Validation(_))));
    assert_eq!(c.get(a).unwrap().created_at, 7);
    c.update(a, CashUpdater::new().cash(75)).unwrap();
    let rec = c.get(a).unwrap();
    assert_eq!(rec.cash, 75);
    assert_eq!(rec.student_id, Some(3));
    assert_eq!(rec.note.as_deref(), Some("x"));
    assert!(matches!(c.update(b, CashUpdater::new().installment(Some(installment(4, 0, 3)))), Err(LedgerError::Validation(_))));
    assert_eq!(c.update(99, CashUpdater::new().cash(1)), Err(LedgerError::NotFound));
    assert_eq!(c.fresh_plan_id(), Some(5));
    assert!(c.delete(a));
    assert!(!c.delete(a));
    assert!(c.get(a).is_none());
    assert_eq!(c.list().len(), 1);
}

#[test]
fn cash_query_conditions() {
    let mut c = CashStore::new();
    c.insert(CashBuilder::new(50).student_id(1), 100).unwrap();
    c.insert(CashBuilder::new(-20).student_id(2), 200).unwrap();
    c.insert(CashBuilder::new(70).installment(installment(4, 1, 3)), 300).unwrap();
    assert_eq!(c.search(&CashQuery::new()).unwrap().len(), 3);
    assert_eq!(c.search(&CashQuery::new().amount_range(0, 60)).unwrap().len(), 1);
    // an installment counts under its due date (1000), not when it was recorded
    assert_eq!(c.search(&CashQuery::new().date_range(150, 400)).unwrap().len(), 1);
    assert_eq!(c.search(&CashQuery::new().date_range(900, 1000)).unwrap()[0].cash, 70);
    assert_eq!(c.search(&CashQuery::new().has_installment(false).student_id(1)).unwrap().len(), 1);
    assert!(c.search(&CashQuery::new().amount_range(1, 0)).is_err());
    assert!(c.search(&CashQuery::new().date_range(1, 0)).is_err());
    assert_eq!(c.installments_of_plan(4).len(), 1);
    assert_eq!(c.installments_of_plan(5).len(), 0);
}

#[test]
fn generate_picks_latest_installment() {
    let mut c = CashStore::new();
    c.insert(CashBuilder::new(300).student_id(8).installment(installment(4, 1, 3)), 1).unwrap();
    c.insert(CashBuilder::new(300).student_id(9).installment(installment(4, 2, 3)), 2).unwrap();
    let id = c.generate_next_installment(4, 5_000, 3).unwrap();
    let rec = c.get(id).unwrap();
    assert_eq!(rec.student_id, Some(8));
    assert_eq!(rec.cash, 300);
    assert_eq!(rec.installment.unwrap().current_installment, 3);
    assert_eq!(rec.installment.unwrap().due_date, 5_000);
    assert_eq!(rec.created_at, 3);
    assert_eq!(c.generate_next_installment(4, 6_000, 4), Err(LedgerError::DomainConflict));
    assert_eq!(c.generate_next_installment(5, 6_000, 4), Err(LedgerError::NotFound));
    assert_eq!(c.set_installment_status(id, InstallmentStatus::Overdue), Ok(()));
    assert_eq!(c.cancel_plan(4), 3);
    assert_eq!(c.cancel_plan(4), 0);
}
