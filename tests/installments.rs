use qmx_ledger::error::LedgerError;
use qmx_ledger::manager::Ledger;
use qmx_ledger::model::{InstallmentStatus, PaymentFrequency, DAY_MS};
use qmx_ledger::response::{convert_cash_to_response, convert_financial_stats};
use qmx_ledger::reports::FinancialStats;

const T0: i64 = 1_704_067_200_000; // 2024-01-01T00:00:00Z

fn plan(l: &mut Ledger, student: Option<u64>, plan_id: Option<u64>) -> u64 {
    let c = l
        .add_cash_transaction_at(
            student,
            100,
            Some("first".to_string()),
            Some(true),
            Some(1200),
            Some(12),
            Some("Monthly".to_string()),
            Some("2024-01-01T00:00:00Z".to_string()),
            Some(1),
            plan_id,
            T0,
        )
        .unwrap();
    c.installment.unwrap().plan_id
}

#[test]
fn twelve_installments_then_complete() {
    let mut l = Ledger::new();
    let pid = plan(&mut l, Some(4), None);
    assert_eq!(pid, 1);
    let first = l.generate_next_installment_at(pid, "2024-01-31T00:00:00Z", T0).unwrap();
    let c = l.get_cash(first).unwrap();
    assert_eq!(c.cash, 100);
    assert_eq!(c.student_id, Some(4));
    assert_eq!(c.note.as_deref(), Some("分期付款第2期"));
    let inst = c.installment.unwrap();
    assert_eq!(inst.current_installment, 2);
    assert_eq!(inst.total_installments, 12);
    assert_eq!(inst.total_amount, 1200);
    assert_eq!(inst.frequency, PaymentFrequency::Monthly);
    assert_eq!(inst.status, InstallmentStatus::Pending);
    assert_eq!(inst.due_date, T0 + 30 * DAY_MS);
    for _ in 0..10 {
        l.generate_next_installment_at(pid, "2024-02-29T00:00:00Z", T0).unwrap();
    }
    assert_eq!(l.get_installments_by_plan(pid).unwrap().len(), 12);
    assert_eq!(
        l.generate_next_installment_at(pid, "2024-03-31T00:00:00Z", T0),
        Err(LedgerError::DomainConflict)
    );
    assert_eq!(l.generate_next_installment(pid, "2024-03-31T00:00:00Z"), Err(LedgerError::DomainConflict));
    assert_eq!(l.get_all_transactions().len(), 12);
}

#[test]
fn next_installment_refusals() {
    let mut l = Ledger::new();
    let pid = plan(&mut l, None, Some(77));
    assert_eq!(pid, 77);
    assert_eq!(l.generate_next_installment_at(5, "2024-01-31T00:00:00Z", T0), Err(LedgerError::NotFound));
    assert!(matches!(
        l.generate_next_installment_at(0, "2024-01-31T00:00:00Z", T0),
        Err(LedgerError::Validation(_))
    ));
    assert!(matches!(l.generate_next_installment_at(pid, "next month", T0), Err(LedgerError::Validation(_))));
    let id = l.generate_next_installment_at(pid, "2024-01-31T00:00:00Z", T0).unwrap();
    assert_eq!(l.get_cash(id).unwrap().student_id, None);
}

#[test]
fn share_drops_the_remainder() {
    let mut l = Ledger::new();
    let c = l
        .add_cash_transaction_at(
            None,
            333,
            None,
            Some(true),
            Some(1000),
            Some(3),
            Some("Custom10".to_string()),
            Some("2024-01-01T00:00:00Z".to_string()),
            None,
            None,
            T0,
        )
        .unwrap();
    let inst = c.installment.unwrap();
    assert_eq!(inst.frequency, PaymentFrequency::Custom(10));
    let doubled = l
        .add_cash_transaction_at(None, 1, None, Some(true), Some(9), Some(3), Some("CustomCustom5".to_string()),
            Some("2024-01-01T00:00:00Z".to_string()), None, None, T0)
        .unwrap();
    assert_eq!(doubled.installment.unwrap().frequency, PaymentFrequency::Custom(5));
    assert_eq!(inst.current_installment, 1);
    let id = l.generate_next_installment_at(inst.plan_id, "2024-01-11T00:00:00Z", T0).unwrap();
    assert_eq!(l.get_cash(id).unwrap().cash, 333);
}

#[test]
fn cancel_plan_twice() {
    let mut l = Ledger::new();
    let pid = plan(&mut l, None, None);
    let other = plan(&mut l, None, None);
    assert_ne!(pid, other);
    l.generate_next_installment_at(pid, "2024-01-31T00:00:00Z", T0).unwrap();
    assert_eq!(l.cancel_installment_plan(pid), Ok(2));
    let cancelled = l.get_installments_by_plan(pid).unwrap();
    assert!(cancelled.iter().all(|c| c.installment.unwrap().status == InstallmentStatus::Cancelled));
    assert_eq!(l.cancel_installment_plan(pid), Err(LedgerError::NotFound));
    assert_eq!(l.cash.cancel_plan(pid), 0);
    let again = l.get_installments_by_plan(pid).unwrap();
    assert_eq!(again.len(), cancelled.len());
    let untouched = l.get_installments_by_plan(other).unwrap();
    assert_eq!(untouched[0].installment.unwrap().status, InstallmentStatus::Pending);
    assert!(matches!(l.cancel_installment_plan(0), Err(LedgerError::Validation(_))));
}

#[test]
fn status_updates() {
    let mut l = Ledger::new();
    plan(&mut l, None, None);
    let plain = l.add_cash_transaction_at(None, 5, None, None, None, None, None, None, None, None, T0).unwrap();
    let first = l.get_all_transactions()[0].uid;
    l.update_installment_status(first, "Paid").unwrap();
    assert_eq!(l.get_cash(first).unwrap().installment.unwrap().status, InstallmentStatus::Paid);
    l.update_installment_status(first, "Pending").unwrap();
    assert_eq!(l.get_cash(first).unwrap().installment.unwrap().status, InstallmentStatus::Pending);
    assert_eq!(l.update_installment_status(plain.uid, "Paid"), Err(LedgerError::DomainConflict));
    assert_eq!(l.update_installment_status(999, "Paid"), Err(LedgerError::NotFound));
    assert!(matches!(l.update_installment_status(first, "Done"), Err(LedgerError::Validation(_))));
    assert!(matches!(l.update_installment_status(0, "Paid"), Err(LedgerError::Validation(_))));
}

#[test]
fn cash_record_checks() {
    let mut l = Ledger::new();
    let c = l.add_cash_transaction(Some(3), -450, Some("rent".to_string()), None, None, None, None, None, None, None).unwrap();
    assert!(c.created_at > T0);
    assert_eq!(c.cash, -450);
    assert!(c.installment.is_none());
    let bad = |r: Result<qmx_ledger::model::Cash, LedgerError>| matches!(r, Err(LedgerError::Validation(_)));
    assert!(bad(l.add_cash_transaction_at(None, 100_000_001, None, None, None, None, None, None, None, None, T0)));
    assert!(bad(l.add_cash_transaction_at(Some(0), 1, None, None, None, None, None, None, None, None, T0)));
    assert!(bad(l.add_cash_transaction_at(None, 1, None, Some(true), None, Some(3), None, Some("2024-01-01T00:00:00Z".to_string()), None, None, T0)));
    assert!(bad(l.add_cash_transaction_at(None, 1, None, Some(true), Some(3), Some(3), None, None, None, None, T0)));
    assert!(bad(l.add_cash_transaction_at(None, 1, None, Some(true), Some(3), Some(3), Some("Daily".to_string()), Some("2024-01-01T00:00:00Z".to_string()), None, None, T0)));
    assert!(bad(l.add_cash_transaction_at(None, 1, None, Some(true), Some(3), Some(3), None, Some("2024-13-01".to_string()), None, None, T0)));
    assert!(bad(l.add_cash_transaction_at(None, 1, None, Some(true), Some(3), Some(3), None, Some("2024-01-01T00:00:00Z".to_string()), Some(4), None, T0)));
    assert!(bad(l.add_cash_transaction_at(None, 1, None, Some(true), Some(3), Some(361), None, Some("2024-01-01T00:00:00Z".to_string()), None, None, T0)));
    assert_eq!(l.get_all_transactions().len(), 1);
    assert_eq!(l.delete_cash_transaction(c.uid), Ok(()));
    assert!(l.get_cash(c.uid).is_none());
    assert_eq!(l.delete_cash_transaction(c.uid), Err(LedgerError::NotFound));
    assert!(matches!(l.delete_cash_transaction(0), Err(LedgerError::Validation(_))));
}

#[test]
fn search_and_student_cash() {
    let mut l = Ledger::new();
    l.add_cash_transaction_at(Some(1), 100, None, None, None, None, None, None, None, None, T0).unwrap();
    l.add_cash_transaction_at(Some(2), -40, None, None, None, None, None, None, None, None, T0 + DAY_MS).unwrap();
    plan(&mut l, Some(1), None);
    assert_eq!(l.get_student_cash(1).len(), 2);
    assert_eq!(l.search_cash(None, Some(0), Some(500), None, None, None).unwrap().len(), 2);
    assert_eq!(l.search_cash(None, None, None, Some(true), None, None).unwrap().len(), 1);
    assert_eq!(l.search_cash(Some(2), None, None, None, None, None).unwrap()[0].cash, -40);
    let dated = l
        .search_cash(None, None, None, None, Some("2024-01-01T12:00:00Z".to_string()), Some("2024-01-03T00:00:00Z".to_string()))
        .unwrap();
    assert_eq!(dated.len(), 1);
    assert_eq!(dated[0].cash, -40);
    assert!(matches!(l.search_cash(None, Some(5), Some(1), None, None, None), Err(LedgerError::Validation(_))));
    assert!(matches!(
        l.search_cash(None, None, None, None, Some("2024-02-01T00:00:00Z".to_string()), Some("2024-01-01T00:00:00Z".to_string())),
        Err(LedgerError::Validation(_))
    ));
    assert!(matches!(l.search_cash(Some(0), None, None, None, None, None), Err(LedgerError::Validation(_))));
    assert!(matches!(
        l.search_cash(None, None, None, None, Some("soon".to_string()), Some("2024-01-03T00:00:00Z".to_string())),
        Err(LedgerError::Validation(_))
    ));
    assert_eq!(l.search_cash(None, Some(5), None, None, Some("soon".to_string()), None).unwrap().len(), 3);
}

#[test]
fn transaction_snapshots() {
    let mut l = Ledger::new();
    plan(&mut l, Some(9), None);
    let plain = l.add_cash_transaction_at(None, 5, None, None, None, None, None, None, None, None, T0).unwrap();
    let all = l.get_all_transactions();
    let r = convert_cash_to_response(&all[0]);
    assert_eq!(r.description, "分期付款 1/12");
    assert!(r.is_installment);
    assert_eq!(r.installment_plan_id, Some(1));
    assert_eq!(r.installment_due_date.as_deref(), Some("2024-01-01T00:00:00+00:00"));
    assert_eq!(r.installment_status.as_deref(), Some("Pending"));
    assert_eq!(r.note.as_deref(), Some("first"));
    let p = convert_cash_to_response(&plain);
    assert_eq!(p.description, "普通付款");
    assert!(!p.is_installment);
    assert_eq!(p.installment_status, None);
}

#[test]
fn financial_snapshot_clamps() {
    let f = FinancialStats {
        total_income: i64::MAX as i128 + 5,
        total_expense: 10,
        net_income: i64::MAX as i128 - 5,
        transaction_count: 3,
        installment_count: 1,
    };
    let r = convert_financial_stats(&f);
    assert_eq!(r.total_income, i64::MAX);
    assert_eq!(r.total_expense, 10);
    assert_eq!(r.net_income, i64::MAX - 5);
    assert_eq!(r.installment_total, 3);
    assert_eq!(r.installment_paid, 1);
    assert_eq!(r.installment_pending, 0);
}
