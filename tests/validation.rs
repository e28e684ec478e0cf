use qmx_ledger::text::{decimal, parse_u32, text_contains, trim};
use qmx_ledger::validation::{
    custom_days, validate_age, validate_age_range, validate_amount, validate_amount_range,
    validate_class_type, validate_date_range, validate_days, validate_frequency, validate_installment_count,
    validate_note, validate_phone_number, validate_plan_id, validate_student_name,
    validate_student_uid, validate_subject_type, validate_transaction_uid,
};

#[test]
fn student_name_is_trimmed_before_checks() {
    assert!(validate_student_name("  Alice  ").is_ok());
    assert!(validate_student_name("   ").is_err());
    assert!(validate_student_name("").is_err());
}

#[test]
fn student_name_length_counts_bytes() {
    assert!(validate_student_name(&"a".repeat(50)).is_ok());
    assert!(validate_student_name(&"a".repeat(51)).is_err());
    // 16 three-byte characters are 48 bytes, 17 are 51.
    assert!(validate_student_name(&"张".repeat(16)).is_ok());
    assert!(validate_student_name(&"张".repeat(17)).is_err());
}

#[test]
fn student_name_rejects_markup_and_control() {
    assert!(validate_student_name("a<b").is_err());
    assert!(validate_student_name("a>b").is_err());
    assert!(validate_student_name("a&b").is_err());
    assert!(validate_student_name("a\u{7}b").is_err());
    assert!(validate_student_name("Zhang San").is_ok());
}

#[test]
fn phone_number_checks() {
    assert!(validate_phone_number(" 13800138000 ").is_ok());
    assert!(validate_phone_number("  ").is_err());
    assert!(validate_phone_number(&"1".repeat(20)).is_ok());
    assert!(validate_phone_number(&"1".repeat(21)).is_err());
}

#[test]
fn note_checks() {
    assert!(validate_note("").is_ok());
    assert!(validate_note("line one\nline two\r\n\tindented").is_ok());
    assert!(validate_note("bell\u{7}").is_err());
    assert!(validate_note(&"x".repeat(1000)).is_ok());
    assert!(validate_note(&"x".repeat(1001)).is_err());
}

#[test]
fn age_bounds() {
    assert!(validate_age(2).is_err());
    assert!(validate_age(3).is_ok());
    assert!(validate_age(120).is_ok());
    assert!(validate_age(121).is_err());
}

#[test]
fn amount_bounds() {
    assert!(validate_amount(100_000_000).is_ok());
    assert!(validate_amount(-100_000_000).is_ok());
    assert!(validate_amount(100_000_001).is_err());
    assert!(validate_amount(-100_000_001).is_err());
    assert!(validate_amount(i64::MIN).is_err());
}

#[test]
fn class_and_subject_names() {
    for c in ["TenTry", "Month", "Year", "Others"] {
        assert!(validate_class_type(c).is_ok());
    }
    assert!(validate_class_type("month").is_err());
    let e = validate_class_type("Weekly").unwrap_err();
    assert!(e.ends_with("Weekly"));
    for s in ["Shooting", "Archery", "Others"] {
        assert!(validate_subject_type(s).is_ok());
    }
    assert!(validate_subject_type("Fencing").is_err());
}

#[test]
fn ids_must_not_be_zero() {
    assert!(validate_student_uid(0).is_err());
    assert!(validate_student_uid(1).is_ok());
    assert!(validate_transaction_uid(0).is_err());
    assert!(validate_transaction_uid(7).is_ok());
    assert!(validate_plan_id(0).is_err());
    assert!(validate_plan_id(3).is_ok());
}

#[test]
fn installment_count_bounds() {
    assert!(validate_installment_count(0).is_err());
    assert!(validate_installment_count(1).is_ok());
    assert!(validate_installment_count(360).is_ok());
    assert!(validate_installment_count(361).is_err());
}

#[test]
fn frequency_names() {
    assert!(validate_frequency("Weekly").is_ok());
    assert!(validate_frequency("Monthly").is_ok());
    assert!(validate_frequency("Quarterly").is_ok());
    assert!(validate_frequency("Custom1").is_ok());
    assert!(validate_frequency("Custom365").is_ok());
    assert!(validate_frequency("Custom+30").is_ok());
    assert!(validate_frequency("Custom0").is_err());
    assert!(validate_frequency("Custom366").is_err());
    assert!(validate_frequency("Custom").is_err());
    assert!(validate_frequency("Custom-5").is_err());
    assert!(validate_frequency("Custom99999999999").is_err());
    assert!(validate_frequency("Daily").is_err());
    assert!(validate_frequency("CustomCustom5").is_ok());
    assert!(validate_frequency("CustomCustom").is_err());
    assert_eq!(custom_days("Custom45"), Some(45));
    assert_eq!(custom_days("CustomCustomCustom7"), Some(7));
    assert_eq!(custom_days("Weekly"), None);
}

#[test]
fn ranges_and_days() {
    assert!(validate_amount_range(1, 1).is_ok());
    assert!(validate_amount_range(2, 1).is_err());
    assert!(validate_age_range(10, 20).is_ok());
    assert!(validate_age_range(21, 20).is_err());
    assert!(validate_date_range(5, 5).is_ok());
    assert!(validate_date_range(6, 5).is_err());
    assert!(validate_days(1).is_ok());
    assert!(validate_days(0).is_err());
    assert!(validate_days(-3).is_err());
}

#[test]
fn text_helpers() {
    assert_eq!(trim("\u{3000} a b \t"), "a b");
    assert!(text_contains("Alice", "lic"));
    assert!(!text_contains("Alice", "alice"));
    assert!(text_contains("Alice", ""));
    assert_eq!(parse_u32(&['4', '2']), Some(42));
    assert_eq!(parse_u32(&['+', '7']), Some(7));
    assert_eq!(parse_u32(&['+']), None);
    assert_eq!(parse_u32(&"4294967295".chars().collect::<Vec<char>>()), Some(u32::MAX));
    assert_eq!(parse_u32(&"4294967296".chars().collect::<Vec<char>>()), None);
    assert_eq!(decimal(0), "0");
    assert_eq!(decimal(1200), "1200");
    assert_eq!(decimal(u64::MAX), u64::MAX.to_string());
}
