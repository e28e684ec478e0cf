//! Stateless checks on input, run before anything reaches the stores.
use crate::text::{
    byte_len, byte_len_at_most, char_is_control, chars_of, is_control, parse_u32, parse_u32_text, same_text,
    starts_with_text, trim, trimmed,
};
use vstd::prelude::*;
use vstd::string::*;

verus! {

/// The largest amount of money, in either direction, that one record may carry.
pub const MAX_AMOUNT: i64 = 100_000_000;

/// A character that a student's name may not hold.
pub open spec fn is_forbidden_in_name(c: char) -> bool {
    is_control(c) || c == '<' || c == '>' || c == '&'
}

/// A character that a note may not hold: a control character other than
/// line feed, carriage return and tab.
pub open spec fn is_forbidden_in_note(c: char) -> bool {
    is_control(c) && c != '\n' && c != '\r' && c != '\t'
}

/// A name, once trimmed, is non-empty, at most 50 bytes long, and free of
/// control characters and of `<`, `>`, `&`.
pub open spec fn valid_student_name(s: Seq<char>) -> bool {
    let t = trimmed(s);
    &&& t.len() > 0
    &&& byte_len(t) <= 50
    &&& forall|i: int| 0 <= i < t.len() ==> !is_forbidden_in_name(#[trigger] t[i])
}

/// A phone number, once trimmed, is non-empty and at most 20 bytes long.
pub open spec fn valid_phone_number(s: Seq<char>) -> bool {
    let t = trimmed(s);
    t.len() > 0 && byte_len(t) <= 20
}

/// A note is at most 1000 bytes long and holds no control character but
/// line breaks and tabs.
pub open spec fn valid_note(s: Seq<char>) -> bool {
    &&& byte_len(s) <= 1000
    &&& forall|i: int| 0 <= i < s.len() ==> !is_forbidden_in_note(#[trigger] s[i])
}

pub open spec fn valid_age(age: u8) -> bool {
    3 <= age <= 120
}

pub open spec fn valid_amount(amount: i64) -> bool {
    -MAX_AMOUNT <= amount <= MAX_AMOUNT
}

/// The names of the class tiers.
pub open spec fn is_class_name(s: Seq<char>) -> bool {
    s == "TenTry"@ || s == "Month"@ || s == "Year"@ || s == "Others"@
}

/// The names of the subjects.
pub open spec fn is_subject_name(s: Seq<char>) -> bool {
    s == "Shooting"@ || s == "Archery"@ || s == "Others"@
}

pub open spec fn valid_installment_count(count: u32) -> bool {
    1 <= count <= 360
}

/// The word that begins a custom payment frequency.
pub open spec fn custom_word() -> Seq<char> {
    seq!['C', 'u', 's', 't', 'o', 'm']
}

/// `s` without all of its leading repetitions of `Custom`, as
/// `str::trim_start_matches("Custom")` gives it.
pub open spec fn strip_custom(s: Seq<char>) -> Seq<char>
    decreases s.len(),
{
    if starts_with_text(s, custom_word()) {
        strip_custom(s.subrange(6, s.len() as int))
    } else {
        s
    }
}

/// The day count that a custom payment frequency `Custom<n>` names, if it
/// names one: what follows the leading `Custom`s, read as `str::parse::<u32>`
/// reads it.
pub open spec fn custom_frequency_days(s: Seq<char>) -> Option<u32> {
    if starts_with_text(s, custom_word()) {
        parse_u32_text(strip_custom(s))
    } else {
        None
    }
}

/// `Weekly`, `Monthly`, `Quarterly`, or `Custom<n>` with `n` in 1..=365
/// (after any number of leading `Custom`s).
pub open spec fn valid_frequency(s: Seq<char>) -> bool {
    ||| s == "Weekly"@
    ||| s == "Monthly"@
    ||| s == "Quarterly"@
    ||| (custom_frequency_days(s) matches Some(n) && 1 <= n <= 365)
}

fn message(text: &str) -> (r: String)
    ensures
        r@ == text@,
{
    String::from_str(text)
}

/// Checks a student's name.
pub fn validate_student_name(name: &str) -> (r: Result<(), String>)
    ensures
        r is Ok <==> valid_student_name(name@),
{
    let t = trim(name);
    if t.unicode_len() == 0 {
        return Err(message("姓名不能为空"));
    }
    if !byte_len_at_most(t, 50) {
        return Err(message("姓名长度不能超过50个字符"));
    }
    let cs = chars_of(t);
    let mut i: usize = 0;
    while i < cs.len()
        invariant
            cs@ == t@,
            t@ == trimmed(name@),
            i <= cs.len(),
            forall|k: int| 0 <= k < i ==> !is_forbidden_in_name(#[trigger] cs@[k]),
        decreases cs.len() - i,
    {
        let c = cs[i];
        if char_is_control(c) || c == '<' || c == '>' || c == '&' {
            assert(is_forbidden_in_name(trimmed(name@)[i as int]));
            return Err(message("姓名包含非法字符"));
        }
        i = i + 1;
    }
    Ok(())
}

/// Checks a phone number.
pub fn validate_phone_number(phone: &str) -> (r: Result<(), String>)
    ensures
        r is Ok <==> valid_phone_number(phone@),
{
    let t = trim(phone);
    if t.unicode_len() == 0 {
        return Err(message("电话号码不能为空"));
    }
    if !byte_len_at_most(t, 20) {
        return Err(message("电话号码长度不能超过20个字符"));
    }
    Ok(())
}

/// Checks a free-text note.
pub fn validate_note(note: &str) -> (r: Result<(), String>)
    ensures
        r is Ok <==> valid_note(note@),
{
    if !byte_len_at_most(note, 1000) {
        return Err(message("备注长度不能超过1000个字符"));
    }
    let cs = chars_of(note);
    let mut i: usize = 0;
    while i < cs.len()
        invariant
            cs@ == note@,
            i <= cs.len(),
            forall|k: int| 0 <= k < i ==> !is_forbidden_in_note(#[trigger] cs@[k]),
        decreases cs.len() - i,
    {
        let c = cs[i];
        if char_is_control(c) && c != '\n' && c != '\r' && c != '\t' {
            assert(is_forbidden_in_note(note@[i as int]));
            return Err(message("备注包含非法字符"));
        }
        i = i + 1;
    }
    Ok(())
}

/// Checks that an age lies in 3..=120.
pub fn validate_age(age: u8) -> (r: Result<(), String>)
    ensures
        r is Ok <==> valid_age(age),
{
    if age < 3 || age > 120 {
        return Err(message("年龄必须在3-120岁之间"));
    }
    Ok(())
}

/// Checks that an amount is at most one million (in cents) either way.
pub fn validate_amount(amount: i64) -> (r: Result<(), String>)
    ensures
        r is Ok <==> valid_amount(amount),
{
    if amount < -MAX_AMOUNT || amount > MAX_AMOUNT {
        return Err(message("金额不能超过100万"));
    }
    Ok(())
}

/// Checks that a text names a class tier.
pub fn validate_class_type(class_type: &str) -> (r: Result<(), String>)
    ensures
        r is Ok <==> is_class_name(class_type@),
{
    if same_text(class_type, "TenTry") || same_text(class_type, "Month") || same_text(
        class_type,
        "Year",
    ) || same_text(class_type, "Others") {
        Ok(())
    } else {
        Err(message("无效的课程类型: ").concat(class_type))
    }
}

/// Checks that a text names a subject.
pub fn validate_subject_type(subject: &str) -> (r: Result<(), String>)
    ensures
        r is Ok <==> is_subject_name(subject@),
{
    if same_text(subject, "Shooting") || same_text(subject, "Archery") || same_text(
        subject,
        "Others",
    ) {
        Ok(())
    } else {
        Err(message("无效的科目类型: ").concat(subject))
    }
}

/// Checks that a student id is not zero.
pub fn validate_student_uid(uid: u64) -> (r: Result<(), String>)
    ensures
        r is Ok <==> uid != 0,
{
    if uid == 0 {
        return Err(message("学生UID无效"));
    }
    Ok(())
}

/// Checks that a transaction id is not zero.
pub fn validate_transaction_uid(uid: u64) -> (r: Result<(), String>)
    ensures
        r is Ok <==> uid != 0,
{
    if uid == 0 {
        return Err(message("交易UID无效"));
    }
    Ok(())
}

/// Checks that a payment plan id is not zero.
pub fn validate_plan_id(plan_id: u64) -> (r: Result<(), String>)
    ensures
        r is Ok <==> plan_id != 0,
{
    if plan_id == 0 {
        return Err(message("计划ID无效"));
    }
    Ok(())
}

/// Checks that a plan has between 1 and 360 installments.
pub fn validate_installment_count(count: u32) -> (r: Result<(), String>)
    ensures
        r is Ok <==> valid_installment_count(count),
{
    if count == 0 || count > 360 {
        return Err(message("分期数必须在1-360之间"));
    }
    Ok(())
}

/// Whether `Custom` stands in `cs` at position `k`.
fn custom_at(cs: &Vec<char>, k: usize) -> (r: bool)
    requires
        k <= cs@.len(),
    ensures
        r == starts_with_text(cs@.subrange(k as int, cs@.len() as int), custom_word()),
{
    let ghost rest = cs@.subrange(k as int, cs@.len() as int);
    if cs.len() - k < 6 {
        return false;
    }
    let ok = cs[k] == 'C' && cs[k + 1] == 'u' && cs[k + 2] == 's' && cs[k + 3] == 't' && cs[k + 4]
        == 'o' && cs[k + 5] == 'm';
    if ok {
        assert(rest.subrange(0, 6) =~= custom_word());
    } else {
        assert(rest.subrange(0, 6) != custom_word()) by {
            assert(custom_word()[0] == 'C' && custom_word()[1] == 'u' && custom_word()[2] == 's'
                && custom_word()[3] == 't' && custom_word()[4] == 'o' && custom_word()[5] == 'm');
            assert(rest.subrange(0, 6)[0] == cs@[k as int]);
            assert(rest.subrange(0, 6)[1] == cs@[k + 1]);
            assert(rest.subrange(0, 6)[2] == cs@[k + 2]);
            assert(rest.subrange(0, 6)[3] == cs@[k + 3]);
            assert(rest.subrange(0, 6)[4] == cs@[k + 4]);
            assert(rest.subrange(0, 6)[5] == cs@[k + 5]);
        }
    }
    ok
}

/// Whether a frequency text begins with `Custom`.
pub fn has_custom_prefix(frequency: &str) -> (r: bool)
    ensures
        r == starts_with_text(frequency@, custom_word()),
{
    let cs = chars_of(frequency);
    assert(cs@.subrange(0, cs@.len() as int) =~= cs@);
    custom_at(&cs, 0)
}

/// Reads the day count of a `Custom<n>` frequency, after all leading `Custom`s.
pub fn custom_days(frequency: &str) -> (r: Option<u32>)
    ensures
        r == custom_frequency_days(frequency@),
{
    let cs = chars_of(frequency);
    let n = cs.len();
    assert(cs@.subrange(0, n as int) =~= cs@);
    if !custom_at(&cs, 0) {
        return None;
    }
    let mut k: usize = 0;
    while custom_at(&cs, k)
        invariant
            cs@ == frequency@,
            n == cs@.len(),
            k <= n,
            strip_custom(cs@) == strip_custom(cs@.subrange(k as int, n as int)),
        decreases n - k,
    {
        assert(cs@.subrange(k as int, n as int).subrange(6, n - k) =~= cs@.subrange(k + 6, n as int));
        k = k + 6;
    }
    let digits = vstd::slice::slice_subrange(cs.as_slice(), k, n);
    parse_u32(digits)
}

/// Checks a payment frequency: `Weekly`, `Monthly`, `Quarterly`, or
/// `Custom<n>` with `n` days in 1..=365.
pub fn validate_frequency(frequency: &str) -> (r: Result<(), String>)
    ensures
        r is Ok <==> valid_frequency(frequency@),
{
    if same_text(frequency, "Weekly") || same_text(frequency, "Monthly") || same_text(
        frequency,
        "Quarterly",
    ) {
        return Ok(());
    }
    proof {
        reveal_strlit("Weekly");
        reveal_strlit("Monthly");
        reveal_strlit("Quarterly");
    }
    if !has_custom_prefix(frequency) {
        return Err(message("无效的付款频率: ").concat(frequency));
    }
    match custom_days(frequency) {
        Some(days) => {
            if days > 0 && days <= 365 {
                Ok(())
            } else {
                Err(message("自定义频率格式错误，应为Custom<1-365天数>"))
            }
        },
        None => Err(message("自定义频率格式错误，应为Custom<1-365天数>")),
    }
}

/// Checks that an amount range is not inverted.
pub fn validate_amount_range(min: i64, max: i64) -> (r: Result<(), String>)
    ensures
        r is Ok <==> min <= max,
{
    if min > max {
        return Err(message("最小金额不能大于最大金额"));
    }
    Ok(())
}

/// Checks that a date range, instants in milliseconds, is not inverted.
pub fn validate_date_range(start: i64, end: i64) -> (r: Result<(), String>)
    ensures
        r is Ok <==> start <= end,
{
    if start > end {
        return Err(message("开始日期不能晚于结束日期"));
    }
    Ok(())
}

/// Checks that an age range is not inverted.
pub fn validate_age_range(min: u8, max: u8) -> (r: Result<(), String>)
    ensures
        r is Ok <==> min <= max,
{
    if min > max {
        return Err(message("最小年龄不能大于最大年龄"));
    }
    Ok(())
}

/// Checks that a number of days is positive.
pub fn validate_days(days: i64) -> (r: Result<(), String>)
    ensures
        r is Ok <==> days > 0,
{
    if days <= 0 {
        return Err(message("天数必须大于0"));
    }
    Ok(())
}

} // verus!
