use actix_demo::custom_error::CommonError;
use actix_demo::regex_constants::{PhoneRule, PHONE_PATTERN};
use actix_demo::route_set::validate_test;
use actix_demo::student::{InvalidField, NeedValidData};

fn form(id: &str, email: &str, age: i32, phone: &str, site: &str, name: &str, pro1: &str) -> NeedValidData {
    NeedValidData::new(
        id.to_string(),
        email.to_string(),
        age,
        phone.to_string(),
        site.to_string(),
        name.to_string(),
        pro1.to_string(),
    )
}

fn good() -> NeedValidData {
    form("1", "a@b.com", 20, "13812345678", "https://example.com", "wangwu", "abcd")
}

#[test]
fn phone_rule_compiles_and_matches() {
    assert_eq!(PHONE_PATTERN, "^[1-9]\\d{10}$");
    let rule = PhoneRule::new().unwrap();
    assert!(rule.matches("13812345678"));
    assert!(rule.matches("98765432100"));
    assert!(!rule.matches("03812345678"));
    assert!(!rule.matches("1381234567"));
    assert!(!rule.matches("138123456789"));
    assert!(!rule.matches("1381234567a"));
}

#[test]
fn valid_form_passes() {
    let rule = PhoneRule::new().unwrap();
    assert_eq!(good().validate(&rule), Ok(()));
    assert_eq!(validate_test(&good(), &rule).unwrap(), "暂时没用");
}

#[test]
fn each_broken_rule_is_reported() {
    let rule = PhoneRule::new().unwrap();
    let cases = vec![
        (form("", "a@b.com", 20, "13812345678", "https://example.com", "wangwu", "abcd"), InvalidField::Id),
        (form("12345678901", "a@b.com", 20, "13812345678", "https://example.com", "wangwu", "abcd"), InvalidField::Id),
        (form("1", "not-an-email", 20, "13812345678", "https://example.com", "wangwu", "abcd"), InvalidField::Email),
        (form("1", "a@b.com", 17, "13812345678", "https://example.com", "wangwu", "abcd"), InvalidField::Age),
        (form("1", "a@b.com", 37, "13812345678", "https://example.com", "wangwu", "abcd"), InvalidField::Age),
        (form("1", "a@b.com", 20, "0123", "https://example.com", "wangwu", "abcd"), InvalidField::Phone),
        (form("1", "a@b.com", 20, "13812345678", "not a url", "wangwu", "abcd"), InvalidField::Site),
        (form("1", "a@b.com", 20, "13812345678", "https://example.com", "Wang", "abcd"), InvalidField::Name),
        (form("1", "a@b.com", 20, "13812345678", "https://example.com", "wangwu", "abc"), InvalidField::Pro1),
    ];
    for (d, field) in cases {
        assert_eq!(d.validate(&rule), Err(vec![field]));
        match validate_test(&d, &rule) {
            Err(CommonError::Logic(4000, m, None)) => assert_eq!(m, "入口参数验证失败"),
            other => panic!("unexpected {:?}", other),
        }
    }
}

#[test]
fn length_counts_characters_and_age_bounds_are_inclusive() {
    let rule = PhoneRule::new().unwrap();
    let d = form("一二三四五六七八九十", "a@b.com", 18, "13812345678", "https://example.com", "xwangx", "四个汉字");
    assert_eq!(d.validate(&rule), Ok(()));
    let e = form("1", "a@b.com", 36, "13812345678", "https://example.com", "wang", "abcd");
    assert_eq!(e.validate(&rule), Ok(()));
}

#[test]
fn broken_rules_come_in_field_order() {
    let rule = PhoneRule::new().unwrap();
    let d = form("", "x", 0, "1", "y", "z", "");
    assert_eq!(
        d.validate(&rule),
        Err(vec![
            InvalidField::Id,
            InvalidField::Email,
            InvalidField::Age,
            InvalidField::Phone,
            InvalidField::Site,
            InvalidField::Name,
            InvalidField::Pro1,
        ])
    );
}

#[test]
fn check_fields_uses_the_given_answers() {
    let d = good();
    assert_eq!(d.check_fields(true, true, true), Ok(()));
    assert_eq!(d.check_fields(false, true, false), Err(vec![InvalidField::Email, InvalidField::Phone]));
    assert_eq!(d.check_fields(true, false, true), Err(vec![InvalidField::Site]));
}
