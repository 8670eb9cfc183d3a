use actix_demo::custom_error::CustomError;
use actix_demo::custom_guard::MyHeaderGuard;
use actix_demo::route_set::custom_error;
use actix_demo::text::{ascii_lowercase, decimal_string};

#[test]
fn distinct_numbers_have_distinct_notations() {
    let values = [-100i64, -10, -1, 0, 1, 10, 100, 101, 110];
    for a in values {
        for b in values {
            assert_eq!(decimal_string(a) == decimal_string(b), a == b);
        }
    }
}

#[test]
fn lower_casing_twice_is_lower_casing_once() {
    let s = "MiXeD Case/JSON";
    let once = ascii_lowercase(s);
    assert_eq!(ascii_lowercase(&once), once);
}

#[test]
fn guard_ignores_letter_case_of_the_header() {
    let g = MyHeaderGuard::new("json".to_string());
    for v in ["APPLICATION/JSON", "application/json", "Application/Json", "text/html"] {
        assert_eq!(g.check(Some(v)), g.check(Some(&ascii_lowercase(v))));
    }
}

#[test]
fn custom_error_statuses_are_distinct_errors() {
    let all = [CustomError::CustomOne, CustomError::CustomTwo, CustomError::CustomThree, CustomError::CustomFour];
    for a in all {
        let s = a.status_code();
        assert!((400..600).contains(&s));
        for b in all {
            assert_eq!(a.status_code() == b.status_code(), a == b);
        }
    }
}

#[test]
fn each_custom_error_has_one_id() {
    let all = [CustomError::CustomOne, CustomError::CustomTwo, CustomError::CustomThree, CustomError::CustomFour];
    for e in all {
        let ids: Vec<i32> = (1..=4).filter(|&id| custom_error(id) == e).collect();
        assert_eq!(ids.len(), 1);
    }
}
