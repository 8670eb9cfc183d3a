use actix_demo::custom_guard::MyHeaderGuard;
use actix_demo::enumerate::GenderEnum;
use actix_demo::middleware::{Gate, SayHi};

#[test]
fn guard_matches_lower_cased_content_type() {
    let g = MyHeaderGuard::new("application/json".to_string());
    assert!(g.check(Some("application/json")));
    assert!(g.check(Some("Application/JSON; charset=utf-8")));
    assert!(!g.check(Some("text/plain")));
    assert!(!g.check(None));
    assert!(!g.check(Some("")));
}

#[test]
fn guard_value_is_not_lower_cased() {
    let g = MyHeaderGuard { head_val: "JSON".to_string() };
    assert!(!g.check(Some("application/JSON")));
    let e = MyHeaderGuard { head_val: String::new() };
    assert!(e.check(Some("anything")));
    assert!(!e.check(None));
}

#[test]
fn middleware_refuses_requests_without_authorization() {
    let mut m = SayHi.new_transform(7u32);
    match m.call(false) {
        Gate::Answer(r) => {
            assert_eq!(r.status, 200);
            assert_eq!(r.body, "抱歉您没有权限啦啦哦哦～");
        }
        Gate::Forward => panic!("forwarded without authorization"),
    }
    assert!(matches!(m.call(true), Gate::Forward));
    *m.service_mut() += 1;
    assert_eq!(*m.service_mut(), 8);
}

#[test]
fn gender_values_and_names() {
    assert_eq!(GenderEnum::Unknown.value(), 0);
    assert_eq!(GenderEnum::Male.value(), 1);
    assert_eq!(GenderEnum::Female.value(), -1);
    assert_eq!(GenderEnum::Double.value(), 2);
    assert_eq!(GenderEnum::Male.debug_name(), "Male");
    assert_eq!(GenderEnum::Unknown.debug_name(), format!("{:?}", GenderEnum::Unknown));
}
