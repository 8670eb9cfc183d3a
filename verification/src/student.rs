//! The student records that requests carry, and the validation of a form.
use vstd::prelude::*;
use vstd::string::*;

use crate::regex_constants::{regex_accepts, PhoneRule};
use crate::text::{
    contains_text, decimal_nat, json_quoted, push_decimal_u64, push_json_string, push_text,
};

verus! {

/// The JSON of a student: `{"name":<name>,"age":<age>}`.
pub open spec fn student_json(name: Seq<char>, age: nat) -> Seq<char> {
    "{\"name\":"@ + json_quoted(name) + ",\"age\":"@ + decimal_nat(age) + "}"@
}

/// A student, as posted in a JSON body.
pub struct Student {
    name: String,
    age: usize,
}

impl Student {
    pub closed spec fn spec_name(&self) -> Seq<char> {
        self.name@
    }

    pub closed spec fn spec_age(&self) -> usize {
        self.age
    }

    /// A student with this name and age.
    pub fn new(name: String, age: usize) -> (s: Student)
        ensures
            s.spec_name() == name@,
            s.spec_age() == age,
    {
        Student { name, age }
    }

    /// The student's name.
    pub fn name(&self) -> (n: &str)
        ensures
            n@ == self.spec_name(),
    {
        self.name.as_str()
    }

    /// The student's age.
    pub fn age(&self) -> (a: usize)
        ensures
            a == self.spec_age(),
    {
        self.age
    }

    /// The student as JSON, in the form `serde_json` gives a struct of these fields.
    pub fn to_json(&self) -> (s: String)
        ensures
            s@ == student_json(self.spec_name(), self.spec_age() as nat),
    {
        let mut s = String::from_str("{\"name\":");
        push_json_string(&mut s, self.name.as_str());
        push_text(&mut s, ",\"age\":");
        push_decimal_u64(&mut s, self.age as u64);
        push_text(&mut s, "}");
        s
    }
}

/// A student as it comes in a path or a query: both fields as text.
pub struct Stud {
    pub name: String,
    pub age: String,
}

/// `validator::validate_email` accepts the text.
pub uninterp spec fn email_accepted(s: Seq<char>) -> bool;

/// `validator::validate_url` accepts the text.
pub uninterp spec fn url_accepted(s: Seq<char>) -> bool;

/// The rule of `validator::validate_length` on a value of `len` characters.
pub open spec fn length_rule(len: nat, min: Option<u64>, max: Option<u64>, equal: Option<u64>) -> bool {
    match equal {
        Some(e) => len == e,
        None => (match min {
            Some(m) => len >= m,
            None => true,
        }) && (match max {
            Some(m) => len <= m,
            None => true,
        }),
    }
}

/// Trusted: `validator::validate_length` with a `Length` rule on a string
/// counts its characters and compares: with `equal` alone, else with `min` and `max`.
#[verifier::external_body]
fn validate_length(value: &str, min: Option<u64>, max: Option<u64>, equal: Option<u64>) -> (b: bool)
    ensures
        b == length_rule(value@.len(), min, max, equal),
{
    validator::validate_length(validator::Validator::Length { min, max, equal }, value)
}

/// Trusted: `validator::validate_email` depends on the text alone; its answer is
/// named `email_accepted`.
#[verifier::external_body]
fn validate_email(value: &str) -> (b: bool)
    ensures
        b == email_accepted(value@),
{
    validator::validate_email(value)
}

/// Trusted: `validator::validate_url` (whether `url::Url::parse` accepts the
/// text) depends on the text alone; its answer is named `url_accepted`.
#[verifier::external_body]
fn validate_url(value: &str) -> (b: bool)
    ensures
        b == url_accepted(value@),
{
    validator::validate_url(value)
}

/// Trusted: `validator::validate_contains` on a string is `str::contains`:
/// whether `needle` occurs in the value.
#[verifier::external_body]
fn validate_contains(value: &str, needle: &str) -> (b: bool)
    ensures
        b == contains_text(value@, needle@),
{
    validator::validate_contains(value, needle)
}

/// A field of `NeedValidData` that breaks its rule.
#[derive(Debug, Clone, Copy, PartialEq, Eq, Structural)]
pub enum InvalidField {
    Id,
    Email,
    Age,
    Phone,
    Site,
    Name,
    Pro1,
}

/// A form whose fields each have a rule.
pub struct NeedValidData {
    id: String,
    email: String,
    age: i32,
    phone: String,
    site: String,
    name: String,
    pro1: String,
}

/// `[f]` when the rule of `f` is broken, else nothing.
pub open spec fn flag(ok: bool, f: InvalidField) -> Seq<InvalidField> {
    if ok {
        seq![]
    } else {
        seq![f]
    }
}

impl NeedValidData {
    pub closed spec fn spec_id(&self) -> Seq<char> {
        self.id@
    }

    pub closed spec fn spec_email(&self) -> Seq<char> {
        self.email@
    }

    pub closed spec fn spec_age(&self) -> i32 {
        self.age
    }

    pub closed spec fn spec_phone(&self) -> Seq<char> {
        self.phone@
    }

    pub closed spec fn spec_site(&self) -> Seq<char> {
        self.site@
    }

    pub closed spec fn spec_name(&self) -> Seq<char> {
        self.name@
    }

    pub closed spec fn spec_pro1(&self) -> Seq<char> {
        self.pro1@
    }

    /// The fields that break their rules, in the order of the fields, given the
    /// answers of the email, URL and phone checks: the id has 1 to 10
    /// characters, the age is in 18..=36, the name contains "wang" and `pro1`
    /// has exactly 4 characters.
    pub open spec fn broken_fields(&self, email_ok: bool, url_ok: bool, phone_ok: bool) -> Seq<
        InvalidField,
    > {
        flag(1 <= self.spec_id().len() <= 10, InvalidField::Id) + flag(email_ok, InvalidField::Email)
            + flag(18 <= self.spec_age() <= 36, InvalidField::Age) + flag(
            phone_ok,
            InvalidField::Phone,
        ) + flag(url_ok, InvalidField::Site) + flag(
            contains_text(self.spec_name(), "wang"@),
            InvalidField::Name,
        ) + flag(self.spec_pro1().len() == 4, InvalidField::Pro1)
    }

    /// The fields that break their rules when the phone pattern is `pattern`.
    pub open spec fn broken_fields_with(&self, pattern: Seq<char>) -> Seq<InvalidField> {
        self.broken_fields(
            email_accepted(self.spec_email()),
            url_accepted(self.spec_site()),
            regex_accepts(pattern, self.spec_phone()),
        )
    }

    /// A form with these fields.
    pub fn new(
        id: String,
        email: String,
        age: i32,
        phone: String,
        site: String,
        name: String,
        pro1: String,
    ) -> (d: NeedValidData)
        ensures
            d.spec_id() == id@,
            d.spec_email() == email@,
            d.spec_age() == age,
            d.spec_phone() == phone@,
            d.spec_site() == site@,
            d.spec_name() == name@,
            d.spec_pro1() == pro1@,
    {
        NeedValidData { id, email, age, phone, site, name, pro1 }
    }

    /// Collects the broken rules, given the answers of the email, URL and phone checks.
    pub fn check_fields(&self, email_ok: bool, url_ok: bool, phone_ok: bool) -> (r: Result<
        (),
        Vec<InvalidField>,
    >)
        ensures
            match r {
                Ok(_) => self.broken_fields(email_ok, url_ok, phone_ok).len() == 0,
                Err(v) => v@ == self.broken_fields(email_ok, url_ok, phone_ok) && v@.len() > 0,
            },
    {
        let mut broken: Vec<InvalidField> = Vec::new();
        let id_ok = validate_length(self.id.as_str(), Some(1), Some(10), None);
        if !id_ok {
            broken.push(InvalidField::Id);
        }
        if !email_ok {
            broken.push(InvalidField::Email);
        }
        if !(18 <= self.age && self.age <= 36) {
            broken.push(InvalidField::Age);
        }
        if !phone_ok {
            broken.push(InvalidField::Phone);
        }
        if !url_ok {
            broken.push(InvalidField::Site);
        }
        let name_ok = validate_contains(self.name.as_str(), "wang");
        if !name_ok {
            broken.push(InvalidField::Name);
        }
        let pro1_ok = validate_length(self.pro1.as_str(), None, None, Some(4));
        if !pro1_ok {
            broken.push(InvalidField::Pro1);
        }
        assert(broken@ =~= self.broken_fields(email_ok, url_ok, phone_ok));
        if broken.len() == 0 {
            Ok(())
        } else {
            Err(broken)
        }
    }

    /// Validates every field by its rule; the phone number by `phone`.
    pub fn validate(&self, phone: &PhoneRule) -> (r: Result<(), Vec<InvalidField>>)
        ensures
            match r {
                Ok(_) => self.broken_fields_with(phone.pattern()).len() == 0,
                Err(v) => v@ == self.broken_fields_with(phone.pattern()) && v@.len() > 0,
            },
    {
        let email_ok = validate_email(self.email.as_str());
        let url_ok = validate_url(self.site.as_str());
        let phone_ok = phone.matches(self.phone.as_str());
        self.check_fields(email_ok, url_ok, phone_ok)
    }
}

} // verus!
