//! Properties that hold across the library's functions.
use vstd::prelude::*;

use crate::custom_error::{error_of_index, CustomError};
use crate::custom_guard::MyHeaderGuard;
use crate::route_set::{is_ok_reply, is_one_reply, RedisReply};
use crate::student::{flag, InvalidField, NeedValidData};
use crate::text::{ascii_lower, decimal_int, decimal_nat, digit_char, lower_char, occurs_at};

verus! {

broadcast use vstd::seq_lib::lemma_seq_concat_contains_all_elements;

proof fn lemma_digit_char_injective(a: nat, b: nat)
    requires
        a < 10,
        b < 10,
        digit_char(a) == digit_char(b),
    ensures
        a == b,
{
    assert(digit_char(a) as int == a + 48);
    assert(digit_char(b) as int == b + 48);
}

proof fn lemma_decimal_nat_shape(n: nat)
    ensures
        decimal_nat(n).len() >= 1,
        n < 10 <==> decimal_nat(n).len() == 1,
        forall|i: int|
            0 <= i < decimal_nat(n).len() ==> '0' <= #[trigger] decimal_nat(n)[i] && decimal_nat(
                n,
            )[i] <= '9',
    decreases n,
{
    if n >= 10 {
        lemma_decimal_nat_shape(n / 10);
        let d = (n % 10) as nat;
        assert(digit_char(d) as int == d + 48);
        assert forall|i: int| 0 <= i < decimal_nat(n).len() implies '0' <= #[trigger] decimal_nat(
            n,
        )[i] && decimal_nat(n)[i] <= '9' by {
            if i < decimal_nat(n / 10).len() {
                assert(decimal_nat(n)[i] == decimal_nat(n / 10)[i]);
            }
        }
    } else {
        assert(digit_char(n) as int == n + 48);
    }
}

proof fn lemma_decimal_nat_injective(a: nat, b: nat)
    requires
        decimal_nat(a) == decimal_nat(b),
    ensures
        a == b,
    decreases a,
{
    lemma_decimal_nat_shape(a);
    lemma_decimal_nat_shape(b);
    if a < 10 && b < 10 {
        assert(decimal_nat(a)[0] == digit_char(a));
        assert(decimal_nat(b)[0] == digit_char(b));
        lemma_digit_char_injective(a, b);
    } else if a >= 10 && b >= 10 {
        let sa = decimal_nat(a);
        assert(sa.last() == digit_char((a % 10) as nat));
        assert(decimal_nat(b).last() == digit_char((b % 10) as nat));
        lemma_digit_char_injective((a % 10) as nat, (b % 10) as nat);
        assert(decimal_nat(a / 10) =~= sa.drop_last());
        assert(decimal_nat(b / 10) =~= decimal_nat(b).drop_last());
        lemma_decimal_nat_injective(a / 10, b / 10);
    }
}

/// The decimal notation that responses give a number in names one number only:
/// two integers with the same notation are equal.
pub proof fn law_decimal_notation_identifies_number(a: int, b: int)
    requires
        decimal_int(a) == decimal_int(b),
    ensures
        a == b,
{
    if a < 0 && b < 0 {
        assert(decimal_nat((-a) as nat) =~= decimal_int(a).drop_first());
        assert(decimal_nat((-b) as nat) =~= decimal_int(b).drop_first());
        lemma_decimal_nat_injective((-a) as nat, (-b) as nat);
    } else if a >= 0 && b >= 0 {
        lemma_decimal_nat_injective(a as nat, b as nat);
    } else if a < 0 {
        lemma_decimal_nat_shape(b as nat);
        assert(decimal_int(a)[0] == '-');
        assert('0' <= decimal_nat(b as nat)[0]);
    } else {
        lemma_decimal_nat_shape(a as nat);
        assert(decimal_int(b)[0] == '-');
        assert('0' <= decimal_nat(a as nat)[0]);
    }
}

/// Lower-casing twice gives what lower-casing once gives.
pub proof fn law_ascii_lower_idempotent(s: Seq<char>)
    ensures
        ascii_lower(ascii_lower(s)) == ascii_lower(s),
{
    assert forall|i: int| 0 <= i < s.len() implies lower_char(lower_char(s[i])) == lower_char(
        s[i],
    ) by {
        let c = s[i];
        if 'A' <= c && c <= 'Z' {
            assert(((c as int) + 32) as char as int == c as int + 32);
        }
    }
    assert(ascii_lower(ascii_lower(s)) =~= ascii_lower(s));
}

/// The `Content-Type` guard ignores the case of the header's letters: two
/// values that are equal once lower-cased are both let through or both refused.
pub proof fn law_guard_ignores_letter_case(g: MyHeaderGuard, v: Seq<char>, w: Seq<char>)
    requires
        ascii_lower(v) == ascii_lower(w),
    ensures
        g.accepts(Some(v)) == g.accepts(Some(w)),
{
}

/// The guard answers a value as it answers the value's lower-case form.
pub proof fn law_guard_value_as_lower_case(g: MyHeaderGuard, v: Seq<char>)
    ensures
        g.accepts(Some(v)) == g.accepts(Some(ascii_lower(v))),
{
    law_ascii_lower_idempotent(v);
}

/// Every `CustomError` is answered with an HTTP error status, and no two of
/// them with the same status.
pub proof fn law_custom_error_statuses(a: CustomError, b: CustomError)
    ensures
        400 <= a.status() < 600,
        a.status() == b.status() ==> a == b,
{
}

/// Each `CustomError` is selected by exactly one of the ids 1 to 4, so the route
/// `/custom_error/{id}` and a random draw in `1..5` reach the same four errors.
pub proof fn law_each_custom_error_has_one_id(e: CustomError)
    ensures
        exists|n: int| 1 <= n <= 4 && error_of_index(n) == e,
        forall|n: int, m: int|
            1 <= n <= 4 && 1 <= m <= 4 && error_of_index(n) == e && error_of_index(m) == e ==> n
                == m,
{
    match e {
        CustomError::CustomOne => assert(error_of_index(1) == e),
        CustomError::CustomTwo => assert(error_of_index(2) == e),
        CustomError::CustomThree => assert(error_of_index(3) == e),
        CustomError::CustomFour => assert(error_of_index(4) == e),
    }
}

/// The `Content-Type` guard lets a request through exactly when its value occurs
/// somewhere in the lower-cased header value, at its start, in its middle or at
/// its end; a request without the header never passes.
pub proof fn law_guard_accepts_any_occurrence(g: MyHeaderGuard, v: Seq<char>)
    ensures
        g.accepts(Some(v)) <==> exists|i: int|
            0 <= i && i + g.head_val@.len() <= v.len() && #[trigger] ascii_lower(v).subrange(
                i,
                i + g.head_val@.len(),
            ) == g.head_val@,
        !g.accepts(None),
{
    let h = g.head_val@;
    let l = ascii_lower(v);
    if g.accepts(Some(v)) {
        let i = choose|i: int| #[trigger] occurs_at(l, h, i);
        assert(occurs_at(l, h, i));
        assert(l.subrange(i, i + h.len()) == h);
    }
    if exists|i: int|
        0 <= i && i + h.len() <= v.len() && #[trigger] l.subrange(i, i + h.len()) == h {
        let i = choose|i: int|
            0 <= i && i + h.len() <= v.len() && #[trigger] l.subrange(i, i + h.len()) == h;
        assert(occurs_at(l, h, i));
    }
}

proof fn lemma_flag_contains(ok: bool, f: InvalidField, g: InvalidField)
    ensures
        flag(ok, f).contains(g) <==> (!ok && f == g),
{
    if !ok && f == g {
        assert(flag(ok, f)[0] == g);
    }
}

/// Whether the rule of field `g` holds, given the answers of the email, URL and phone checks.
spec fn rule_holds(d: NeedValidData, e: bool, u: bool, p: bool, g: InvalidField) -> bool {
    match g {
        InvalidField::Id => 1 <= d.spec_id().len() <= 10,
        InvalidField::Email => e,
        InvalidField::Age => 18 <= d.spec_age() <= 36,
        InvalidField::Phone => p,
        InvalidField::Site => u,
        InvalidField::Name => crate::text::contains_text(d.spec_name(), "wang"@),
        InvalidField::Pro1 => d.spec_pro1().len() == 4,
    }
}

proof fn lemma_broken_contains(d: NeedValidData, e: bool, u: bool, p: bool, g: InvalidField)
    ensures
        d.broken_fields(e, u, p).contains(g) <==> !rule_holds(d, e, u, p, g),
        d.broken_fields(e, u, p).len() == 0 <==> (forall|f: InvalidField|
            #[trigger] rule_holds(d, e, u, p, f)),
{
    let id_ok = 1 <= d.spec_id().len() <= 10;
    let age_ok = 18 <= d.spec_age() <= 36;
    let name_ok = crate::text::contains_text(d.spec_name(), "wang"@);
    let pro1_ok = d.spec_pro1().len() == 4;
    lemma_flag_contains(id_ok, InvalidField::Id, g);
    lemma_flag_contains(e, InvalidField::Email, g);
    lemma_flag_contains(age_ok, InvalidField::Age, g);
    lemma_flag_contains(p, InvalidField::Phone, g);
    lemma_flag_contains(u, InvalidField::Site, g);
    lemma_flag_contains(name_ok, InvalidField::Name, g);
    lemma_flag_contains(pro1_ok, InvalidField::Pro1, g);
    if d.broken_fields(e, u, p).len() == 0 {
        assert forall|f: InvalidField| #[trigger] rule_holds(d, e, u, p, f) by {
            match f {
                InvalidField::Id => {},
                InvalidField::Email => {},
                InvalidField::Age => {},
                InvalidField::Phone => {},
                InvalidField::Site => {},
                InvalidField::Name => {},
                InvalidField::Pro1 => {},
            }
        }
    }
    if forall|f: InvalidField| #[trigger] rule_holds(d, e, u, p, f) {
        assert(rule_holds(d, e, u, p, InvalidField::Id));
        assert(rule_holds(d, e, u, p, InvalidField::Email));
        assert(rule_holds(d, e, u, p, InvalidField::Age));
        assert(rule_holds(d, e, u, p, InvalidField::Phone));
        assert(rule_holds(d, e, u, p, InvalidField::Site));
        assert(rule_holds(d, e, u, p, InvalidField::Name));
        assert(rule_holds(d, e, u, p, InvalidField::Pro1));
    }
}

proof fn lemma_contains_wang(name: Seq<char>)
    ensures
        crate::text::contains_text(name, "wang"@) <==> exists|i: int|
            0 <= i && i + "wang"@.len() <= name.len() && #[trigger] name.subrange(
                i,
                i + "wang"@.len(),
            ) == "wang"@,
{
    let w = "wang"@;
    if crate::text::contains_text(name, w) {
        let i = choose|i: int| #[trigger] occurs_at(name, w, i);
        assert(occurs_at(name, w, i));
        assert(name.subrange(i, i + w.len()) == w);
    }
    if exists|i: int| 0 <= i && i + w.len() <= name.len() && #[trigger] name.subrange(i, i + w.len()) == w {
        let i = choose|i: int|
            0 <= i && i + w.len() <= name.len() && #[trigger] name.subrange(i, i + w.len()) == w;
        assert(occurs_at(name, w, i));
    }
}

/// A form breaks a rule exactly when the field breaks it: the id must have 1 to
/// 10 characters, the age must lie in 18..=36, the name must contain `wang`,
/// `pro1` must have exactly 4 characters, and the email, phone and URL fields
/// break theirs exactly when their checks say no. The form passes exactly when
/// no rule is broken.
pub proof fn law_form_rules(d: NeedValidData, email_ok: bool, url_ok: bool, phone_ok: bool)
    ensures
        d.broken_fields(email_ok, url_ok, phone_ok).contains(InvalidField::Id) <==> !(1
            <= d.spec_id().len() <= 10),
        d.broken_fields(email_ok, url_ok, phone_ok).contains(InvalidField::Email) <==> !email_ok,
        d.broken_fields(email_ok, url_ok, phone_ok).contains(InvalidField::Age) <==> !(18
            <= d.spec_age() <= 36),
        d.broken_fields(email_ok, url_ok, phone_ok).contains(InvalidField::Phone) <==> !phone_ok,
        d.broken_fields(email_ok, url_ok, phone_ok).contains(InvalidField::Site) <==> !url_ok,
        d.broken_fields(email_ok, url_ok, phone_ok).contains(InvalidField::Name) <==> !(exists|
            i: int,
        |
            0 <= i && i + "wang"@.len() <= d.spec_name().len() && #[trigger] d.spec_name().subrange(
                i,
                i + "wang"@.len(),
            ) == "wang"@),
        d.broken_fields(email_ok, url_ok, phone_ok).contains(InvalidField::Pro1) <==> d.spec_pro1().len()
            != 4,
        d.broken_fields(email_ok, url_ok, phone_ok).len() == 0 <==> (1 <= d.spec_id().len() <= 10
            && email_ok && 18 <= d.spec_age() <= 36 && phone_ok && url_ok && d.spec_pro1().len()
            == 4 && exists|i: int|
            0 <= i && i + "wang"@.len() <= d.spec_name().len() && #[trigger] d.spec_name().subrange(
                i,
                i + "wang"@.len(),
            ) == "wang"@),
{
    let e = email_ok;
    let u = url_ok;
    let p = phone_ok;
    lemma_broken_contains(d, e, u, p, InvalidField::Id);
    lemma_broken_contains(d, e, u, p, InvalidField::Email);
    lemma_broken_contains(d, e, u, p, InvalidField::Age);
    lemma_broken_contains(d, e, u, p, InvalidField::Phone);
    lemma_broken_contains(d, e, u, p, InvalidField::Site);
    lemma_broken_contains(d, e, u, p, InvalidField::Name);
    lemma_broken_contains(d, e, u, p, InvalidField::Pro1);
    lemma_contains_wang(d.spec_name());
}

/// Every id other than 1, 2 and 3 selects the fourth error, answered with status
/// 400; ids 1, 2 and 3 select errors answered with 403, 401 and 500.
pub proof fn law_custom_error_ids(n: int)
    ensures
        n == 1 ==> error_of_index(n) == CustomError::CustomOne && error_of_index(n).status() == 403,
        n == 2 ==> error_of_index(n) == CustomError::CustomTwo && error_of_index(n).status() == 401,
        n == 3 ==> error_of_index(n) == CustomError::CustomThree && error_of_index(n).status()
            == 500,
        n != 1 && n != 2 && n != 3 ==> error_of_index(n) == CustomError::CustomFour
            && error_of_index(n).status() == 400,
{
}

/// How the handlers read a reply of the key-value store: only the status `OK`
/// counts as stored, only the number 1 counts as deleted or set, and any other
/// reply (another status, another number, an error or no reply) counts as failed.
pub proof fn law_store_replies(r: RedisReply)
    ensures
        r is Other ==> !is_ok_reply(r) && !is_one_reply(r),
        r matches RedisReply::Integer(n) ==> !is_ok_reply(r) && (is_one_reply(r) <==> n == 1),
        r matches RedisReply::SimpleString(s) ==> !is_one_reply(r) && (is_ok_reply(r) <==> s@
            == "OK"@),
{
}

} // verus!
