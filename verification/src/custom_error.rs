//! The service's error kinds and how each is answered to the client.
use rand::Rng;
use vstd::prelude::*;
use vstd::string::*;

use crate::reply::Reply;
use crate::text::{
    debug_quoted, decimal_int, json_quoted, push_debug_string, push_decimal_i64, push_json_string,
    push_text,
};

verus! {

#[verifier::external_type_specification]
#[verifier::external_body]
pub struct ExThreadRng(rand::rngs::ThreadRng);

/// Trusted: `rand::thread_rng` hands out the generator of the current thread;
/// nothing is stated of its state.
#[verifier::external_body]
pub(crate) fn thread_rng() -> rand::rngs::ThreadRng {
    rand::thread_rng()
}

/// Trusted: `Rng::gen_range(low, high)` returns a value in `[low, high)` and
/// panics when `low >= high`, which `requires` leaves out; which value comes is chance.
#[verifier::external_body]
fn gen_range_u32(rng: &mut rand::rngs::ThreadRng, low: u32, high: u32) -> (r: u32)
    requires
        low < high,
    ensures
        low <= r < high,
{
    rng.gen_range(low, high)
}

/// Trusted: `Rng::gen_ratio(numerator, denominator)` is `true` with chance
/// `numerator / denominator`; it is always `false` for a zero numerator and
/// always `true` when numerator and denominator are equal, and it panics when
/// `denominator == 0` or `numerator > denominator`, which `requires` leaves out.
#[verifier::external_body]
fn gen_ratio(rng: &mut rand::rngs::ThreadRng, numerator: u32, denominator: u32) -> (b: bool)
    requires
        0 < denominator,
        numerator <= denominator,
    ensures
        numerator == 0 ==> !b,
        numerator == denominator ==> b,
{
    rng.gen_ratio(numerator, denominator)
}

/// A random error is drawn from `ERROR_DRAW_LOW..ERROR_DRAW_HIGH`.
pub const ERROR_DRAW_LOW: u32 = 1;

/// The end (excluded) of the range that a random error is drawn from.
pub const ERROR_DRAW_HIGH: u32 = 5;

/// The random action succeeds with chance `SUCCESS_NUMERATOR` in `SUCCESS_DENOMINATOR`.
pub const SUCCESS_NUMERATOR: u32 = 2;

/// The denominator of the random action's chance of success.
pub const SUCCESS_DENOMINATOR: u32 = 10;

/// Errors that are answered with an HTTP error status and a fixed text.
#[derive(Debug, Clone, Copy, PartialEq, Eq, Structural)]
pub enum CustomError {
    CustomOne,
    CustomTwo,
    CustomThree,
    CustomFour,
}

/// The error that a draw of `n` in `1..5` gives: 1, 2 and 3 pick the first
/// three errors, anything else the fourth.
pub open spec fn error_of_index(n: int) -> CustomError {
    if n == 1 {
        CustomError::CustomOne
    } else if n == 2 {
        CustomError::CustomTwo
    } else if n == 3 {
        CustomError::CustomThree
    } else {
        CustomError::CustomFour
    }
}

impl CustomError {
    /// The text that the error displays.
    pub open spec fn display_text(self) -> Seq<char> {
        match self {
            CustomError::CustomOne => "Custom Error 1"@,
            CustomError::CustomTwo => "Custom Error 2"@,
            CustomError::CustomThree => "Custom Error 3"@,
            CustomError::CustomFour => "Custom Error 4"@,
        }
    }

    /// The HTTP status that answers the error.
    pub open spec fn status(self) -> u16 {
        match self {
            CustomError::CustomOne => 403,
            CustomError::CustomTwo => 401,
            CustomError::CustomThree => 500,
            CustomError::CustomFour => 400,
        }
    }

    /// The word logged when the error is answered.
    pub open spec fn log_text(self) -> Seq<char> {
        match self {
            CustomError::CustomOne => "one"@,
            CustomError::CustomTwo => "two"@,
            CustomError::CustomThree => "three"@,
            CustomError::CustomFour => "four"@,
        }
    }

    /// The displayed text: "Custom Error 1" to "Custom Error 4".
    pub fn to_string(&self) -> (s: String)
        ensures
            s@ == self.display_text(),
    {
        match self {
            CustomError::CustomOne => String::from_str("Custom Error 1"),
            CustomError::CustomTwo => String::from_str("Custom Error 2"),
            CustomError::CustomThree => String::from_str("Custom Error 3"),
            CustomError::CustomFour => String::from_str("Custom Error 4"),
        }
    }

    /// The HTTP status: 403, 401, 500 and 400 in the order of the variants.
    pub fn status_code(&self) -> (c: u16)
        ensures
            c == self.status(),
    {
        match self {
            CustomError::CustomOne => 403,
            CustomError::CustomTwo => 401,
            CustomError::CustomThree => 500,
            CustomError::CustomFour => 400,
        }
    }

    /// The line logged when the error is answered: "one" to "four".
    pub fn log_line(&self) -> (s: String)
        ensures
            s@ == self.log_text(),
    {
        match self {
            CustomError::CustomOne => String::from_str("one"),
            CustomError::CustomTwo => String::from_str("two"),
            CustomError::CustomThree => String::from_str("three"),
            CustomError::CustomFour => String::from_str("four"),
        }
    }

    /// The answer to the error: its status, with its text as the body.
    pub fn error_response(&self) -> (r: Reply)
        ensures
            r.status == self.status(),
            r.body@ == self.display_text(),
    {
        Reply { status: self.status_code(), body: self.to_string() }
    }

    /// The error that the draw `n` selects.
    pub fn from_index(n: u32) -> (e: CustomError)
        ensures
            e == error_of_index(n as int),
    {
        match n {
            1 => CustomError::CustomOne,
            2 => CustomError::CustomTwo,
            3 => CustomError::CustomThree,
            _ => CustomError::CustomFour,
        }
    }

    /// A random error: a draw in `1..5` selects it.
    pub fn sample(rng: &mut rand::rngs::ThreadRng) -> (e: CustomError)
        ensures
            exists|n: int| 1 <= n < 5 && e == error_of_index(n),
    {
        let n = gen_range_u32(rng, ERROR_DRAW_LOW, ERROR_DRAW_HIGH);
        Self::from_index(n)
    }
}

/// The outcome of a random action: success when the draw succeeded, the drawn error otherwise.
pub fn random_outcome(succeeded: bool, error: CustomError) -> (r: Result<(), CustomError>)
    ensures
        succeeded ==> r is Ok,
        !succeeded ==> r == Err::<(), CustomError>(error),
{
    if succeeded {
        Ok(())
    } else {
        Err(error)
    }
}

/// Succeeds with chance 2 in 10; otherwise fails with a random error.
pub fn do_something_random() -> (r: Result<(), CustomError>)
    ensures
        r matches Err(e) ==> exists|n: int| 1 <= n < 5 && e == error_of_index(n),
{
    let mut rng = thread_rng();
    let succeeded = gen_ratio(&mut rng, SUCCESS_NUMERATOR, SUCCESS_DENOMINATOR);
    if succeeded {
        random_outcome(true, CustomError::CustomOne)
    } else {
        let error = CustomError::sample(&mut rng);
        random_outcome(false, error)
    }
}

/// The `Debug` form of an optional text: `None`, or `Some(..)` around the quoted text.
pub open spec fn debug_option(t: Option<Seq<char>>) -> Seq<char> {
    match t {
        None => "None"@,
        Some(s) => "Some("@ + debug_quoted(s) + ")"@,
    }
}

/// The body of an error answer: `{"code":<code>,"message":<message>}`.
pub open spec fn api_result_json(code: int, message: Seq<char>) -> Seq<char> {
    "{\"code\":"@ + decimal_int(code) + ",\"message\":"@ + json_quoted(message) + "}"@
}

/// The result record that an answered `CommonError` carries.
pub struct ApiResult {
    pub code: i32,
    pub message: String,
}

impl ApiResult {
    /// The record as JSON, in the form `serde_json` gives a struct of these two fields.
    pub fn to_json(&self) -> (s: String)
        ensures
            s@ == api_result_json(self.code as int, self.message@),
    {
        let mut s = String::from_str("{\"code\":");
        push_decimal_i64(&mut s, self.code as i64);
        push_text(&mut s, ",\"message\":");
        push_json_string(&mut s, self.message.as_str());
        push_text(&mut s, "}");
        s
    }
}

/// Errors answered with HTTP status 200 and a JSON body that carries the
/// application's code and message; the last field is an optional trace of where
/// the error came from.
#[derive(Debug)]
pub enum CommonError {
    System(i32, String, Option<String>),
    Logic(i32, String, Option<String>),
    General(i32, String, Option<String>),
}

impl CommonError {
    /// The application's error code.
    pub open spec fn spec_code(&self) -> i32 {
        match self {
            CommonError::System(c, _, _) => *c,
            CommonError::Logic(c, _, _) => *c,
            CommonError::General(c, _, _) => *c,
        }
    }

    /// The message.
    pub open spec fn spec_message(&self) -> Seq<char> {
        match self {
            CommonError::System(_, m, _) => m@,
            CommonError::Logic(_, m, _) => m@,
            CommonError::General(_, m, _) => m@,
        }
    }

    /// The trace, where there is one.
    pub open spec fn spec_trace(&self) -> Option<Seq<char>> {
        let t = match self {
            CommonError::System(_, _, t) => t,
            CommonError::Logic(_, _, t) => t,
            CommonError::General(_, _, t) => t,
        };
        match t {
            Some(s) => Some(s@),
            None => None,
        }
    }

    /// The displayed text: `(<code>, <message>)`.
    pub open spec fn display_text(&self) -> Seq<char> {
        "("@ + decimal_int(self.spec_code() as int) + ", "@ + self.spec_message() + ")"@
    }

    /// The line logged when the error is answered: code and message, and for the
    /// system and logic errors the `Debug` form of the trace.
    pub open spec fn log_text(&self) -> Seq<char> {
        let head = decimal_int(self.spec_code() as int) + ", "@ + self.spec_message();
        match self {
            CommonError::General(_, _, _) => head,
            _ => head + ", "@ + debug_option(self.spec_trace()),
        }
    }

    fn parts(&self) -> (r: (i32, &String, &Option<String>))
        ensures
            r.0 == self.spec_code(),
            r.1@ == self.spec_message(),
            (match r.2 {
                Some(s) => Some(s@),
                None => None,
            }) == self.spec_trace(),
    {
        match self {
            CommonError::System(c, m, t) => (*c, m, t),
            CommonError::Logic(c, m, t) => (*c, m, t),
            CommonError::General(c, m, t) => (*c, m, t),
        }
    }

    /// The application's error code.
    pub fn code(&self) -> (c: i32)
        ensures
            c == self.spec_code(),
    {
        self.parts().0
    }

    /// The message.
    pub fn message(&self) -> (m: &str)
        ensures
            m@ == self.spec_message(),
    {
        self.parts().1.as_str()
    }

    /// The trace, where there is one.
    pub fn trace(&self) -> (t: Option<&str>)
        ensures
            (match t {
                Some(s) => Some(s@),
                None => None,
            }) == self.spec_trace(),
    {
        match self.parts().2 {
            Some(s) => Some(s.as_str()),
            None => None,
        }
    }

    /// The displayed text: `(<code>, <message>)`.
    pub fn to_string(&self) -> (s: String)
        ensures
            s@ == self.display_text(),
    {
        let (code, message, _) = self.parts();
        let mut s = String::from_str("(");
        push_decimal_i64(&mut s, code as i64);
        push_text(&mut s, ", ");
        push_text(&mut s, message.as_str());
        push_text(&mut s, ")");
        s
    }

    /// The result record sent to the client: code and message.
    pub fn to_api_result(&self) -> (r: ApiResult)
        ensures
            r.code == self.spec_code(),
            r.message@ == self.spec_message(),
    {
        let (code, message, _) = self.parts();
        ApiResult { code, message: message.clone() }
    }

    /// The answer to the error: status 200, the result record as JSON body.
    pub fn error_response(&self) -> (r: Reply)
        ensures
            r.status == 200,
            r.body@ == api_result_json(self.spec_code() as int, self.spec_message()),
    {
        let result = self.to_api_result();
        Reply { status: 200, body: result.to_json() }
    }

    /// The line logged when the error is answered.
    pub fn log_line(&self) -> (s: String)
        ensures
            s@ == self.log_text(),
    {
        let (code, message, trace) = self.parts();
        let mut s = String::new();
        push_decimal_i64(&mut s, code as i64);
        push_text(&mut s, ", ");
        push_text(&mut s, message.as_str());
        match self {
            CommonError::General(_, _, _) => {},
            _ => {
                push_text(&mut s, ", ");
                match trace {
                    None => push_text(&mut s, "None"),
                    Some(t) => {
                        push_text(&mut s, "Some(");
                        push_debug_string(&mut s, t.as_str());
                        push_text(&mut s, ")");
                    },
                }
            },
        }
        s
    }
}

} // verus!
