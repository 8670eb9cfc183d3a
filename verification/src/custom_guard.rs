//! A request guard on the `Content-Type` header.
use vstd::prelude::*;

use crate::text::{ascii_lower, ascii_lowercase, contains_text, is_header_text, text_contains};

verus! {

/// Lets a request through when its `Content-Type` header, lower-cased, contains `head_val`.
pub struct MyHeaderGuard {
    pub head_val: String,
}

/// The view of an optional text.
pub open spec fn opt_view(t: Option<&str>) -> Option<Seq<char>> {
    match t {
        Some(s) => Some(s@),
        None => None,
    }
}

impl MyHeaderGuard {
    /// The guard lets a request with this `Content-Type` value (if any) through.
    pub open spec fn accepts(&self, content_type: Option<Seq<char>>) -> bool {
        match content_type {
            None => false,
            Some(v) => contains_text(ascii_lower(v), self.head_val@),
        }
    }

    /// A guard that looks for `head_val`.
    pub fn new(head_val: String) -> (g: MyHeaderGuard)
        ensures
            g.head_val@ == head_val@,
    {
        MyHeaderGuard { head_val }
    }

    /// Checks the `Content-Type` header's value, `None` where the request has no
    /// such header. The value is the header as text, so it holds tabs and visible
    /// ASCII only, and lower-casing it is ASCII lower-casing.
    pub fn check(&self, content_type: Option<&str>) -> (b: bool)
        requires
            content_type matches Some(v) ==> is_header_text(v@),
        ensures
            b == self.accepts(opt_view(content_type)),
    {
        match content_type {
            None => false,
            Some(v) => {
                let lowered = ascii_lowercase(v);
                text_contains(lowered.as_str(), self.head_val.as_str())
            },
        }
    }
}

} // verus!
