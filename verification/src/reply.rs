//! The answer that the service sends for a request: a status code and a body.
use vstd::prelude::*;

verus! {

/// An HTTP answer: status code and body text.
pub struct Reply {
    pub status: u16,
    pub body: String,
}

} // verus!
