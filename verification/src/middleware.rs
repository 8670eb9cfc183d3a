//! A middleware that answers requests without an `Authorization` header itself
//! and hands every other request on to the wrapped service.
use vstd::prelude::*;
use vstd::string::*;

use crate::reply::Reply;

verus! {

/// The body sent to a request that has no `Authorization` header.
pub open spec fn denied_text() -> Seq<char> {
    "抱歉您没有权限啦啦哦哦～"@
}

/// The factory of the middleware.
pub struct SayHi;

/// The middleware around the next service `S`.
pub struct SayHiMiddleware<S> {
    service: S,
}

/// What the middleware does with a request.
pub enum Gate {
    /// Hand the request on to the wrapped service.
    Forward,
    /// Answer the request here.
    Answer(Reply),
}

impl SayHi {
    /// Wraps the next service.
    pub fn new_transform<S>(&self, service: S) -> (m: SayHiMiddleware<S>)
        ensures
            m.inner() == service,
    {
        SayHiMiddleware { service }
    }
}

impl<S> SayHiMiddleware<S> {
    /// The wrapped service.
    pub closed spec fn inner(&self) -> S {
        self.service
    }

    /// The wrapped service, to poll and call it.
    pub fn service_mut(&mut self) -> (r: &mut S)
        ensures
            *r == old(self).inner(),
            final(self).inner() == *final(r),
    {
        &mut self.service
    }

    /// Decides on a request: one with an `Authorization` header goes on to the
    /// wrapped service, one without is answered with status 200 and a refusal text.
    pub fn call(&self, has_authorization: bool) -> (g: Gate)
        ensures
            has_authorization ==> g is Forward,
            !has_authorization ==> (g matches Gate::Answer(r) && r.status == 200 && r.body@
                == denied_text()),
    {
        if has_authorization {
            Gate::Forward
        } else {
            Gate::Answer(Reply { status: 200, body: String::from_str("抱歉您没有权限啦啦哦哦～") })
        }
    }
}

} // verus!
