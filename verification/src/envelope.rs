//! The uniform result envelope returned by every core operation.
//!
//! An envelope with `error` present reports a fatal or infrastructure
//! failure.  An envelope with `result == false` and no `error` reports a
//! business-rule rejection.  An envelope with `result == true` reports
//! success, with the operation's payload in `data` when it has one.

use vstd::prelude::*;

verus! {

/// The result-with-error envelope: `result` says whether the operation
/// succeeded, `message` carries the human-readable outcome, `data` the
/// payload of a successful read, and `error` a fatal failure.
#[derive(Debug)]
pub struct ActionResult<T, E> {
    pub result: bool,
    pub message: String,
    pub data: Option<T>,
    pub error: Option<E>,
}

impl<T, E> ActionResult<T, E> {
    /// A business-rule rejection: not succeeded, but no fatal error either.
    pub open spec fn is_business_rejection(&self) -> bool {
        !self.result && self.error is None
    }

    /// A fatal or infrastructure failure.
    pub open spec fn is_fatal(&self) -> bool {
        self.error is Some
    }

    /// A successful outcome.
    pub open spec fn is_success(&self) -> bool {
        self.result && self.error is None
    }
}

impl<T> ActionResult<T, String> {
    /// A success envelope with no payload beyond the message.
    pub fn success(msg: &str) -> (r: Self)
        ensures
            r.is_success(),
            r.data is None,
            r.message@ == msg@,
    {
        Self { result: true, message: msg.to_owned(), data: None, error: None }
    }

    /// A business-rule rejection with the given reason.
    pub fn rejection(msg: &str) -> (r: Self)
        ensures
            r.is_business_rejection(),
            r.data is None,
            r.message@ == msg@,
    {
        Self { result: false, message: msg.to_owned(), data: None, error: None }
    }

    /// A fatal failure with the given description.
    pub fn fatal(msg: &str) -> (r: Self)
        ensures
            r.is_fatal(),
            !r.result,
            r.data is None,
            r.error matches Some(e) && e@ == msg@,
    {
        Self { result: false, message: String::new(), data: None, error: Some(msg.to_owned()) }
    }
}

impl<T, E> Default for ActionResult<T, E> {
    /// The empty envelope: a failure with no message, payload or error yet.
    fn default() -> (r: Self)
        ensures
            !r.result,
            r.message@ == Seq::<char>::empty(),
            r.data is None,
            r.error is None,
    {
        Self { result: false, message: String::new(), data: None, error: None }
    }
}

} // verus!
