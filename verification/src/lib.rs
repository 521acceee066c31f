//! Wrap a function's body with a user-supplied context that runs setup logic
//! before the body and teardown/observation logic after it, without changing
//! the function's signature or its callers.
//!
//! The crate has four parts:
//! - [`CallerContext`], the immutable per-call record handed to every hook;
//! - [`SyncWrapContext`], the hook protocol a context type implements, with
//!   `run_sync` as the entry point that sequences initialize, before, body and
//!   after;
//! - [`protocol`], that hook sequence as a small automaton, with proofs that
//!   it admits exactly one order and runs each hook exactly once per call;
//! - [`transform`], the build-time rewriter that turns an annotated function's
//!   body into a call of the protocol's entry point, or rejects the
//!   annotation with a diagnostic.
#![allow(unused_imports)]

use vstd::prelude::*;

pub mod protocol;
pub mod t_sync;
pub mod transform;

pub use crate::t_sync::SyncWrapContext;

verus! {

/// Context about the caller propagated into the hooks: the identity of the
/// wrapped function, fixed when the value is built and never mutated.
#[derive(Debug)]
pub struct CallerContext {
    /// Name of the wrapped function.
    fn_name: &'static str,
}

impl View for CallerContext {
    type V = Seq<char>;

    closed spec fn view(&self) -> Seq<char> {
        self.fn_name@
    }
}

impl CallerContext {
    /// Create a new instance of the `CallerContext`.
    #[must_use]
    pub fn new(fn_name: &'static str) -> (r: Self)
        ensures
            r@ == fn_name@,
    {
        Self { fn_name }
    }

    /// Name of the wrapped function, exactly as it was given to [`Self::new`].
    #[must_use]
    pub fn fn_name(&self) -> (r: &str)
        ensures
            r@ == self@,
    {
        self.fn_name
    }
}

} // verus!
