//! The blocking variant of the hook protocol: initialization and the two
//! hooks execute synchronously on the calling thread.

use vstd::prelude::*;

use crate::protocol::{
    complete_trace, lemma_full_trace_complete, full_trace, HookEvent,
};
use crate::CallerContext;

verus! {

/// Hook protocol over a result type `T`, blocking variant.
///
/// A context type implements `new` (and optionally `before` and `after`) and
/// is then run around a function body through [`Self::run_sync`], which
/// sequences the hooks in the fixed order: initialize, `before`, body,
/// `after`. Each call gets its own fresh context instance, exclusively owned
/// by that call; `after` takes the instance by value, so it is consumed and
/// cannot run twice.
///
/// Any failure inside `new`, `before`, the body or `after` propagates to the
/// caller unmodified: the protocol adds no recovery layer.
pub trait SyncWrapContext<T>: Sized {
    /// Initialize the context: build the one instance owned by this call.
    fn new() -> Self;

    /// Execute code before the wrapped body runs.
    ///
    /// Parameters:
    /// - `caller_context`: identity of the function being wrapped
    fn before(&self, caller_context: &CallerContext) {
    }

    /// Execute code after the wrapped body has run, observing its result by
    /// reference. Takes the context instance by value: the instance is
    /// consumed and cannot be used again.
    ///
    /// Parameters:
    /// - `caller_context`: identity of the function being wrapped
    /// - `result`: the result the wrapped body produced
    fn after(self, caller_context: &CallerContext, result: &T) {
    }

    /// Execute a synchronous block of code wrapped by the context: a fresh
    /// context instance is created, `before` runs, then `block`, then
    /// `after`, and `block`'s result is returned unchanged.
    ///
    /// Parameters:
    /// - `caller_context`: identity of the function being wrapped
    /// - `block`: the callable to wrap and execute; it is called exactly once
    fn run_sync<F: FnOnce() -> T>(caller_context: CallerContext, block: F) -> (r: T)
        requires
            call_requires(block, ()),
        ensures
            call_ensures(block, (), r),
    {
        // The ghost trace records the hook sequence this body performs; at
        // the end it is a complete run of the protocol automaton of
        // `crate::protocol`, whose lemmas show the sequence admits no
        // skipped, reordered or repeated hook.
        let ghost mut trace: Seq<HookEvent> = Seq::empty();
        let context = Self::new();
        proof {
            trace = trace.push(HookEvent::Initialize);
        }
        context.before(&caller_context);
        proof {
            trace = trace.push(HookEvent::Before);
        }
        let result = block();
        proof {
            trace = trace.push(HookEvent::Body);
        }
        context.after(&caller_context, &result);
        proof {
            trace = trace.push(HookEvent::After);
            assert(trace =~= full_trace());
            lemma_full_trace_complete();
            assert(complete_trace(trace));
        }
        result
    }
}

} // verus!
