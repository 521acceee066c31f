//! The fixed hook sequence of a single wrapped call, as a small state
//! machine: initialize, then before, then the body, then after, each exactly
//! once. Both protocol variants (the blocking one and the suspending one)
//! follow this same sequence.

use vstd::prelude::*;

verus! {

/// One step of the hook protocol during a single call.
#[derive(Clone, Copy, Debug, PartialEq, Eq, Structural)]
pub enum HookEvent {
    /// The context instance is created.
    Initialize,
    /// The pre-hook runs on the fresh context instance.
    Before,
    /// The original function body runs to produce the result.
    Body,
    /// The post-hook consumes the context instance and observes the result.
    After,
}

/// Where a single call stands in the hook sequence.
#[derive(Clone, Copy, Debug, PartialEq, Eq, Structural)]
pub enum Stage {
    /// The call has started; no hook has run yet.
    Ready,
    /// The context instance exists; `before` has not run.
    Initialized,
    /// `before` has run; the body has not.
    BeforeDone,
    /// The body has produced the result; `after` has not run.
    BodyDone,
    /// `after` has consumed the context instance; the call returns.
    Finished,
}

/// The protocol automaton: from `s`, event `e` is allowed exactly when this
/// returns `Some`, and the call then stands at the returned stage.
pub open spec fn stage_after(s: Stage, e: HookEvent) -> Option<Stage> {
    match (s, e) {
        (Stage::Ready, HookEvent::Initialize) => Some(Stage::Initialized),
        (Stage::Initialized, HookEvent::Before) => Some(Stage::BeforeDone),
        (Stage::BeforeDone, HookEvent::Body) => Some(Stage::BodyDone),
        (Stage::BodyDone, HookEvent::After) => Some(Stage::Finished),
        _ => None,
    }
}

/// Advance one call through the hook sequence; `None` means the event is not
/// allowed at this stage. A runner that drives the hooks through this
/// function can take no step out of order and no step twice.
pub fn advance(s: Stage, e: HookEvent) -> (r: Option<Stage>)
    ensures
        r == stage_after(s, e),
{
    match (s, e) {
        (Stage::Ready, HookEvent::Initialize) => Some(Stage::Initialized),
        (Stage::Initialized, HookEvent::Before) => Some(Stage::BeforeDone),
        (Stage::BeforeDone, HookEvent::Body) => Some(Stage::BodyDone),
        (Stage::BodyDone, HookEvent::After) => Some(Stage::Finished),
        _ => None,
    }
}

/// Where a call stands after the events of `t`, in order, starting from
/// [`Stage::Ready`]; `None` means some event came out of order.
pub open spec fn stage_after_trace(t: Seq<HookEvent>) -> Option<Stage>
    decreases t.len(),
{
    if t.len() == 0 {
        Some(Stage::Ready)
    } else {
        match stage_after_trace(t.drop_last()) {
            Some(s) => stage_after(s, t.last()),
            None => None,
        }
    }
}

/// A trace that carries one call from its start to its return.
pub open spec fn complete_trace(t: Seq<HookEvent>) -> bool {
    stage_after_trace(t) == Some(Stage::Finished)
}

/// The one event sequence of a complete call.
pub open spec fn full_trace() -> Seq<HookEvent> {
    seq![HookEvent::Initialize, HookEvent::Before, HookEvent::Body, HookEvent::After]
}

/// The stage a call stands at after its first `n` hook events.
pub open spec fn stage_at(n: int) -> Stage {
    if n == 0 {
        Stage::Ready
    } else if n == 1 {
        Stage::Initialized
    } else if n == 2 {
        Stage::BeforeDone
    } else if n == 3 {
        Stage::BodyDone
    } else {
        Stage::Finished
    }
}

/// The full sequence is a complete run of the protocol.
pub proof fn lemma_full_trace_complete()
    ensures
        complete_trace(full_trace()),
{
    let t1 = seq![HookEvent::Initialize];
    let t2 = seq![HookEvent::Initialize, HookEvent::Before];
    let t3 = seq![HookEvent::Initialize, HookEvent::Before, HookEvent::Body];
    assert(stage_after_trace(Seq::<HookEvent>::empty()) == Some(Stage::Ready));
    assert(t1.drop_last() =~= Seq::<HookEvent>::empty());
    assert(stage_after_trace(t1) == Some(Stage::Initialized));
    assert(t2.drop_last() =~= t1);
    assert(stage_after_trace(t2) == Some(Stage::BeforeDone));
    assert(t3.drop_last() =~= t2);
    assert(stage_after_trace(t3) == Some(Stage::BodyDone));
    assert(full_trace().drop_last() =~= t3);
    assert(stage_after_trace(full_trace()) == Some(Stage::Finished));
}

/// Every run of the protocol, complete or not, is a prefix of the one full
/// sequence: the automaton leaves no room for a skipped, reordered or
/// repeated hook.
pub proof fn lemma_trace_is_prefix(t: Seq<HookEvent>)
    requires
        stage_after_trace(t) is Some,
    ensures
        t.len() <= 4,
        t =~= full_trace().subrange(0, t.len() as int),
        stage_after_trace(t) == Some(stage_at(t.len() as int)),
    decreases t.len(),
{
    if t.len() == 0 {
    } else {
        let p = t.drop_last();
        lemma_trace_is_prefix(p);
        assert(stage_after(stage_at(p.len() as int), t.last()) is Some);
        assert(t =~= full_trace().subrange(0, t.len() as int));
    }
}

/// Ordering: the only complete run of the hook protocol is initialize, then
/// before, then the body, then after — strictly in that order, each exactly
/// once.
pub proof fn lemma_hook_ordering(t: Seq<HookEvent>)
    requires
        complete_trace(t),
    ensures
        t =~= full_trace(),
{
    lemma_trace_is_prefix(t);
    assert(t.len() == 4);
    assert(full_trace().subrange(0, 4) =~= full_trace());
}

/// Single use: within one run of the protocol, complete or not, no hook
/// event occurs twice — in particular, the post-hook, which consumes the
/// context instance, runs at most once per call.
pub proof fn lemma_hooks_single_use(t: Seq<HookEvent>, i: int, j: int)
    requires
        stage_after_trace(t) is Some,
        0 <= i < j < t.len(),
    ensures
        t[i] != t[j],
{
    lemma_trace_is_prefix(t);
    assert(t[i] == full_trace()[i]);
    assert(t[j] == full_trace()[j]);
}

} // verus!
