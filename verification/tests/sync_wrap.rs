use std::sync::atomic::AtomicUsize;
use std::sync::atomic::Ordering;

use context_manager::CallerContext;
use context_manager::SyncWrapContext;

static VALUE: AtomicUsize = AtomicUsize::new(100);

struct Doubling;

impl SyncWrapContext<usize> for Doubling {
    fn new() -> Self {
        Self
    }

    fn before(&self, _: &CallerContext) {
        // Reset the value to 0, which the wrapped body then observes.
        VALUE.store(0, Ordering::Relaxed);
    }

    fn after(self, _: &CallerContext, result: &usize) {
        VALUE.store(2 * (*result), Ordering::Relaxed);
    }
}

#[test]
fn wrapper_usage_on_sync_function() {
    assert_eq!(
        Doubling::run_sync(CallerContext::new("test"), || {
            assert_eq!(VALUE.load(Ordering::Relaxed), 0);
            42
        }),
        42,
    );

    // The return value is doubled in the after hook.
    assert_eq!(VALUE.load(Ordering::Relaxed), 84);
}

static STEP: AtomicUsize = AtomicUsize::new(0);

struct Ordered;

impl SyncWrapContext<usize> for Ordered {
    fn new() -> Self {
        let s = STEP.fetch_add(1, Ordering::Relaxed);
        assert_eq!(s % 4, 0);
        Self
    }

    fn before(&self, _: &CallerContext) {
        let s = STEP.fetch_add(1, Ordering::Relaxed);
        assert_eq!(s % 4, 1);
    }

    fn after(self, _: &CallerContext, _: &usize) {
        let s = STEP.fetch_add(1, Ordering::Relaxed);
        assert_eq!(s % 4, 3);
    }
}

#[test]
fn hooks_run_in_order_once_per_call() {
    // Two back-to-back calls: each sees initialize, before, body, after in
    // strict sequence, with no interleaving and no repetition.
    for call in 0..2usize {
        let got = Ordered::run_sync(CallerContext::new("ordered"), || {
            let s = STEP.fetch_add(1, Ordering::Relaxed);
            assert_eq!(s % 4, 2);
            call + 7
        });
        assert_eq!(got, call + 7);
    }
    assert_eq!(STEP.load(Ordering::Relaxed), 8);
}

struct PassThrough;

impl<T> SyncWrapContext<T> for PassThrough {
    fn new() -> Self {
        Self
    }
}

fn debug_fmt<T: std::fmt::Debug>(v: &T) -> String {
    PassThrough::run_sync(CallerContext::new("debug_fmt"), move || format!("{:?}", v))
}

#[test]
fn generic_passthrough() {
    let x: i32 = 5;
    let unwrapped = format!("{:?}", &x);
    assert_eq!(debug_fmt(&x), unwrapped);
}

#[test]
fn wrapping_returns_the_body_value_unchanged() {
    let values = vec![0usize, 1, 41, 42, usize::MAX];
    for v in values {
        let got = PassThrough::run_sync(CallerContext::new("identity"), move || v);
        assert_eq!(got, v);
    }
}

static FOO_HOOKS: AtomicUsize = AtomicUsize::new(0);

struct NamedFoo;

impl SyncWrapContext<usize> for NamedFoo {
    fn new() -> Self {
        Self
    }

    fn before(&self, caller_context: &CallerContext) {
        assert_eq!(caller_context.fn_name(), "foo");
        FOO_HOOKS.fetch_add(1, Ordering::Relaxed);
    }

    fn after(self, caller_context: &CallerContext, _: &usize) {
        assert_eq!(caller_context.fn_name(), "foo");
        FOO_HOOKS.fetch_add(1, Ordering::Relaxed);
    }
}

fn foo() -> usize {
    NamedFoo::run_sync(CallerContext::new("foo"), move || 3)
}

#[test]
fn caller_identification() {
    assert_eq!(CallerContext::new("foo").fn_name(), "foo");
    // Both hooks of both calls saw the name, regardless of call site.
    assert_eq!(foo(), 3);
    let indirect = foo;
    assert_eq!(indirect(), 3);
    assert_eq!(FOO_HOOKS.load(Ordering::Relaxed), 4);
}
