use context_manager::protocol::advance;
use context_manager::protocol::HookEvent;
use context_manager::protocol::Stage;

#[test]
fn the_full_sequence_is_accepted() {
    let s = advance(Stage::Ready, HookEvent::Initialize);
    assert_eq!(s, Some(Stage::Initialized));
    let s = advance(s.unwrap(), HookEvent::Before);
    assert_eq!(s, Some(Stage::BeforeDone));
    let s = advance(s.unwrap(), HookEvent::Body);
    assert_eq!(s, Some(Stage::BodyDone));
    let s = advance(s.unwrap(), HookEvent::After);
    assert_eq!(s, Some(Stage::Finished));
}

#[test]
fn out_of_order_events_are_refused() {
    // The body may not run before the pre-hook has.
    assert_eq!(advance(Stage::Initialized, HookEvent::Body), None);
    // The pre-hook may not run before the context instance exists.
    assert_eq!(advance(Stage::Ready, HookEvent::Before), None);
    // The post-hook may not run before the body has.
    assert_eq!(advance(Stage::BeforeDone, HookEvent::After), None);
}

#[test]
fn no_hook_can_run_twice() {
    assert_eq!(advance(Stage::Initialized, HookEvent::Initialize), None);
    assert_eq!(advance(Stage::BeforeDone, HookEvent::Before), None);
    assert_eq!(advance(Stage::BodyDone, HookEvent::Body), None);
    // After the post-hook the call is over: nothing more is accepted.
    assert_eq!(advance(Stage::Finished, HookEvent::After), None);
    assert_eq!(advance(Stage::Finished, HookEvent::Initialize), None);
}
