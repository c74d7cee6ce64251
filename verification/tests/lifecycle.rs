use hello_near::Contract;
use hello_near::lifecycle::dispatch;
use hello_near::lifecycle::initialize;
use hello_near::lifecycle::query_greeting;
use hello_near::lifecycle::CallError;
use hello_near::lifecycle::EntryPoint;
use hello_near::lifecycle::StateSlot;

#[test]
fn query_before_initialization_is_rejected() {
    let slot = StateSlot::Empty;
    assert_eq!(query_greeting(&slot), Err(CallError::Uninitialized));
}

#[test]
fn initialize_once_succeeds() {
    let mut slot = StateSlot::Empty;
    assert_eq!(initialize(&mut slot), Ok(()));
    assert!(matches!(slot, StateSlot::Stored(_)));
}

#[test]
fn initialize_twice_is_rejected_without_a_write() {
    let mut slot = StateSlot::Empty;
    assert_eq!(initialize(&mut slot), Ok(()));
    let stored = slot;
    assert_eq!(initialize(&mut slot), Err(CallError::AlreadyInitialized));
    assert_eq!(slot, stored);
}

#[test]
fn query_after_initialization_always_greets() {
    let mut slot = StateSlot::Empty;
    assert_eq!(initialize(&mut slot), Ok(()));
    let stored = slot;
    for _ in 0..5 {
        assert_eq!(query_greeting(&slot), Ok("Hello, NEAR!".to_string()));
        assert_eq!(slot, stored);
    }
}

#[test]
fn hello_world_returns_the_exact_text() {
    let contract = Contract::new();
    assert_eq!(contract.hello_world(), "Hello, NEAR!".to_string());
}

#[test]
fn full_session_initialize_query_reinitialize() {
    let mut slot = StateSlot::Empty;
    assert_eq!(dispatch(&mut slot, EntryPoint::New), Ok(None));
    assert_eq!(
        dispatch(&mut slot, EntryPoint::HelloWorld),
        Ok(Some("Hello, NEAR!".to_string()))
    );
    assert_eq!(
        dispatch(&mut slot, EntryPoint::New),
        Err(CallError::AlreadyInitialized)
    );
    assert!(matches!(slot, StateSlot::Stored(_)));
}

#[test]
fn query_on_a_fresh_deployment_is_rejected() {
    let mut slot = StateSlot::Empty;
    assert_eq!(
        dispatch(&mut slot, EntryPoint::HelloWorld),
        Err(CallError::Uninitialized)
    );
    assert_eq!(slot, StateSlot::Empty);
}
