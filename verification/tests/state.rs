use sgl_router::state::AppState;

#[test]
fn state_holds_what_it_was_made_of() {
    let state = AppState::new(Ok("router"), 7, 64).unwrap();
    assert_eq!(*state.router(), "router");
    assert_eq!(*state.client(), 7);
    assert!(format!("{:?}", state).contains("permits: 64"));
    let copy = state.clone();
    assert_eq!(*copy.router(), "router");
    assert_eq!(*copy.client(), 7);
    assert!(format!("{:?}", copy).contains("permits: 64"));
}

#[test]
fn state_fails_as_the_router_did() {
    let failed: Result<AppState<(), ()>, String> = AppState::new(Err("no workers".to_string()), (), 64);
    assert_eq!(failed.unwrap_err(), "no workers");
    let failed: Result<AppState<(), ()>, String> =
        AppState::new(Err("no workers".to_string()), (), usize::MAX);
    assert_eq!(failed.unwrap_err(), "no workers");
}

#[test]
fn state_takes_the_largest_limit() {
    assert!(AppState::new(Ok(()), (), usize::MAX >> 3).is_ok());
    assert!(AppState::new(Ok(()), (), 0).is_ok());
}
