use voicevox_binding::lifecycle::EngineState;

#[test]
fn a_fresh_engine_is_uninitialized() {
    assert_eq!(EngineState::new(), EngineState::Uninitialized);
    assert!(!EngineState::new().is_ready());
}

#[test]
fn a_successful_initialize_makes_the_engine_ready() {
    let state = EngineState::new().after_initialize(0);
    assert_eq!(state, EngineState::Ready);
    assert!(state.is_ready());
}

#[test]
fn a_failed_initialize_changes_nothing() {
    assert_eq!(EngineState::Uninitialized.after_initialize(1), EngineState::Uninitialized);
    assert_eq!(EngineState::Ready.after_initialize(-7), EngineState::Ready);
    assert_eq!(EngineState::Finalized.after_initialize(12), EngineState::Finalized);
}

#[test]
fn finalize_is_allowed_in_every_state() {
    assert_eq!(EngineState::Uninitialized.after_finalize(), EngineState::Finalized);
    assert_eq!(EngineState::Ready.after_finalize(), EngineState::Finalized);
    assert_eq!(EngineState::Finalized.after_finalize(), EngineState::Finalized);
    assert!(!EngineState::Ready.after_finalize().is_ready());
}

#[test]
fn a_full_life_can_be_lived_again() {
    let once = EngineState::new().after_initialize(0).after_finalize();
    assert_eq!(once, EngineState::Finalized);
    let twice = once.after_initialize(0);
    assert_eq!(twice, EngineState::Ready);
    assert_eq!(twice.after_finalize(), EngineState::Finalized);
}
