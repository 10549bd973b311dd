use stdio_tee::config::BackingStoreKind;
use stdio_tee::config::TeeConfig;
use stdio_tee::error::Operation;
use stdio_tee::error::TeeError;
use stdio_tee::setup::setup_step;
use stdio_tee::setup::SetupAction;
use stdio_tee::setup::SetupEvent;
use stdio_tee::teardown::TeardownAction;
use stdio_tee::teardown::TeardownEvent;
use stdio_tee::teardown::TeeState;

#[test]
fn config_variants() {
    let relayed = TeeConfig::with_relay();
    assert_eq!(relayed.backing_store_kind, BackingStoreKind::Anonymous);
    assert!(relayed.relay);
    let captured = TeeConfig::capture_only();
    assert_eq!(captured.backing_store_kind, BackingStoreKind::Anonymous);
    assert!(!captured.relay);
    let named = relayed.backed_by(BackingStoreKind::Named);
    assert_eq!(named, TeeConfig { backing_store_kind: BackingStoreKind::Named, relay: true });
}

#[test]
fn setup_with_relay_creates_duplicates_and_starts_the_thread() {
    let config = TeeConfig::with_relay();
    assert_eq!(
        setup_step(config, SetupEvent::Begin),
        SetupAction::CreateStore { kind: BackingStoreKind::Anonymous }
    );
    assert_eq!(setup_step(config, SetupEvent::StoreCreated), SetupAction::DuplicateHandle);
    assert_eq!(
        setup_step(config, SetupEvent::HandleDuplicated),
        SetupAction::Ready { relay: true }
    );
}

#[test]
fn setup_capture_only_needs_no_second_handle() {
    let config = TeeConfig::capture_only().backed_by(BackingStoreKind::Named);
    assert_eq!(
        setup_step(config, SetupEvent::Begin),
        SetupAction::CreateStore { kind: BackingStoreKind::Named }
    );
    assert_eq!(
        setup_step(config, SetupEvent::StoreCreated),
        SetupAction::Ready { relay: false }
    );
}

#[test]
fn setup_reports_backing_store_error() {
    assert_eq!(
        setup_step(TeeConfig::with_relay(), SetupEvent::StoreFailed),
        SetupAction::Fail { error: TeeError::BackingStore }
    );
}

#[test]
fn setup_reports_duplication_error() {
    assert_eq!(
        setup_step(TeeConfig::with_relay(), SetupEvent::DuplicationFailed),
        SetupAction::Fail { error: TeeError::Duplication }
    );
}

#[test]
fn each_operation_has_its_error() {
    assert_eq!(TeeError::when_failed(Operation::CreateStore), TeeError::BackingStore);
    assert_eq!(TeeError::when_failed(Operation::DuplicateHandle), TeeError::Duplication);
    assert_eq!(TeeError::when_failed(Operation::QueryLength), TeeError::Read);
    assert_eq!(TeeError::when_failed(Operation::ReadStore), TeeError::Read);
    assert_eq!(TeeError::when_failed(Operation::WriteDestination), TeeError::Write);
}

#[test]
fn each_error_has_its_message() {
    assert_eq!(TeeError::BackingStore.message(), "the backing store could not be created");
    assert_eq!(
        TeeError::Duplication.message(),
        "a handle to the backing store could not be duplicated"
    );
    assert_eq!(TeeError::Read.message(), "reading the backing store failed");
    assert_eq!(TeeError::Write.message(), "writing to the destination stream failed");
}

#[test]
fn teardown_sets_the_flag_then_joins_then_closes() {
    let mut state = TeeState::new(true);
    assert_eq!(state.describe(), "TeeData(stopped: false)");
    assert_eq!(state.step(TeardownEvent::Released), TeardownAction::SetStop);
    assert!(!state.stopped);
    assert_eq!(state.step(TeardownEvent::StopSet), TeardownAction::Join);
    assert!(state.stopped);
    assert_eq!(state.describe(), "TeeData(stopped: true)");
    assert_eq!(state.step(TeardownEvent::Joined { outcome: Ok(()) }), TeardownAction::Close);
    assert_eq!(state, TeeState { stopped: true, thread: false });
}

#[test]
fn teardown_without_a_thread_closes_at_once() {
    let mut state = TeeState::new(false);
    assert_eq!(state.step(TeardownEvent::Released), TeardownAction::SetStop);
    assert_eq!(state.step(TeardownEvent::StopSet), TeardownAction::Close);
    assert_eq!(state, TeeState { stopped: true, thread: false });
}

#[test]
fn teardown_puts_a_relay_failure_aside() {
    let mut state = TeeState::new(true);
    state.step(TeardownEvent::Released);
    state.step(TeardownEvent::StopSet);
    let action = state.step(TeardownEvent::Joined { outcome: Err(TeeError::Write) });
    assert_eq!(action, TeardownAction::Close);
    assert_eq!(state, TeeState { stopped: true, thread: false });
}

#[test]
fn stop_flag_stays_set() {
    let mut state = TeeState::new(true);
    state.step(TeardownEvent::StopSet);
    for event in [
        TeardownEvent::Released,
        TeardownEvent::StopSet,
        TeardownEvent::Joined { outcome: Ok(()) },
        TeardownEvent::Released,
    ] {
        state.step(event);
        assert!(state.stopped);
    }
}
