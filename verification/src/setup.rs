//! The order in which a tee's resources are acquired, and which failure is
//! reported for each.

use vstd::prelude::*;
use crate::config::BackingStoreKind;
use crate::config::TeeConfig;
use crate::error::TeeError;

verus! {

/// What happened to the last thing the caller was asked to do.
#[derive(Clone, Copy, Debug, PartialEq, Eq, Structural)]
pub enum SetupEvent {
    /// Construction begins.
    Begin,
    /// The backing store exists.
    StoreCreated,
    /// The backing store could not be created.
    StoreFailed,
    /// The relay has a handle of its own.
    HandleDuplicated,
    /// The handle could not be duplicated.
    DuplicationFailed,
}

/// What the caller does next.
#[derive(Clone, Copy, Debug, PartialEq, Eq, Structural)]
pub enum SetupAction {
    /// Create the backing store, of the given kind.
    CreateStore { kind: BackingStoreKind },
    /// Duplicate the store's handle for the relay's exclusive use.
    DuplicateHandle,
    /// Everything was acquired; start the relay thread if `relay` is set.
    Ready { relay: bool },
    /// Give up and report the error; no tee is handed out.
    Fail { error: TeeError },
}

/// The step that follows `event` while a tee with these options is built.
pub open spec fn setup_next(config: TeeConfig, event: SetupEvent) -> SetupAction {
    match event {
        SetupEvent::Begin => SetupAction::CreateStore { kind: config.backing_store_kind },
        SetupEvent::StoreCreated => if config.relay {
            SetupAction::DuplicateHandle
        } else {
            SetupAction::Ready { relay: false }
        },
        SetupEvent::StoreFailed => SetupAction::Fail { error: TeeError::BackingStore },
        SetupEvent::HandleDuplicated => SetupAction::Ready { relay: config.relay },
        SetupEvent::DuplicationFailed => SetupAction::Fail { error: TeeError::Duplication },
    }
}

/// Decides the next step of construction.
pub fn setup_step(config: TeeConfig, event: SetupEvent) -> (action: SetupAction)
    ensures
        action == setup_next(config, event),
{
    match event {
        SetupEvent::Begin => SetupAction::CreateStore { kind: config.backing_store_kind },
        SetupEvent::StoreCreated => {
            if config.relay {
                SetupAction::DuplicateHandle
            } else {
                SetupAction::Ready { relay: false }
            }
        },
        SetupEvent::StoreFailed => SetupAction::Fail { error: TeeError::BackingStore },
        SetupEvent::HandleDuplicated => SetupAction::Ready { relay: config.relay },
        SetupEvent::DuplicationFailed => SetupAction::Fail { error: TeeError::Duplication },
    }
}

/// Construction fails only when a resource could not be had, and then with
/// the error that names that resource.
pub proof fn setup_fails_only_on_failure(config: TeeConfig, event: SetupEvent)
    ensures
        setup_next(config, event) is Fail <==> (event is StoreFailed || event
            is DuplicationFailed),
        event is StoreFailed ==> setup_next(config, event) == (SetupAction::Fail {
            error: TeeError::BackingStore,
        }),
        event is DuplicationFailed ==> setup_next(config, event) == (SetupAction::Fail {
            error: TeeError::Duplication,
        }),
{
}

} // verus!
