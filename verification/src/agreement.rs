//! What the relay forwards and what a retrieval hands out are two views of
//! one store, and so they agree.

use vstd::prelude::*;
use crate::capture::capture_after;
use crate::capture::capture_fed_from;
use crate::capture::capture_holds_head_of_store;
use crate::capture::capture_next;
use crate::capture::CaptureEventView;
use crate::capture::CaptureView;
use crate::config::TeeConfig;
use crate::error::Operation;
use crate::error::TeeError;
use crate::relay::relay_after;
use crate::relay::relay_fed_from;
use crate::relay::relay_forwards_head_of_store;
use crate::relay::relay_next;
use crate::relay::relay_offset_counts_forwarded;
use crate::relay::RelayEventView;
use crate::relay::RelayView;
use crate::setup::setup_next;
use crate::setup::SetupAction;
use crate::setup::SetupEvent;

verus! {

/// A relay and a retrieval that were both fed from one store agree byte for
/// byte as far as both reach. Once the relay's offset has reached the length
/// of what a retrieval handed out, every byte of that output has been handed
/// to the destination, in the same order; and a retrieval never hands out a
/// byte that differs from what the relay forwarded at that place.
pub proof fn forwarded_and_captured_agree(
    store: Seq<u8>,
    relayed: Seq<RelayEventView>,
    retrieved: Seq<CaptureEventView>,
)
    requires
        relay_fed_from(store, RelayView::initial(), relayed),
        capture_fed_from(store, CaptureView::initial(), retrieved),
    ensures
        ({
            let forwarded = relay_after(RelayView::initial(), relayed).forwarded;
            let captured = capture_after(CaptureView::initial(), retrieved).bytes;
            &&& forall|i: int|
                0 <= i < forwarded.len() && i < captured.len() ==> forwarded[i] == captured[i]
            &&& captured.len() <= forwarded.len() ==> captured == forwarded.subrange(
                0,
                captured.len() as int,
            )
            &&& forwarded.len() <= captured.len() ==> forwarded == captured.subrange(
                0,
                forwarded.len() as int,
            )
        }),
{
    relay_forwards_head_of_store(store, relayed);
    capture_holds_head_of_store(store, retrieved);
    relay_offset_counts_forwarded(relayed);
    let forwarded = relay_after(RelayView::initial(), relayed).forwarded;
    let captured = capture_after(CaptureView::initial(), retrieved).bytes;
    if captured.len() <= forwarded.len() {
        assert(captured =~= forwarded.subrange(0, captured.len() as int));
    }
    if forwarded.len() <= captured.len() {
        assert(forwarded =~= captured.subrange(0, forwarded.len() as int));
    }
}

/// Construction, relay and retrieval report a failed operation with one and
/// the same error: the one that [`TeeError::when_failed`] gives for it.
pub proof fn failures_are_reported_alike(config: TeeConfig, relay: RelayView, capture: CaptureView)
    requires
        relay.outcome is None,
        capture.error is None,
    ensures
        setup_next(config, SetupEvent::StoreFailed) == (SetupAction::Fail {
            error: TeeError::when_failed(Operation::CreateStore),
        }),
        setup_next(config, SetupEvent::DuplicationFailed) == (SetupAction::Fail {
            error: TeeError::when_failed(Operation::DuplicateHandle),
        }),
        relay_next(relay, RelayEventView::ReadFailed).0.outcome == Some(
            Err::<(), TeeError>(TeeError::when_failed(Operation::ReadStore)),
        ),
        relay_next(relay, RelayEventView::WriteFailed).0.outcome == Some(
            Err::<(), TeeError>(TeeError::when_failed(Operation::WriteDestination)),
        ),
        capture_next(capture, CaptureEventView::DuplicationFailed).error == Some(
            TeeError::when_failed(Operation::DuplicateHandle),
        ),
        capture_next(capture, CaptureEventView::LengthFailed).error == Some(
            TeeError::when_failed(Operation::QueryLength),
        ),
        capture_next(capture, CaptureEventView::ReadFailed).error == Some(
            TeeError::when_failed(Operation::ReadStore),
        ),
{
}

} // verus!
