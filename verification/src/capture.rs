//! Retrieval: reading back everything that the backing store holds.
//!
//! Like the relay, retrieval is a state machine. The caller duplicates the
//! store's handle, asks how long the store is, and reads by position until
//! that many bytes are in hand; [`Capture::step`] decides each step and
//! assembles the bytes in the order of their offsets.

use vstd::prelude::*;
use crate::error::TeeError;
use crate::store::grows_to;
use crate::store::head;
use crate::store::is_read_at;

verus! {

/// What happened to the last action.
#[derive(Debug, PartialEq, Eq)]
pub enum CaptureEvent {
    /// The caller has a handle of its own to read through.
    HandleDuplicated,
    /// The handle could not be duplicated.
    DuplicationFailed,
    /// The store is `len` bytes long at this moment.
    Length { len: usize },
    /// The store's length could not be had.
    LengthFailed,
    /// The positional read returned these bytes.
    Chunk { bytes: Vec<u8> },
    /// The positional read failed.
    ReadFailed,
}

/// What the caller does next.
#[derive(Clone, Copy, Debug, PartialEq, Eq)]
pub enum CaptureAction {
    /// Duplicate the store's handle.
    DuplicateHandle,
    /// Ask for the store's current length.
    QueryLength,
    /// Read at most `limit` bytes of the store at `offset`, without moving
    /// any shared position.
    ReadAt { offset: u64, limit: usize },
    /// Nothing is left to do: take the output.
    Finish,
}

/// A [`CaptureEvent`] over mathematical values.
pub enum CaptureEventView {
    HandleDuplicated,
    DuplicationFailed,
    Length { len: nat },
    LengthFailed,
    Chunk { bytes: Seq<u8> },
    ReadFailed,
}

/// A [`CaptureAction`] over mathematical values.
pub enum CaptureActionView {
    DuplicateHandle,
    QueryLength,
    ReadAt { offset: nat, limit: nat },
    Finish,
}

/// A retrieval's state over mathematical values.
pub struct CaptureView {
    /// The length that the store had when it was asked, once it was asked.
    pub target: Option<nat>,
    /// The bytes in hand: those that stand first in the store.
    pub bytes: Seq<u8>,
    /// The failure that ended the retrieval, if one did.
    pub error: Option<TeeError>,
}

impl View for CaptureEvent {
    type V = CaptureEventView;

    open spec fn view(&self) -> CaptureEventView {
        match *self {
            CaptureEvent::HandleDuplicated => CaptureEventView::HandleDuplicated,
            CaptureEvent::DuplicationFailed => CaptureEventView::DuplicationFailed,
            CaptureEvent::Length { len } => CaptureEventView::Length { len: len as nat },
            CaptureEvent::LengthFailed => CaptureEventView::LengthFailed,
            CaptureEvent::Chunk { bytes } => CaptureEventView::Chunk { bytes: bytes@ },
            CaptureEvent::ReadFailed => CaptureEventView::ReadFailed,
        }
    }
}

impl View for CaptureAction {
    type V = CaptureActionView;

    open spec fn view(&self) -> CaptureActionView {
        match *self {
            CaptureAction::DuplicateHandle => CaptureActionView::DuplicateHandle,
            CaptureAction::QueryLength => CaptureActionView::QueryLength,
            CaptureAction::ReadAt { offset, limit } => CaptureActionView::ReadAt {
                offset: offset as nat,
                limit: limit as nat,
            },
            CaptureAction::Finish => CaptureActionView::Finish,
        }
    }
}

impl CaptureView {
    /// The state of a retrieval that has done nothing yet.
    pub open spec fn initial() -> CaptureView {
        CaptureView { target: None, bytes: Seq::empty(), error: None }
    }

    /// This state, ended by `error`.
    pub open spec fn failed_with(self, error: TeeError) -> CaptureView {
        CaptureView { error: Some(error), ..self }
    }

    /// How many bytes are still to be read; `0` while the length is unknown.
    pub open spec fn missing(self) -> nat {
        match self.target {
            Some(target) if self.bytes.len() < target => (target - self.bytes.len()) as nat,
            _ => 0,
        }
    }

    /// This state after a read at the end of the bytes in hand returned
    /// `chunk`: as much of it as is still missing is kept.
    pub open spec fn extended_by(self, chunk: Seq<u8>) -> CaptureView {
        let kept = if chunk.len() <= self.missing() {
            chunk
        } else {
            chunk.subrange(0, self.missing() as int)
        };
        CaptureView { bytes: self.bytes + kept, ..self }
    }

    /// What is to be done in this state: nothing after a failure; else to ask
    /// for the length while it is unknown; else to read what is missing, at
    /// the end of what is in hand; else nothing.
    pub open spec fn pending(self) -> CaptureActionView {
        if self.error is Some {
            CaptureActionView::Finish
        } else if self.target is None {
            CaptureActionView::QueryLength
        } else if self.missing() > 0 {
            CaptureActionView::ReadAt { offset: self.bytes.len(), limit: self.missing() }
        } else {
            CaptureActionView::Finish
        }
    }

    /// What the retrieval hands out in this state: the failure, if there was
    /// one, and else the bytes in hand.
    pub open spec fn output(self) -> Result<Seq<u8>, TeeError> {
        match self.error {
            Some(error) => Err(error),
            None => Ok(self.bytes),
        }
    }

    /// The bytes in hand never exceed the length that the store was found to
    /// have, and none are in hand before that length is known.
    pub open spec fn wf(self) -> bool {
        &&& self.target matches Some(target) ==> self.bytes.len() <= target
        &&& self.target is None ==> self.bytes.len() == 0
    }
}

/// The state that follows `event` in state `pre`; the action that follows is
/// what is pending in that state.
///
/// After a failure nothing changes any more. A failed duplication ends the
/// retrieval with `Duplication`, a failed length query or read with `Read`.
/// The first length that is reported is kept as the target. A chunk that
/// arrives once the target is known is appended, cut to what is missing.
pub open spec fn capture_next(pre: CaptureView, event: CaptureEventView) -> CaptureView {
    if pre.error is Some {
        pre
    } else {
        match event {
            CaptureEventView::HandleDuplicated => pre,
            CaptureEventView::DuplicationFailed => pre.failed_with(TeeError::Duplication),
            CaptureEventView::Length { len } => if pre.target is None {
                CaptureView { target: Some(len), ..pre }
            } else {
                pre
            },
            CaptureEventView::LengthFailed => pre.failed_with(TeeError::Read),
            CaptureEventView::Chunk { bytes } => pre.extended_by(bytes),
            CaptureEventView::ReadFailed => pre.failed_with(TeeError::Read),
        }
    }
}

/// A retrieval in progress.
pub struct Capture {
    target: Option<usize>,
    buf: Vec<u8>,
    error: Option<TeeError>,
}

impl View for Capture {
    type V = CaptureView;

    closed spec fn view(&self) -> CaptureView {
        CaptureView {
            target: match self.target {
                Some(target) => Some(target as nat),
                None => None,
            },
            bytes: self.buf@,
            error: self.error,
        }
    }
}

impl Capture {
    /// A retrieval that has nothing in hand, together with its first action:
    /// to duplicate the store's handle.
    pub fn start() -> (started: (Capture, CaptureAction))
        ensures
            started.0@ == CaptureView::initial(),
            started.0@.wf(),
            started.1@ == CaptureActionView::DuplicateHandle,
    {
        (Capture { target: None, buf: Vec::new(), error: None }, CaptureAction::DuplicateHandle)
    }

    /// Takes in what happened and decides what to do next, as
    /// [`capture_next`] says.
    pub fn step(&mut self, event: CaptureEvent) -> (action: CaptureAction)
        ensures
            final(self)@ == capture_next(old(self)@, event@),
            old(self)@.wf() ==> final(self)@.wf(),
            action@ == final(self)@.pending(),
    {
        if self.error.is_none() {
            match event {
                CaptureEvent::HandleDuplicated => {},
                CaptureEvent::DuplicationFailed => {
                    self.error = Some(TeeError::Duplication);
                },
                CaptureEvent::Length { len } => {
                    if self.target.is_none() {
                        self.target = Some(len);
                    }
                },
                CaptureEvent::LengthFailed | CaptureEvent::ReadFailed => {
                    self.error = Some(TeeError::Read);
                },
                CaptureEvent::Chunk { bytes } => {
                    let missing: usize = self.missing();
                    let mut kept = bytes;
                    if kept.len() > missing {
                        kept.truncate(missing);
                    }
                    self.buf.append(&mut kept);
                },
            }
        }
        self.pending()
    }

    /// How many bytes are still to be read.
    pub fn missing(&self) -> (missing: usize)
        ensures
            missing == self@.missing(),
    {
        match self.target {
            Some(target) => {
                if self.buf.len() < target {
                    target - self.buf.len()
                } else {
                    0
                }
            },
            None => 0,
        }
    }

    /// What is to be done in this state.
    pub fn pending(&self) -> (action: CaptureAction)
        ensures
            action@ == self@.pending(),
    {
        if self.error.is_some() {
            CaptureAction::Finish
        } else if self.target.is_none() {
            CaptureAction::QueryLength
        } else {
            let missing: usize = self.missing();
            if missing > 0 {
                CaptureAction::ReadAt { offset: self.buf.len() as u64, limit: missing }
            } else {
                CaptureAction::Finish
            }
        }
    }

    /// Ends the retrieval and hands out the failure, if there was one, and
    /// else the bytes in hand.
    pub fn into_output(self) -> (output: Result<Vec<u8>, TeeError>)
        ensures
            match output {
                Ok(bytes) => self@.output() == Ok::<Seq<u8>, TeeError>(bytes@),
                Err(error) => self@.output() == Err::<Seq<u8>, TeeError>(error),
            },
    {
        match self.error {
            Some(error) => Err(error),
            None => Ok(self.buf),
        }
    }
}

/// The state that a retrieval in state `pre` reaches by taking in `events`
/// one after the other.
pub open spec fn capture_after(pre: CaptureView, events: Seq<CaptureEventView>) -> CaptureView
    decreases events.len(),
{
    if events.len() == 0 {
        pre
    } else {
        capture_next(capture_after(pre, events.drop_last()), events.last())
    }
}

/// Every length among `events` is one that `store`, or the store at an
/// earlier moment, had, and every chunk is what a positional read of `store`
/// may return at the end of the bytes that the retrieval, started in `pre`,
/// had in hand when the chunk came in.
pub open spec fn capture_fed_from(
    store: Seq<u8>,
    pre: CaptureView,
    events: Seq<CaptureEventView>,
) -> bool
    decreases events.len(),
{
    events.len() == 0 || {
        &&& capture_fed_from(store, pre, events.drop_last())
        &&& events.last() matches CaptureEventView::Length { len } ==> len <= store.len()
        &&& events.last() matches CaptureEventView::Chunk { bytes } ==> is_read_at(
            store,
            capture_after(pre, events.drop_last()).bytes.len(),
            bytes,
        )
    }
}

/// A retrieval fails only when the caller reports a failure: `Duplication`
/// for the handle, `Read` for the length or a read. Growth of the store and
/// reads that return little or nothing never make it fail.
pub proof fn capture_fails_only_on_failure(pre: CaptureView, event: CaptureEventView)
    requires
        pre.error is None,
    ensures
        capture_next(pre, event).error == match event {
            CaptureEventView::DuplicationFailed => Some(TeeError::Duplication),
            CaptureEventView::LengthFailed => Some(TeeError::Read),
            CaptureEventView::ReadFailed => Some(TeeError::Read),
            _ => None,
        },
{
}

/// One step keeps the retrieval on the store: if the bytes in hand are the
/// head of the store, the target is no longer than the store, and the event
/// is a length that the store had or a chunk read at the end of the bytes in
/// hand, then the same holds after the step.
pub proof fn capture_step_keeps_to_store(store: Seq<u8>, pre: CaptureView, event: CaptureEventView)
    requires
        pre.wf(),
        pre.target matches Some(target) ==> target <= store.len(),
        pre.bytes == head(store, pre.bytes.len()),
        event matches CaptureEventView::Length { len } ==> len <= store.len(),
        event matches CaptureEventView::Chunk { bytes } ==> is_read_at(store, pre.bytes.len(), bytes),
    ensures
        capture_next(pre, event).target matches Some(target) ==> capture_next(
            pre,
            event,
        ).bytes.len() <= target <= store.len(),
        capture_next(pre, event).target is None ==> capture_next(pre, event).bytes.len() == 0,
        capture_next(pre, event).bytes == head(store, capture_next(pre, event).bytes.len()),
{
    let post = capture_next(pre, event);
    assert(post.bytes =~= head(store, post.bytes.len()));
}

/// After any run of events fed from the store, a retrieval holds the head of
/// the store and no more than the length it was told, which is no more than
/// the store holds: it never reads past what was written.
pub proof fn capture_holds_head_of_store(store: Seq<u8>, events: Seq<CaptureEventView>)
    requires
        capture_fed_from(store, CaptureView::initial(), events),
    ensures
        ({
            let reached = capture_after(CaptureView::initial(), events);
            &&& reached.bytes == head(store, reached.bytes.len())
            &&& reached.bytes.len() <= store.len()
            &&& reached.target matches Some(target) ==> reached.bytes.len() <= target
                <= store.len()
            &&& reached.target is None ==> reached.bytes.len() == 0
        }),
    decreases events.len(),
{
    if events.len() == 0 {
        assert(CaptureView::initial().bytes =~= head(store, 0));
    } else {
        capture_holds_head_of_store(store, events.drop_last());
        let before = capture_after(CaptureView::initial(), events.drop_last());
        capture_step_keeps_to_store(store, before, events.last());
    }
}

/// A retrieval that was fed from the store and has finished without failure
/// hands out the first bytes of the store, as many as the length it was told.
/// Where that length was the store's whole length, because every writer was
/// done, it hands out exactly the store, byte for byte and in order.
pub proof fn capture_returns_what_was_written(store: Seq<u8>, events: Seq<CaptureEventView>)
    requires
        capture_fed_from(store, CaptureView::initial(), events),
        capture_after(CaptureView::initial(), events).error is None,
        capture_after(CaptureView::initial(), events).target is Some,
        capture_after(CaptureView::initial(), events).missing() == 0,
    ensures
        ({
            let reached = capture_after(CaptureView::initial(), events);
            &&& reached.output() == Ok::<Seq<u8>, TeeError>(head(store, reached.target->0))
            &&& reached.target == Some(store.len()) ==> reached.output() == Ok::<
                Seq<u8>,
                TeeError,
            >(store)
        }),
{
    capture_holds_head_of_store(store, events);
    assert(head(store, store.len()) =~= store);
}

/// A retrieval made while writers are still at work hands out a snapshot:
/// if the length it was told is the length that the store had at some moment,
/// and its reads were made of the store as it is at any later moment, then it
/// hands out exactly what the store held at that moment, and nothing of what
/// was appended since.
pub proof fn capture_returns_snapshot(
    snapshot: Seq<u8>,
    store: Seq<u8>,
    events: Seq<CaptureEventView>,
)
    requires
        grows_to(snapshot, store),
        capture_fed_from(store, CaptureView::initial(), events),
        capture_after(CaptureView::initial(), events).error is None,
        capture_after(CaptureView::initial(), events).target == Some(snapshot.len()),
        capture_after(CaptureView::initial(), events).missing() == 0,
    ensures
        capture_after(CaptureView::initial(), events).output() == Ok::<Seq<u8>, TeeError>(
            snapshot,
        ),
{
    capture_returns_what_was_written(store, events);
}

} // verus!
