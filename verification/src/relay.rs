//! The relay: the background loop that copies newly appended bytes from the
//! backing store to the destination stream.
//!
//! The loop is a state machine. The thread that runs it performs each
//! [`RelayAction`] and reports what happened as a [`RelayEvent`]; every
//! decision (where to read next, what to write, when to pause, when to leave)
//! is taken by [`Relay::step`].
//!
//! The stop flag is consulted before every read and nowhere else, so bytes
//! that were appended but not yet read when the flag is seen set are not
//! forwarded: the relay does not drain the store on its way out.

use vstd::prelude::*;
use crate::error::TeeError;
use crate::store::head;
use crate::store::is_read_at;

verus! {

/// The most bytes that one read asks for.
pub const CHUNK_LEN: usize = 1024;

/// How long the relay pauses when a read finds nothing new, in milliseconds.
pub const POLL_MILLIS: u64 = 5;

/// What happened to the last action.
#[derive(Debug, PartialEq, Eq)]
pub enum RelayEvent {
    /// The stop flag was loaded and held `stop`.
    Flag { stop: bool },
    /// The positional read returned these bytes (none when nothing is new).
    Chunk { bytes: Vec<u8> },
    /// The positional read failed.
    ReadFailed,
    /// The destination took all the bytes it was given.
    Written,
    /// The destination refused the bytes.
    WriteFailed,
    /// The pause is over.
    Woke,
}

/// What the relay thread does next.
#[derive(Debug, PartialEq, Eq)]
pub enum RelayAction {
    /// Load the stop flag.
    CheckStop,
    /// Read at most `limit` bytes of the backing store at `offset`, without
    /// moving any shared position.
    ReadAt { offset: u64, limit: usize },
    /// Write all of `bytes` to the destination stream.
    Write { bytes: Vec<u8> },
    /// Pause for `millis` milliseconds.
    Sleep { millis: u64 },
    /// Leave the loop; `outcome` is what the thread hands to whoever joins it.
    Exit { outcome: Result<(), TeeError> },
}

/// A [`RelayEvent`] over mathematical values.
pub enum RelayEventView {
    Flag { stop: bool },
    Chunk { bytes: Seq<u8> },
    ReadFailed,
    Written,
    WriteFailed,
    Woke,
}

/// A [`RelayAction`] over mathematical values.
pub enum RelayActionView {
    CheckStop,
    ReadAt { offset: nat, limit: nat },
    Write { bytes: Seq<u8> },
    Sleep { millis: nat },
    Exit { outcome: Result<(), TeeError> },
}

/// The relay's state over mathematical values.
pub struct RelayView {
    /// Where in the backing store the next read begins.
    pub offset: nat,
    /// Every byte handed to the destination so far, in the order handed.
    pub forwarded: Seq<u8>,
    /// `Some` once the relay has left its loop, with what it left with.
    pub outcome: Option<Result<(), TeeError>>,
}

impl View for RelayEvent {
    type V = RelayEventView;

    open spec fn view(&self) -> RelayEventView {
        match *self {
            RelayEvent::Flag { stop } => RelayEventView::Flag { stop },
            RelayEvent::Chunk { bytes } => RelayEventView::Chunk { bytes: bytes@ },
            RelayEvent::ReadFailed => RelayEventView::ReadFailed,
            RelayEvent::Written => RelayEventView::Written,
            RelayEvent::WriteFailed => RelayEventView::WriteFailed,
            RelayEvent::Woke => RelayEventView::Woke,
        }
    }
}

impl View for RelayAction {
    type V = RelayActionView;

    open spec fn view(&self) -> RelayActionView {
        match *self {
            RelayAction::CheckStop => RelayActionView::CheckStop,
            RelayAction::ReadAt { offset, limit } => RelayActionView::ReadAt {
                offset: offset as nat,
                limit: limit as nat,
            },
            RelayAction::Write { bytes } => RelayActionView::Write { bytes: bytes@ },
            RelayAction::Sleep { millis } => RelayActionView::Sleep { millis: millis as nat },
            RelayAction::Exit { outcome } => RelayActionView::Exit { outcome },
        }
    }
}

impl RelayEventView {
    /// The number of bytes that the event carries.
    pub open spec fn len(self) -> nat {
        match self {
            RelayEventView::Chunk { bytes } => bytes.len(),
            _ => 0,
        }
    }
}

impl RelayView {
    /// The state of a relay that has done nothing yet.
    pub open spec fn initial() -> RelayView {
        RelayView { offset: 0, forwarded: Seq::empty(), outcome: None }
    }

    /// This state, having left the loop with `outcome`.
    pub open spec fn left_with(self, outcome: Result<(), TeeError>) -> RelayView {
        RelayView { outcome: Some(outcome), ..self }
    }

    /// This state after `bytes` were read at the offset and handed on.
    pub open spec fn advanced_by(self, bytes: Seq<u8>) -> RelayView {
        RelayView {
            offset: self.offset + bytes.len(),
            forwarded: self.forwarded + bytes,
            ..self
        }
    }
}

/// The relay's transition: the state and the action that follow `event` in
/// state `pre`.
///
/// A relay that has left its loop stays as it is and answers every event with
/// the same `Exit`. Otherwise: the flag, when set, ends the loop without
/// error, and when clear asks for a read at the offset; an empty read asks
/// for a pause; a read of `n > 0` bytes moves the offset by `n` and asks for
/// exactly those bytes to be written; a completed write or pause leads back
/// to the flag; a failed read or write ends the loop with that error.
pub open spec fn relay_next(pre: RelayView, event: RelayEventView) -> (RelayView, RelayActionView) {
    match pre.outcome {
        Some(outcome) => (pre, RelayActionView::Exit { outcome }),
        None => match event {
            RelayEventView::Flag { stop } => if stop {
                (pre.left_with(Ok(())), RelayActionView::Exit { outcome: Ok(()) })
            } else {
                (pre, RelayActionView::ReadAt { offset: pre.offset, limit: CHUNK_LEN as nat })
            },
            RelayEventView::Chunk { bytes } => if bytes.len() == 0 {
                (pre, RelayActionView::Sleep { millis: POLL_MILLIS as nat })
            } else {
                (pre.advanced_by(bytes), RelayActionView::Write { bytes })
            },
            RelayEventView::ReadFailed => (
                pre.left_with(Err(TeeError::Read)),
                RelayActionView::Exit { outcome: Err(TeeError::Read) },
            ),
            RelayEventView::WriteFailed => (
                pre.left_with(Err(TeeError::Write)),
                RelayActionView::Exit { outcome: Err(TeeError::Write) },
            ),
            RelayEventView::Written | RelayEventView::Woke => (pre, RelayActionView::CheckStop),
        },
    }
}

/// The relay's state: how far it has read, and whether it has left its loop.
pub struct Relay {
    offset: u64,
    outcome: Option<Result<(), TeeError>>,
    forwarded: Ghost<Seq<u8>>,
}

impl View for Relay {
    type V = RelayView;

    closed spec fn view(&self) -> RelayView {
        RelayView { offset: self.offset as nat, forwarded: self.forwarded@, outcome: self.outcome }
    }
}

impl Relay {
    /// A relay at the start of the backing store, together with its first
    /// action: to look at the stop flag.
    pub fn start() -> (started: (Relay, RelayAction))
        ensures
            started.0@ == RelayView::initial(),
            started.1@ == RelayActionView::CheckStop,
    {
        let relay = Relay { offset: 0, outcome: None, forwarded: Ghost(Seq::empty()) };
        (relay, RelayAction::CheckStop)
    }

    /// Takes in what happened and decides what to do next, as [`relay_next`]
    /// says. The offset is a `u64`: a read that would carry it past the
    /// largest `u64` cannot be taken in.
    pub fn step(&mut self, event: RelayEvent) -> (action: RelayAction)
        requires
            old(self)@.outcome is None ==> old(self)@.offset + event@.len() <= u64::MAX,
        ensures
            (final(self)@, action@) == relay_next(old(self)@, event@),
    {
        match self.outcome {
            Some(outcome) => RelayAction::Exit { outcome },
            None => match event {
                RelayEvent::Flag { stop } => {
                    if stop {
                        self.outcome = Some(Ok(()));
                        RelayAction::Exit { outcome: Ok(()) }
                    } else {
                        RelayAction::ReadAt { offset: self.offset, limit: CHUNK_LEN }
                    }
                },
                RelayEvent::Chunk { bytes } => {
                    let n: usize = bytes.len();
                    if n == 0 {
                        RelayAction::Sleep { millis: POLL_MILLIS }
                    } else {
                        self.offset = self.offset + n as u64;
                        self.forwarded = Ghost(self.forwarded@ + bytes@);
                        RelayAction::Write { bytes }
                    }
                },
                RelayEvent::ReadFailed => {
                    self.outcome = Some(Err(TeeError::Read));
                    RelayAction::Exit { outcome: Err(TeeError::Read) }
                },
                RelayEvent::WriteFailed => {
                    self.outcome = Some(Err(TeeError::Write));
                    RelayAction::Exit { outcome: Err(TeeError::Write) }
                },
                RelayEvent::Written | RelayEvent::Woke => RelayAction::CheckStop,
            },
        }
    }

    /// Whether `len` more bytes can be taken in without the offset leaving
    /// the range of `u64`.
    pub fn has_room_for(&self, len: usize) -> (room: bool)
        ensures
            room <==> self@.offset + len <= u64::MAX,
    {
        len as u64 <= u64::MAX - self.offset
    }

    /// Where in the backing store the next read begins.
    pub fn offset(&self) -> (offset: u64)
        ensures
            offset == self@.offset,
    {
        self.offset
    }

    /// `Some` once the relay has left its loop, with what it left with.
    pub fn outcome(&self) -> (outcome: Option<Result<(), TeeError>>)
        ensures
            outcome == self@.outcome,
    {
        self.outcome
    }
}

/// The state that a relay in state `pre` reaches by taking in `events` one
/// after the other.
pub open spec fn relay_after(pre: RelayView, events: Seq<RelayEventView>) -> RelayView
    decreases events.len(),
{
    if events.len() == 0 {
        pre
    } else {
        relay_next(relay_after(pre, events.drop_last()), events.last()).0
    }
}

/// Every chunk among `events` is what a positional read of `store` may
/// return at the offset that the relay, started in `pre`, had reached when
/// the chunk came in.
pub open spec fn relay_fed_from(store: Seq<u8>, pre: RelayView, events: Seq<RelayEventView>) -> bool
    decreases events.len(),
{
    events.len() == 0 || {
        &&& relay_fed_from(store, pre, events.drop_last())
        &&& events.last() matches RelayEventView::Chunk { bytes } ==> is_read_at(
            store,
            relay_after(pre, events.drop_last()).offset,
            bytes,
        )
    }
}

/// The relay hands a byte to the destination exactly when it answers with
/// `Write`, and then hands on the chunk it was given, whole and unchanged.
/// Nothing that was handed on before is touched, and the offset moves by the
/// number of bytes handed on, never back.
pub proof fn relay_forwards_only_by_writing(pre: RelayView, event: RelayEventView)
    ensures
        ({
            let (post, action) = relay_next(pre, event);
            &&& action matches RelayActionView::Write { bytes } ==> {
                &&& event == (RelayEventView::Chunk { bytes })
                &&& bytes.len() > 0
                &&& post.forwarded == pre.forwarded + bytes
                &&& post.offset == pre.offset + bytes.len()
            }
            &&& !(action is Write) ==> post.forwarded == pre.forwarded && post.offset
                == pre.offset
        }),
{
}

/// The relay's offset is the number of bytes it has forwarded: it reads
/// nothing that it does not hand on, and hands on nothing twice.
pub proof fn relay_offset_counts_forwarded(events: Seq<RelayEventView>)
    ensures
        relay_after(RelayView::initial(), events).offset == relay_after(
            RelayView::initial(),
            events,
        ).forwarded.len(),
    decreases events.len(),
{
    if events.len() > 0 {
        relay_offset_counts_forwarded(events.drop_last());
    }
}

/// One step keeps the relay on the store: if the bytes forwarded so far are
/// the head of the store up to the offset, and the event, where it is a
/// chunk, was read from the store at the offset, then the same holds after
/// the step. No byte is dropped, repeated or reordered.
pub proof fn relay_step_keeps_to_store(store: Seq<u8>, pre: RelayView, event: RelayEventView)
    requires
        pre.offset <= store.len(),
        pre.forwarded == head(store, pre.offset),
        event matches RelayEventView::Chunk { bytes } ==> is_read_at(store, pre.offset, bytes),
    ensures
        relay_next(pre, event).0.offset <= store.len(),
        relay_next(pre, event).0.forwarded == head(store, relay_next(pre, event).0.offset),
{
    let post = relay_next(pre, event).0;
    assert(post.forwarded =~= head(store, post.offset));
}

/// Whatever a relay has forwarded after any run of events whose chunks were
/// read from the store is the head of the store up to its offset: every byte
/// that reached the destination stands in the store, and the bytes reached it
/// in the store's order, each once.
pub proof fn relay_forwards_head_of_store(store: Seq<u8>, events: Seq<RelayEventView>)
    requires
        relay_fed_from(store, RelayView::initial(), events),
    ensures
        relay_after(RelayView::initial(), events).offset <= store.len(),
        relay_after(RelayView::initial(), events).forwarded == head(
            store,
            relay_after(RelayView::initial(), events).offset,
        ),
    decreases events.len(),
{
    if events.len() == 0 {
        assert(RelayView::initial().forwarded =~= head(store, 0));
    } else {
        relay_forwards_head_of_store(store, events.drop_last());
        relay_step_keeps_to_store(
            store,
            relay_after(RelayView::initial(), events.drop_last()),
            events.last(),
        );
    }
}

/// While the relay runs, a read that finds bytes brings it strictly closer to
/// the end of the store; a relay whose offset is at the end of the store has
/// forwarded the whole store. So a store of `n` bytes is forwarded in full
/// after at most `n` reads that each find something.
pub proof fn relay_closes_in_on_store(store: Seq<u8>, pre: RelayView, chunk: Seq<u8>)
    requires
        pre.outcome is None,
        pre.offset <= store.len(),
        pre.forwarded == head(store, pre.offset),
        is_read_at(store, pre.offset, chunk),
    ensures
        chunk.len() > 0 ==> store.len() - relay_next(
            pre,
            RelayEventView::Chunk { bytes: chunk },
        ).0.offset < store.len() - pre.offset,
        pre.offset == store.len() ==> pre.forwarded == store,
{
    assert(head(store, store.len()) =~= store);
}

/// `event` is a report on `action`: a flag for a look at the flag, a chunk or
/// a failure for a read, completion or a failure for a write, waking for a
/// pause. Nothing reports on `Exit`.
pub open spec fn relay_answers(action: RelayActionView, event: RelayEventView) -> bool {
    match action {
        RelayActionView::CheckStop => event is Flag,
        RelayActionView::ReadAt { .. } => event is Chunk || event is ReadFailed,
        RelayActionView::Write { .. } => event is Written || event is WriteFailed,
        RelayActionView::Sleep { .. } => event is Woke,
        RelayActionView::Exit { .. } => false,
    }
}

/// The relay is never far from the stop flag. Counted from a look at the
/// flag, and with every event a report on the action before it, the third
/// action at the latest is another look at the flag, unless the relay has
/// left by then. Between two looks lie at most one read and one write or one
/// pause, so a relay whose flag was set sees it after one pause at most.
pub proof fn relay_looks_at_flag_every_third_step(
    pre: RelayView,
    first: RelayEventView,
    second: RelayEventView,
    third: RelayEventView,
)
    requires
        pre.outcome is None,
        relay_answers(RelayActionView::CheckStop, first),
        relay_answers(relay_next(pre, first).1, second),
        relay_answers(relay_next(relay_next(pre, first).0, second).1, third),
    ensures
        ({
            let (read, _) = relay_next(pre, first);
            let (passed, _) = relay_next(read, second);
            let (_, action) = relay_next(passed, third);
            action is CheckStop || action is Exit
        }),
{
}

/// A relay that sees the stop flag set leaves its loop at once, and without
/// error unless it had failed before.
pub proof fn relay_leaves_when_told(pre: RelayView)
    ensures
        relay_next(pre, RelayEventView::Flag { stop: true }).1 is Exit,
        relay_next(pre, RelayEventView::Flag { stop: true }).0.outcome is Some,
        pre.outcome is None ==> relay_next(pre, RelayEventView::Flag { stop: true }).1 == (
        RelayActionView::Exit { outcome: Ok(()) }),
{
}

/// A relay that has left its loop never returns to it: whatever comes in, the
/// state stays as it is and the answer is the same `Exit`. It asks for no
/// further read, write or pause.
pub proof fn relay_stays_out(pre: RelayView, event: RelayEventView)
    requires
        pre.outcome is Some,
    ensures
        relay_next(pre, event) == (pre, RelayActionView::Exit { outcome: pre.outcome->0 }),
{
}

/// The relay leaves its loop only on a set stop flag or on a failure, with
/// `Ok` for the flag, `Read` for a failed read and `Write` for a failed
/// write.
pub proof fn relay_leaves_only_when_told_or_failed(pre: RelayView, event: RelayEventView)
    requires
        pre.outcome is None,
    ensures
        relay_next(pre, event).0.outcome == match event {
            RelayEventView::Flag { stop: true } => Some(Ok::<(), TeeError>(())),
            RelayEventView::ReadFailed => Some(Err::<(), TeeError>(TeeError::Read)),
            RelayEventView::WriteFailed => Some(Err::<(), TeeError>(TeeError::Write)),
            _ => None,
        },
{
}

} // verus!
