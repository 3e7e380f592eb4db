//! Bridging two byte streams: one direction at a time, and both together.
//!
//! The streams themselves are driven from outside. Here stands what to do next
//! after each operation on them, and what the whole amounts to.

use vstd::prelude::*;

verus! {

/// How many bytes are read at a time.
pub const COPY_BUFFER: usize = 8 * 1024;

/// An operation on the streams of one direction.
#[derive(Clone, Copy, Debug, PartialEq, Eq, Structural)]
pub enum CopyStep {
    /// Read up to [`COPY_BUFFER`] bytes; the outcome is how many were read.
    Read,
    /// Write all of the first bytes of the buffer, as many as given.
    Write(usize),
    /// Flush what was written.
    Flush,
    /// Shut the writer down.
    Shutdown,
}

/// What follows an operation.
#[derive(Debug, PartialEq, Eq)]
pub enum CopyNext<E> {
    /// Take this step.
    Take(CopyStep),
    /// The copy is over, with the number of bytes copied or an error.
    Finished(Result<u64, E>),
}

/// The copy of one direction: the step under way and what was copied.
#[derive(Clone, Copy, Debug, PartialEq, Eq, Structural)]
pub struct Copier {
    /// The step whose outcome comes next.
    pub step: CopyStep,
    /// How many bytes the write before the flush under way had.
    pub pending: usize,
    /// How many bytes were read, written and flushed.
    pub total: u64,
    /// Whether the writer is shut down once the reader is at its end.
    pub shut_down: bool,
}

impl Copier {
    /// Whether the count of copied bytes stays within its type.
    pub open spec fn fits<E>(self, outcome: Result<usize, E>) -> bool {
        self.step is Flush && outcome is Ok ==> self.total + self.pending <= u64::MAX
    }

    /// The copier after a step, and what follows. A failed step ends the copy
    /// with its error. Each write is flushed before the next read, and counts
    /// once it is flushed; a read of nothing is the end of the reader.
    pub open spec fn after<E>(self, outcome: Result<usize, E>) -> (Copier, CopyNext<E>) {
        match outcome {
            Err(e) => (self, CopyNext::Finished(Err(e))),
            Ok(n) => match self.step {
                CopyStep::Read => if n > 0 {
                    (
                        Copier { step: CopyStep::Write(n), ..self },
                        CopyNext::Take(CopyStep::Write(n)),
                    )
                } else if self.shut_down {
                    (
                        Copier { step: CopyStep::Shutdown, ..self },
                        CopyNext::Take(CopyStep::Shutdown),
                    )
                } else {
                    (self, CopyNext::Finished(Ok(self.total)))
                },
                CopyStep::Write(k) => (
                    Copier { step: CopyStep::Flush, pending: k, ..self },
                    CopyNext::Take(CopyStep::Flush),
                ),
                CopyStep::Flush => (
                    Copier {
                        step: CopyStep::Read,
                        pending: 0,
                        total: (self.total + self.pending) as u64,
                        ..self
                    },
                    CopyNext::Take(CopyStep::Read),
                ),
                CopyStep::Shutdown => (self, CopyNext::Finished(Ok(self.total))),
            },
        }
    }

    /// Starts a copy that flushes after every write and leaves the writer open
    /// at the end. Its first step is a read.
    pub fn copy_flush() -> (r: Copier)
        ensures
            r == (Copier { step: CopyStep::Read, pending: 0, total: 0, shut_down: false }),
    {
        Copier { step: CopyStep::Read, pending: 0, total: 0, shut_down: false }
    }

    /// Starts a copy that flushes after every write and shuts the writer down at
    /// the end. Its first step is a read.
    pub fn copy_flush_and_shutdown() -> (r: Copier)
        ensures
            r == (Copier { step: CopyStep::Read, pending: 0, total: 0, shut_down: true }),
    {
        Copier { step: CopyStep::Read, pending: 0, total: 0, shut_down: true }
    }

    /// What follows the step under way, from its outcome. The count in it
    /// matters to a read alone.
    pub fn advance<E>(&mut self, outcome: Result<usize, E>) -> (r: CopyNext<E>)
        requires
            old(self).fits(outcome),
        ensures
            (*final(self), r) == old(self).after(outcome),
    {
        match outcome {
            Err(e) => CopyNext::Finished(Err(e)),
            Ok(n) => match self.step {
                CopyStep::Read => if n > 0 {
                    self.step = CopyStep::Write(n);
                    CopyNext::Take(self.step)
                } else if self.shut_down {
                    self.step = CopyStep::Shutdown;
                    CopyNext::Take(self.step)
                } else {
                    CopyNext::Finished(Ok(self.total))
                },
                CopyStep::Write(k) => {
                    self.pending = k;
                    self.step = CopyStep::Flush;
                    CopyNext::Take(self.step)
                },
                CopyStep::Flush => {
                    self.total = self.total + self.pending as u64;
                    self.pending = 0;
                    self.step = CopyStep::Read;
                    CopyNext::Take(self.step)
                },
                CopyStep::Shutdown => CopyNext::Finished(Ok(self.total)),
            },
        }
    }
}

/// The copier after a series of outcomes.
pub open spec fn copier_after<E>(start: Copier, outcomes: Seq<Result<usize, E>>) -> Copier
    decreases outcomes.len(),
{
    if outcomes.len() == 0 {
        start
    } else {
        copier_after(start, outcomes.drop_last()).after(outcomes.last()).0
    }
}

/// How many bytes the reads among a series of outcomes had.
pub open spec fn bytes_read<E>(start: Copier, outcomes: Seq<Result<usize, E>>) -> int
    decreases outcomes.len(),
{
    if outcomes.len() == 0 {
        0
    } else {
        let earlier = outcomes.drop_last();
        bytes_read(start, earlier) + match outcomes.last() {
            Ok(n) if copier_after(start, earlier).step is Read => n as int,
            _ => 0,
        }
    }
}

/// Whether the count of copied bytes stays within its type all along.
pub open spec fn counts_fit<E>(start: Copier, outcomes: Seq<Result<usize, E>>) -> bool
    decreases outcomes.len(),
{
    outcomes.len() == 0 || (counts_fit(start, outcomes.drop_last()) && copier_after(
        start,
        outcomes.drop_last(),
    ).fits(outcomes.last()))
}

/// How many bytes were read and are not flushed yet.
pub open spec fn in_flight(c: Copier) -> int {
    match c.step {
        CopyStep::Write(k) => k as int,
        CopyStep::Flush => c.pending as int,
        _ => 0,
    }
}

proof fn lemma_copied_and_in_flight<E>(start: Copier, outcomes: Seq<Result<usize, E>>)
    requires
        start.step is Read,
        start.total == 0,
        counts_fit(start, outcomes),
    ensures
        ({
            let c = copier_after(start, outcomes);
            c.total + in_flight(c) == bytes_read(start, outcomes)
        }),
    decreases outcomes.len(),
{
    if outcomes.len() > 0 {
        lemma_copied_and_in_flight(start, outcomes.drop_last());
    }
}

/// A copy that ends well has copied every byte that was read, and says so.
pub proof fn law_copy_counts_every_byte<E>(
    start: Copier,
    outcomes: Seq<Result<usize, E>>,
    last: Result<usize, E>,
    total: u64,
)
    requires
        start.step is Read,
        start.total == 0,
        counts_fit(start, outcomes),
        copier_after(start, outcomes).after(last).1 == CopyNext::<E>::Finished(Ok(total)),
    ensures
        total == bytes_read(start, outcomes),
        bytes_read(start, outcomes.push(last)) == total,
{
    lemma_copied_and_in_flight(start, outcomes);
    assert(outcomes.push(last).drop_last() =~= outcomes);
}

/// What the buffer holds after a series of outcomes. `data` has what the buffer
/// holds right after each step, as far as that step was a read.
pub open spec fn buffer_after<E>(
    start: Copier,
    outcomes: Seq<Result<usize, E>>,
    data: Seq<Seq<u8>>,
) -> Seq<u8>
    decreases outcomes.len(),
{
    if outcomes.len() == 0 {
        seq![]
    } else {
        let earlier = outcomes.drop_last();
        if copier_after(start, earlier).step is Read && outcomes.last() is Ok {
            data[outcomes.len() - 1]
        } else {
            buffer_after(start, earlier, data)
        }
    }
}

/// The bytes that the reader has given.
pub open spec fn received<E>(
    start: Copier,
    outcomes: Seq<Result<usize, E>>,
    data: Seq<Seq<u8>>,
) -> Seq<u8>
    decreases outcomes.len(),
{
    if outcomes.len() == 0 {
        seq![]
    } else {
        let earlier = outcomes.drop_last();
        received(start, earlier, data) + match outcomes.last() {
            Ok(n) if copier_after(start, earlier).step is Read => data[outcomes.len() - 1].take(
                n as int,
            ),
            _ => seq![],
        }
    }
}

/// The bytes that the writer has taken.
pub open spec fn written<E>(
    start: Copier,
    outcomes: Seq<Result<usize, E>>,
    data: Seq<Seq<u8>>,
) -> Seq<u8>
    decreases outcomes.len(),
{
    if outcomes.len() == 0 {
        seq![]
    } else {
        let earlier = outcomes.drop_last();
        written(start, earlier, data) + match (outcomes.last(), copier_after(start, earlier).step) {
            (Ok(_), CopyStep::Write(k)) => buffer_after(start, earlier, data).take(k as int),
            _ => seq![],
        }
    }
}

/// Whether no read claims more bytes than the buffer has.
pub open spec fn reads_fit<E>(outcomes: Seq<Result<usize, E>>, data: Seq<Seq<u8>>) -> bool {
    &&& data.len() == outcomes.len()
    &&& forall|i: int|
        0 <= i < outcomes.len() && outcomes[i] is Ok ==> (#[trigger] outcomes[i])->Ok_0
            <= data[i].len()
}

proof fn lemma_written_and_buffered<E>(
    start: Copier,
    outcomes: Seq<Result<usize, E>>,
    data: Seq<Seq<u8>>,
)
    requires
        start.step is Read,
    ensures
        received(start, outcomes, data) == written(start, outcomes, data) + match copier_after(
            start,
            outcomes,
        ).step {
            CopyStep::Write(k) => buffer_after(start, outcomes, data).take(k as int),
            _ => seq![],
        },
    decreases outcomes.len(),
{
    if outcomes.len() > 0 {
        let earlier = outcomes.drop_last();
        lemma_written_and_buffered(start, earlier, data);
        let c = copier_after(start, earlier);
        match outcomes.last() {
            Ok(n) => {
                if c.step is Read && n == 0 {
                    assert(data[outcomes.len() - 1].take(0) =~= seq![]);
                }
            },
            Err(_) => {},
        }
    }
}

proof fn lemma_received_length<E>(
    start: Copier,
    outcomes: Seq<Result<usize, E>>,
    data: Seq<Seq<u8>>,
)
    requires
        outcomes.len() <= data.len(),
        forall|i: int|
            0 <= i < outcomes.len() && outcomes[i] is Ok ==> (#[trigger] outcomes[i])->Ok_0
                <= data[i].len(),
    ensures
        received(start, outcomes, data).len() == bytes_read(start, outcomes),
    decreases outcomes.len(),
{
    if outcomes.len() > 0 {
        let earlier = outcomes.drop_last();
        assert forall|i: int| 0 <= i < earlier.len() && earlier[i] is Ok implies (
        #[trigger] earlier[i])->Ok_0 <= data[i].len() by {
            assert(earlier[i] == outcomes[i]);
        }
        lemma_received_length(start, earlier, data);
        assert(outcomes.last() == outcomes[outcomes.len() - 1]);
    }
}

/// What the writer has taken is, at any time and whatever failed, what the
/// reader has given up to some point: nothing is lost, doubled or reordered.
pub proof fn law_written_in_order<E>(
    start: Copier,
    outcomes: Seq<Result<usize, E>>,
    data: Seq<Seq<u8>>,
)
    requires
        start.step is Read,
    ensures
        written(start, outcomes, data).is_prefix_of(received(start, outcomes, data)),
{
    lemma_written_and_buffered(start, outcomes, data);
    let w = written(start, outcomes, data);
    assert(received(start, outcomes, data).subrange(0, w.len() as int) =~= w);
}

/// A copy that ends well has handed the writer exactly what the reader gave,
/// and tells how many bytes that were.
pub proof fn law_copy_delivers_every_byte<E>(
    start: Copier,
    outcomes: Seq<Result<usize, E>>,
    data: Seq<Seq<u8>>,
    last: Result<usize, E>,
    total: u64,
)
    requires
        start.step is Read,
        start.total == 0,
        counts_fit(start, outcomes),
        reads_fit(outcomes, data),
        copier_after(start, outcomes).after(last).1 == CopyNext::<E>::Finished(Ok(total)),
    ensures
        written(start, outcomes, data) == received(start, outcomes, data),
        written(start, outcomes, data).len() == total,
{
    lemma_written_and_buffered(start, outcomes, data);
    lemma_received_length(start, outcomes, data);
    lemma_copied_and_in_flight(start, outcomes);
}

/// What was read is what is written next, and it is flushed before more is
/// read.
pub proof fn law_flush_after_every_write<E>(c: Copier, n: usize, written: usize, flushed: usize)
    requires
        c.step is Read,
        n > 0,
        c.total + n <= u64::MAX,
    ensures
        ({
            let (c1, a1) = c.after(Ok::<usize, E>(n));
            let (c2, a2) = c1.after(Ok::<usize, E>(written));
            let (c3, a3) = c2.after(Ok::<usize, E>(flushed));
            &&& a1 == CopyNext::<E>::Take(CopyStep::Write(n))
            &&& a2 == CopyNext::<E>::Take(CopyStep::Flush)
            &&& a3 == CopyNext::<E>::Take(CopyStep::Read)
            &&& c3.total == c.total + n
        }),
{
}

/// A failed step ends the copy with the error of that step, whichever it was.
pub proof fn law_copy_stops_at_the_first_error<E>(c: Copier, e: E)
    ensures
        c.after(Err::<usize, E>(e)) == (c, CopyNext::<E>::Finished(Err(e))),
{
}

/// The direction of a bridge that ended first, and how.
#[derive(Debug, PartialEq, Eq)]
pub enum FirstEnd<E> {
    /// From this side to the remote one.
    LocalToRemote(Result<u64, E>),
    /// From the remote side to this one.
    RemoteToLocal(Result<u64, E>),
}

/// How a bridge goes on once one of its directions has ended.
#[derive(Debug, PartialEq, Eq)]
pub enum BridgeNext<E> {
    /// Wait for the copy from the remote side, which goes on as it is.
    AwaitRemoteToLocal { local_to_remote: u64 },
    /// Wait for the copy to the remote side, which goes on as it is.
    AwaitLocalToRemote { remote_to_local: u64 },
    /// The bridge is over: the counts of both directions, the one to the remote
    /// side first, or an error.
    Done(Result<(u64, u64), E>),
}

/// What follows in [`copy_both`].
pub open spec fn both_after<E>(first: FirstEnd<E>) -> BridgeNext<E> {
    match first {
        FirstEnd::LocalToRemote(Ok(n)) => BridgeNext::AwaitRemoteToLocal { local_to_remote: n },
        FirstEnd::RemoteToLocal(Ok(n)) => BridgeNext::AwaitLocalToRemote { remote_to_local: n },
        FirstEnd::LocalToRemote(Err(e)) => BridgeNext::Done(Err(e)),
        FirstEnd::RemoteToLocal(Err(e)) => BridgeNext::Done(Err(e)),
    }
}

/// A bridge between two connections: both directions have to end, unless one
/// fails.
pub fn copy_both<E>(first: FirstEnd<E>) -> (r: BridgeNext<E>)
    ensures
        r == both_after(first),
{
    match first {
        FirstEnd::LocalToRemote(Ok(n)) => BridgeNext::AwaitRemoteToLocal { local_to_remote: n },
        FirstEnd::RemoteToLocal(Ok(n)) => BridgeNext::AwaitLocalToRemote { remote_to_local: n },
        FirstEnd::LocalToRemote(Err(e)) => BridgeNext::Done(Err(e)),
        FirstEnd::RemoteToLocal(Err(e)) => BridgeNext::Done(Err(e)),
    }
}

/// What follows in [`copy_stdio`].
pub open spec fn stdio_after<E>(first: FirstEnd<E>) -> BridgeNext<E> {
    match first {
        FirstEnd::LocalToRemote(Ok(n)) => BridgeNext::AwaitRemoteToLocal { local_to_remote: n },
        FirstEnd::RemoteToLocal(Ok(n)) => BridgeNext::Done(Ok((0u64, n))),
        FirstEnd::LocalToRemote(Err(e)) => BridgeNext::Done(Err(e)),
        FirstEnd::RemoteToLocal(Err(e)) => BridgeNext::Done(Err(e)),
    }
}

/// A bridge of standard input and output. The end of the input is a half-close:
/// the copy from the remote side is drained. The end of the remote side is
/// final: the input stays open until this process exits, so nothing waits for
/// it, and its bytes are not counted.
pub fn copy_stdio<E>(first: FirstEnd<E>) -> (r: BridgeNext<E>)
    ensures
        r == stdio_after(first),
{
    match first {
        FirstEnd::LocalToRemote(Ok(n)) => BridgeNext::AwaitRemoteToLocal { local_to_remote: n },
        FirstEnd::RemoteToLocal(Ok(n)) => BridgeNext::Done(Ok((0, n))),
        FirstEnd::LocalToRemote(Err(e)) => BridgeNext::Done(Err(e)),
        FirstEnd::RemoteToLocal(Err(e)) => BridgeNext::Done(Err(e)),
    }
}

impl<E> BridgeNext<E> {
    /// The outcome of a bridge that waited for its other direction.
    pub open spec fn outcome_with(self, other: Result<u64, E>) -> Result<(u64, u64), E> {
        match (self, other) {
            (BridgeNext::Done(outcome), _) => outcome,
            (_, Err(e)) => Err(e),
            (BridgeNext::AwaitRemoteToLocal { local_to_remote }, Ok(n)) => Ok((local_to_remote, n)),
            (BridgeNext::AwaitLocalToRemote { remote_to_local }, Ok(n)) => Ok((n, remote_to_local)),
        }
    }

    /// The outcome of a bridge once the direction that it waited for has ended.
    /// One that was over keeps its outcome.
    pub fn resume(self, other: Result<u64, E>) -> (r: Result<(u64, u64), E>)
        ensures
            r == self.outcome_with(other),
    {
        match self {
            BridgeNext::Done(outcome) => outcome,
            BridgeNext::AwaitRemoteToLocal { local_to_remote } => match other {
                Ok(n) => Ok((local_to_remote, n)),
                Err(e) => Err(e),
            },
            BridgeNext::AwaitLocalToRemote { remote_to_local } => match other {
                Ok(n) => Ok((n, remote_to_local)),
                Err(e) => Err(e),
            },
        }
    }
}

/// After the end of the input, a bridge of standard input and output delivers
/// all that the remote side still sends.
pub proof fn law_local_end_drains_remote<E>(sent: u64, received: u64)
    ensures
        stdio_after(FirstEnd::<E>::LocalToRemote(Ok(sent))).outcome_with(Ok(received)) == Ok::<
            (u64, u64),
            E,
        >((sent, received)),
{
}

/// Once the remote side has closed, a bridge of standard input and output is
/// over, whatever becomes of the input.
pub proof fn law_remote_close_is_final<E>(received: u64, input: Result<u64, E>)
    ensures
        stdio_after(FirstEnd::<E>::RemoteToLocal(Ok(received))) is Done,
        stdio_after(FirstEnd::<E>::RemoteToLocal(Ok(received))).outcome_with(input) == Ok::<
            (u64, u64),
            E,
        >((0u64, received)),
{
}

/// Which direction of a bridge between connections ends first does not matter
/// to its outcome, if both end well.
pub proof fn law_both_directions_commute<E>(sent: u64, received: u64)
    ensures
        both_after(FirstEnd::<E>::LocalToRemote(Ok(sent))).outcome_with(Ok(received))
            == both_after(FirstEnd::<E>::RemoteToLocal(Ok(received))).outcome_with(Ok(sent)),
        both_after(FirstEnd::<E>::LocalToRemote(Ok(sent))).outcome_with(Ok(received)) == Ok::<
            (u64, u64),
            E,
        >((sent, received)),
{
}

/// A direction of a bridge.
#[derive(Clone, Copy, Debug, PartialEq, Eq, Structural)]
pub enum Direction {
    /// From this side to the remote one.
    LocalToRemote,
    /// From the remote side to this one.
    RemoteToLocal,
}

/// What a bridge joins to the remote side.
#[derive(Clone, Copy, Debug, PartialEq, Eq, Structural)]
pub enum BridgeKind {
    /// A connection, bridged as [`copy_both`] says.
    Connection,
    /// Standard input and output, bridged as [`copy_stdio`] says.
    Stdio,
}

/// How far a bridge has come.
#[derive(Clone, Copy, Debug, PartialEq, Eq, Structural)]
pub enum BridgeState {
    /// Both directions are copied.
    Running,
    /// The direction to the remote side has ended with this count; the other is
    /// still copied.
    AwaitRemoteToLocal { local_to_remote: u64 },
    /// The direction from the remote side has ended with this count; the other
    /// is still copied.
    AwaitLocalToRemote { remote_to_local: u64 },
    /// The bridge is over.
    Over,
}

/// What follows a step of one direction of a bridge.
#[derive(Debug, PartialEq, Eq)]
pub enum BridgeAction<E> {
    /// Take this step of the direction.
    Take(CopyStep),
    /// The direction has ended; the other goes on as it is.
    Wait,
    /// The bridge is over: the counts of both directions, the one to the remote
    /// side first, or an error. A step under way is given up.
    Over(Result<(u64, u64), E>),
}

/// A bridge: the copies of both directions.
#[derive(Clone, Copy, Debug, PartialEq, Eq, Structural)]
pub struct Bridge {
    /// What is bridged.
    pub kind: BridgeKind,
    /// The copy to the remote side.
    pub local_to_remote: Copier,
    /// The copy from the remote side.
    pub remote_to_local: Copier,
    /// How far the bridge has come.
    pub state: BridgeState,
}

/// A copy that has not begun, and shuts its writer down at the end.
pub open spec fn fresh_copier() -> Copier {
    Copier { step: CopyStep::Read, pending: 0, total: 0, shut_down: true }
}

/// The end of a direction, with its outcome.
pub open spec fn first_end<E>(direction: Direction, result: Result<u64, E>) -> FirstEnd<E> {
    match direction {
        Direction::LocalToRemote => FirstEnd::LocalToRemote(result),
        Direction::RemoteToLocal => FirstEnd::RemoteToLocal(result),
    }
}

impl Bridge {
    /// A bridge that has not begun: both directions start with a read, and both
    /// shut their writers down at the end.
    pub open spec fn started(kind: BridgeKind) -> Bridge {
        Bridge {
            kind,
            local_to_remote: fresh_copier(),
            remote_to_local: fresh_copier(),
            state: BridgeState::Running,
        }
    }

    /// The copy of a direction.
    pub open spec fn copier(self, direction: Direction) -> Copier {
        match direction {
            Direction::LocalToRemote => self.local_to_remote,
            Direction::RemoteToLocal => self.remote_to_local,
        }
    }

    /// Whether a direction is still copied.
    pub open spec fn open_to(self, direction: Direction) -> bool {
        match self.state {
            BridgeState::Running => true,
            BridgeState::AwaitRemoteToLocal { .. } => direction is RemoteToLocal,
            BridgeState::AwaitLocalToRemote { .. } => direction is LocalToRemote,
            BridgeState::Over => false,
        }
    }

    /// What follows the first end of a direction.
    pub open spec fn decided<E>(self, first: FirstEnd<E>) -> BridgeNext<E> {
        match self.kind {
            BridgeKind::Connection => both_after(first),
            BridgeKind::Stdio => stdio_after(first),
        }
    }

    /// The bridge after the end of a direction, and what follows.
    pub open spec fn ended<E>(self, direction: Direction, result: Result<u64, E>) -> (
        Bridge,
        BridgeAction<E>,
    ) {
        let next = match self.state {
            BridgeState::AwaitRemoteToLocal { local_to_remote } => BridgeNext::Done(
                BridgeNext::AwaitRemoteToLocal { local_to_remote }.outcome_with(result),
            ),
            BridgeState::AwaitLocalToRemote { remote_to_local } => BridgeNext::Done(
                BridgeNext::AwaitLocalToRemote { remote_to_local }.outcome_with(result),
            ),
            _ => self.decided(first_end(direction, result)),
        };
        match next {
            BridgeNext::Done(outcome) => (
                Bridge { state: BridgeState::Over, ..self },
                BridgeAction::Over(outcome),
            ),
            BridgeNext::AwaitRemoteToLocal { local_to_remote } => (
                Bridge { state: BridgeState::AwaitRemoteToLocal { local_to_remote }, ..self },
                BridgeAction::Wait,
            ),
            BridgeNext::AwaitLocalToRemote { remote_to_local } => (
                Bridge { state: BridgeState::AwaitLocalToRemote { remote_to_local }, ..self },
                BridgeAction::Wait,
            ),
        }
    }

    /// The bridge after a step of a direction, and what follows. The step moves
    /// the copy of its own direction alone.
    pub open spec fn after<E>(self, direction: Direction, outcome: Result<usize, E>) -> (
        Bridge,
        BridgeAction<E>,
    ) {
        let (copier, next) = self.copier(direction).after(outcome);
        let moved = match direction {
            Direction::LocalToRemote => Bridge { local_to_remote: copier, ..self },
            Direction::RemoteToLocal => Bridge { remote_to_local: copier, ..self },
        };
        match next {
            CopyNext::Take(step) => (moved, BridgeAction::Take(step)),
            CopyNext::Finished(result) => moved.ended(direction, result),
        }
    }

    /// Starts a bridge. The first step of each direction is a read.
    pub fn start(kind: BridgeKind) -> (r: Bridge)
        ensures
            r == Bridge::started(kind),
            r.local_to_remote.step is Read && r.local_to_remote.shut_down,
            r.remote_to_local.step is Read && r.remote_to_local.shut_down,
    {
        Bridge {
            kind,
            local_to_remote: Copier::copy_flush_and_shutdown(),
            remote_to_local: Copier::copy_flush_and_shutdown(),
            state: BridgeState::Running,
        }
    }

    /// The step of a direction that is under way.
    pub fn step(&self, direction: Direction) -> (r: CopyStep)
        ensures
            r == self.copier(direction).step,
    {
        match direction {
            Direction::LocalToRemote => self.local_to_remote.step,
            Direction::RemoteToLocal => self.remote_to_local.step,
        }
    }

    /// Ends a direction.
    fn end<E>(&mut self, direction: Direction, result: Result<u64, E>) -> (r: BridgeAction<E>)
        ensures
            (*final(self), r) == old(self).ended(direction, result),
    {
        let next = match self.state {
            BridgeState::AwaitRemoteToLocal { local_to_remote } => {
                let waited = BridgeNext::AwaitRemoteToLocal { local_to_remote };
                BridgeNext::Done(waited.resume(result))
            },
            BridgeState::AwaitLocalToRemote { remote_to_local } => {
                let waited = BridgeNext::AwaitLocalToRemote { remote_to_local };
                BridgeNext::Done(waited.resume(result))
            },
            _ => {
                let first = match direction {
                    Direction::LocalToRemote => FirstEnd::LocalToRemote(result),
                    Direction::RemoteToLocal => FirstEnd::RemoteToLocal(result),
                };
                match self.kind {
                    BridgeKind::Connection => copy_both(first),
                    BridgeKind::Stdio => copy_stdio(first),
                }
            },
        };
        match next {
            BridgeNext::Done(outcome) => {
                self.state = BridgeState::Over;
                BridgeAction::Over(outcome)
            },
            BridgeNext::AwaitRemoteToLocal { local_to_remote } => {
                self.state = BridgeState::AwaitRemoteToLocal { local_to_remote };
                BridgeAction::Wait
            },
            BridgeNext::AwaitLocalToRemote { remote_to_local } => {
                self.state = BridgeState::AwaitLocalToRemote { remote_to_local };
                BridgeAction::Wait
            },
        }
    }

    /// Whether [`Bridge::advance`] may be called: the direction is still copied,
    /// and its count stays within its type.
    pub fn accepts<E>(&self, direction: Direction, outcome: &Result<usize, E>) -> (r: bool)
        ensures
            r == (self.open_to(direction) && self.copier(direction).fits(*outcome)),
    {
        let open = match self.state {
            BridgeState::Running => true,
            BridgeState::AwaitRemoteToLocal { .. } => match direction {
                Direction::RemoteToLocal => true,
                Direction::LocalToRemote => false,
            },
            BridgeState::AwaitLocalToRemote { .. } => match direction {
                Direction::RemoteToLocal => false,
                Direction::LocalToRemote => true,
            },
            BridgeState::Over => false,
        };
        let copier = match direction {
            Direction::LocalToRemote => &self.local_to_remote,
            Direction::RemoteToLocal => &self.remote_to_local,
        };
        match (copier.step, outcome) {
            (CopyStep::Flush, Ok(_)) => open && copier.pending as u64 <= u64::MAX - copier.total,
            _ => open,
        }
    }

    /// What follows the step of a direction that is under way, from its outcome.
    pub fn advance<E>(&mut self, direction: Direction, outcome: Result<usize, E>) -> (r:
        BridgeAction<E>)
        requires
            old(self).open_to(direction),
            old(self).copier(direction).fits(outcome),
        ensures
            (*final(self), r) == old(self).after(direction, outcome),
    {
        let next = match direction {
            Direction::LocalToRemote => self.local_to_remote.advance(outcome),
            Direction::RemoteToLocal => self.remote_to_local.advance(outcome),
        };
        match next {
            CopyNext::Take(step) => BridgeAction::Take(step),
            CopyNext::Finished(result) => self.end(direction, result),
        }
    }
}

/// The outcome of a step of one direction.
#[derive(Debug, PartialEq, Eq)]
pub struct BridgeEvent<E> {
    /// The direction that took the step.
    pub direction: Direction,
    /// What came of it.
    pub outcome: Result<usize, E>,
}

/// A bridge after a series of outcomes in both directions.
pub open spec fn bridge_after<E>(kind: BridgeKind, events: Seq<BridgeEvent<E>>) -> Bridge
    decreases events.len(),
{
    if events.len() == 0 {
        Bridge::started(kind)
    } else {
        bridge_after(kind, events.drop_last()).after(
            events.last().direction,
            events.last().outcome,
        ).0
    }
}

/// Whether a bridge can see a series of outcomes: each is that of a direction
/// that is still copied, and the counts stay within their type.
pub open spec fn can_happen<E>(kind: BridgeKind, events: Seq<BridgeEvent<E>>) -> bool
    decreases events.len(),
{
    events.len() == 0 || {
        let before = bridge_after(kind, events.drop_last());
        &&& can_happen(kind, events.drop_last())
        &&& before.open_to(events.last().direction)
        &&& before.copier(events.last().direction).fits(events.last().outcome)
    }
}

/// The outcomes of one direction among those of both, in order.
pub open spec fn outcomes_of<E>(events: Seq<BridgeEvent<E>>, direction: Direction) -> Seq<
    Result<usize, E>,
>
    decreases events.len(),
{
    if events.len() == 0 {
        seq![]
    } else if events.last().direction == direction {
        outcomes_of(events.drop_last(), direction).push(events.last().outcome)
    } else {
        outcomes_of(events.drop_last(), direction)
    }
}

/// Whether a copy has ended well: its writer took exactly what its reader gave,
/// `total` bytes, and was then shut down.
pub open spec fn delivered<E>(
    outcomes: Seq<Result<usize, E>>,
    data: Seq<Seq<u8>>,
    total: u64,
) -> bool {
    &&& written(fresh_copier(), outcomes, data) == received(fresh_copier(), outcomes, data)
    &&& written(fresh_copier(), outcomes, data).len() == total
    &&& shut_down_last(outcomes)
}

/// Whether the last of a series of outcomes is that of shutting the writer down,
/// and that went well.
pub open spec fn shut_down_last<E>(outcomes: Seq<Result<usize, E>>) -> bool {
    &&& outcomes.len() > 0
    &&& outcomes.last() is Ok
    &&& copier_after(fresh_copier(), outcomes.drop_last()).step is Shutdown
}

/// The copy of each direction of a bridge is what its own outcomes make of it,
/// from the start on: it goes on as it is whatever becomes of the other, also
/// after the other has ended.
pub proof fn law_directions_are_copied_apart<E>(
    kind: BridgeKind,
    events: Seq<BridgeEvent<E>>,
    direction: Direction,
)
    ensures
        bridge_after(kind, events).copier(direction) == copier_after(
            fresh_copier(),
            outcomes_of(events, direction),
        ),
        bridge_after(kind, events).kind == kind,
    decreases events.len(),
{
    if events.len() > 0 {
        let earlier = events.drop_last();
        law_directions_are_copied_apart(kind, earlier, direction);
        let last = events.last();
        if last.direction == direction {
            let outcomes = outcomes_of(earlier, direction);
            assert(outcomes.push(last.outcome).drop_last() =~= outcomes);
        }
    }
}

proof fn lemma_shuts_down<E>(outcomes: Seq<Result<usize, E>>)
    ensures
        copier_after(fresh_copier(), outcomes).shut_down,
    decreases outcomes.len(),
{
    if outcomes.len() > 0 {
        lemma_shuts_down(outcomes.drop_last());
    }
}

proof fn lemma_ended<E>(kind: BridgeKind, events: Seq<BridgeEvent<E>>)
    requires
        can_happen(kind, events),
    ensures
        counts_fit(fresh_copier(), outcomes_of(events, Direction::LocalToRemote)),
        counts_fit(fresh_copier(), outcomes_of(events, Direction::RemoteToLocal)),
        bridge_after(kind, events).state matches BridgeState::AwaitRemoteToLocal { local_to_remote }
            ==> {
            let outcomes = outcomes_of(events, Direction::LocalToRemote);
            shut_down_last(outcomes) && local_to_remote == copier_after(
                fresh_copier(),
                outcomes.drop_last(),
            ).total
        },
        bridge_after(kind, events).state matches BridgeState::AwaitLocalToRemote { remote_to_local }
            ==> {
            let outcomes = outcomes_of(events, Direction::RemoteToLocal);
            shut_down_last(outcomes) && remote_to_local == copier_after(
                fresh_copier(),
                outcomes.drop_last(),
            ).total
        },
    decreases events.len(),
{
    if events.len() > 0 {
        let earlier = events.drop_last();
        let last = events.last();
        lemma_ended(kind, earlier);
        let outcomes = outcomes_of(earlier, last.direction);
        law_directions_are_copied_apart(kind, earlier, last.direction);
        lemma_shuts_down(outcomes);
        assert(outcomes.push(last.outcome).drop_last() =~= outcomes);
        assert(outcomes_of(events, last.direction) == outcomes.push(last.outcome));
    }
}

proof fn lemma_delivered<E>(outcomes: Seq<Result<usize, E>>, data: Seq<Seq<u8>>)
    requires
        counts_fit(fresh_copier(), outcomes),
        reads_fit(outcomes, data),
        shut_down_last(outcomes),
    ensures
        delivered(
            outcomes,
            data,
            copier_after(fresh_copier(), outcomes.drop_last()).total,
        ),
{
    let earlier = outcomes.drop_last();
    assert forall|i: int| 0 <= i < earlier.len() && earlier[i] is Ok implies (
    #[trigger] earlier[i])->Ok_0 <= data[i].len() by {
        assert(earlier[i] == outcomes[i]);
    }
    lemma_written_and_buffered(fresh_copier(), earlier, data);
    lemma_received_length(fresh_copier(), earlier, data);
    lemma_copied_and_in_flight(fresh_copier(), earlier);
    assert(written(fresh_copier(), outcomes, data) =~= written(fresh_copier(), earlier, data));
    assert(received(fresh_copier(), outcomes, data) =~= received(fresh_copier(), earlier, data));
}

/// What a bridge that is over without an error has done. What the remote side
/// sent was delivered here and the writer here shut down; and so in the other
/// direction, unless the bridge is one of standard input and output whose remote
/// side closed first: then nothing is counted to the remote side. The counts are
/// those of the bytes that were delivered.
pub proof fn law_bridges_deliver<E>(
    kind: BridgeKind,
    events: Seq<BridgeEvent<E>>,
    last: BridgeEvent<E>,
    sent_data: Seq<Seq<u8>>,
    received_data: Seq<Seq<u8>>,
    sent: u64,
    received_count: u64,
)
    requires
        can_happen(kind, events.push(last)),
        reads_fit(outcomes_of(events.push(last), Direction::LocalToRemote), sent_data),
        reads_fit(outcomes_of(events.push(last), Direction::RemoteToLocal), received_data),
        bridge_after(kind, events).after(last.direction, last.outcome).1 == BridgeAction::<
            E,
        >::Over(Ok((sent, received_count))),
    ensures
        delivered(
            outcomes_of(events.push(last), Direction::RemoteToLocal),
            received_data,
            received_count,
        ),
        if kind is Stdio && bridge_after(kind, events).state is Running {
            sent == 0
        } else {
            delivered(
                outcomes_of(events.push(last), Direction::LocalToRemote),
                sent_data,
                sent,
            )
        },
{
    let all = events.push(last);
    let outcomes = outcomes_of(events, last.direction);
    assert(all.drop_last() =~= events);
    lemma_ended(kind, events);
    lemma_ended(kind, all);
    law_directions_are_copied_apart(kind, events, last.direction);
    lemma_shuts_down(outcomes);
    assert(outcomes.push(last.outcome).drop_last() =~= outcomes);
    assert(outcomes_of(all, last.direction) == outcomes.push(last.outcome));
    assert(shut_down_last(outcomes_of(all, last.direction)));
    lemma_delivered(
        outcomes_of(all, last.direction),
        if last.direction is LocalToRemote {
            sent_data
        } else {
            received_data
        },
    );
    match bridge_after(kind, events).state {
        BridgeState::AwaitRemoteToLocal { .. } => {
            lemma_delivered(outcomes_of(all, Direction::LocalToRemote), sent_data);
        },
        BridgeState::AwaitLocalToRemote { .. } => {
            lemma_delivered(outcomes_of(all, Direction::RemoteToLocal), received_data);
        },
        _ => {},
    }
}

/// A step that fails, in either direction and at any time, ends the bridge with
/// its error.
pub proof fn law_bridges_stop_at_the_first_error<E>(bridge: Bridge, direction: Direction, e: E)
    requires
        bridge.open_to(direction),
    ensures
        bridge.after(direction, Err::<usize, E>(e)).1 == BridgeAction::<E>::Over(Err(e)),
        bridge.after(direction, Err::<usize, E>(e)).0.state is Over,
{
}

/// One step of setting a bridge up. The steps are taken as a plan: see
/// [`crate::plan::next_step`].
#[derive(Clone, Copy, Debug, PartialEq, Eq, Structural)]
pub enum BridgeStep {
    /// Send small packets of the local connection at once.
    SetNoDelay,
    /// Connect to the remote endpoint.
    Connect,
    /// Open a stream in both directions.
    OpenStream,
    /// Write the bytes that a roost expects first.
    WritePreface,
    /// Flush them.
    FlushPreface,
    /// Bridge the local connection and the stream.
    CopyBoth,
    /// Bridge standard input and output and the stream.
    CopyStdio,
}

/// The steps of [`bridge_connection`].
pub open spec fn connection_steps() -> Seq<BridgeStep> {
    seq![
        BridgeStep::SetNoDelay,
        BridgeStep::Connect,
        BridgeStep::OpenStream,
        BridgeStep::WritePreface,
        BridgeStep::FlushPreface,
        BridgeStep::CopyBoth,
    ]
}

/// The steps of a bridge of standard input and output.
pub open spec fn stdio_steps() -> Seq<BridgeStep> {
    seq![
        BridgeStep::Connect,
        BridgeStep::OpenStream,
        BridgeStep::WritePreface,
        BridgeStep::FlushPreface,
        BridgeStep::CopyStdio,
    ]
}

/// How a local connection is bridged to a remote endpoint.
pub fn bridge_connection() -> (r: Vec<BridgeStep>)
    ensures
        r@ == connection_steps(),
{
    let steps = vec![
        BridgeStep::SetNoDelay,
        BridgeStep::Connect,
        BridgeStep::OpenStream,
        BridgeStep::WritePreface,
        BridgeStep::FlushPreface,
        BridgeStep::CopyBoth,
    ];
    assert(steps@ == connection_steps());
    steps
}

/// What happened to the listener for local connections or to a bridge that it
/// started.
#[derive(Debug, PartialEq, Eq)]
pub enum ListenerEvent<C, E> {
    /// A connection was accepted.
    Accepted(C),
    /// Accepting a connection failed.
    AcceptFailed(E),
    /// A bridge ended well.
    Delivered,
    /// A bridge failed.
    Lost(E),
}

/// What the listener does next.
#[derive(Debug, PartialEq, Eq)]
pub enum ListenerAction<C, E> {
    /// Bridge this connection beside the others, and go on.
    Bridge(C),
    /// Say that a bridge failed, and go on.
    Report(E),
    /// Go on.
    Continue,
    /// Stop with this error.
    Stop(E),
}

/// What the listener for local connections does after an event. It stops when
/// it can accept no more; a bridge that fails is only reported.
pub fn prepare_pigeon<C, E>(event: ListenerEvent<C, E>) -> (r: ListenerAction<C, E>)
    ensures
        r == (match event {
            ListenerEvent::Accepted(connection) => ListenerAction::Bridge(connection),
            ListenerEvent::AcceptFailed(e) => ListenerAction::Stop(e),
            ListenerEvent::Delivered => ListenerAction::Continue,
            ListenerEvent::Lost(e) => ListenerAction::Report(e),
        }),
{
    match event {
        ListenerEvent::Accepted(connection) => ListenerAction::Bridge(connection),
        ListenerEvent::AcceptFailed(e) => ListenerAction::Stop(e),
        ListenerEvent::Delivered => ListenerAction::Continue,
        ListenerEvent::Lost(e) => ListenerAction::Report(e),
    }
}

/// A roost gets the preface, flushed, before any copied byte, on both kinds of
/// bridge; and bytes are copied last.
pub proof fn law_preface_before_copying(stdio: bool, i: int)
    requires
        ({
            let steps = if stdio { stdio_steps() } else { connection_steps() };
            0 <= i < steps.len() && (steps[i] is CopyBoth || steps[i] is CopyStdio)
        }),
    ensures
        ({
            let steps = if stdio { stdio_steps() } else { connection_steps() };
            &&& i == steps.len() - 1
            &&& steps[i - 1] is FlushPreface
            &&& steps[i - 2] is WritePreface
            &&& steps[i] is CopyStdio <==> stdio
        }),
{
}

/// A read of nothing is the end of the reader, whatever was copied before: the
/// writer is shut down if it has to be, and the copy finishes with what it has
/// counted. So every copy whose reader is at its end finishes, and it does so
/// within two steps.
pub proof fn law_copies_end_with_their_reader<E>(c: Copier, n: usize)
    requires
        c.step is Read,
    ensures
        !c.shut_down ==> c.after(Ok::<usize, E>(0)).1 == CopyNext::<E>::Finished(Ok(c.total)),
        c.shut_down ==> c.after(Ok::<usize, E>(0)).1 == CopyNext::<E>::Take(CopyStep::Shutdown),
        c.shut_down ==> c.after(Ok::<usize, E>(0)).0.after(Ok::<usize, E>(n)).1 == CopyNext::<
            E,
        >::Finished(Ok(c.total)),
{
}

/// The step that is asked for is the one whose outcome comes next; a copy that is
/// asked for no step is over. Whether the writer is shut down at the end never
/// changes, and nothing but a flush adds to the count.
pub proof fn law_copies_keep_their_plan<E>(c: Copier, outcome: Result<usize, E>)
    ensures
        c.after(outcome).1 matches CopyNext::Take(step) ==> c.after(outcome).0.step == step,
        c.after(outcome).0.shut_down == c.shut_down,
        !(c.step is Flush) ==> c.after(outcome).0.total == c.total,
        c.after(outcome).1 matches CopyNext::Finished(result) ==> match result {
            Ok(total) => total == c.total && outcome == Ok::<usize, E>(outcome->Ok_0) && (
            c.step is Shutdown || (c.step is Read && !c.shut_down)),
            Err(e) => outcome == Err::<usize, E>(e),
        },
{
}

/// The count of a copy is in the way of nothing but a flush that it cannot hold.
pub proof fn law_counts_fit_below_their_bound<E>(c: Copier, outcome: Result<usize, E>)
    ensures
        !c.fits(outcome) <==> c.step is Flush && outcome is Ok && c.total + c.pending > u64::MAX,
{
}

/// The end of a reader ends a bridge when it has to. If it is that of the remote
/// side and this side is standard input and output, the writer here is shut down
/// and the bridge is over, also if no byte was ever sent. If it is the first end of
/// another kind, the writer is shut down and the other direction is still copied,
/// and this one no more.
pub proof fn law_bridges_end_when_they_have_to<E>(bridge: Bridge, direction: Direction, n: usize)
    requires
        bridge.state is Running,
        bridge.copier(direction).step is Read,
        bridge.copier(direction).shut_down,
    ensures
        ({
            let (closing, asked) = bridge.after(direction, Ok::<usize, E>(0));
            let (ended, action) = closing.after(direction, Ok::<usize, E>(n));
            let other = if direction is LocalToRemote {
                Direction::RemoteToLocal
            } else {
                Direction::LocalToRemote
            };
            &&& asked == BridgeAction::<E>::Take(CopyStep::Shutdown)
            &&& closing.open_to(direction) && closing.open_to(other)
            &&& if direction is RemoteToLocal && bridge.kind is Stdio {
                &&& action == BridgeAction::<E>::Over(Ok((0u64, bridge.remote_to_local.total)))
                &&& !ended.open_to(direction) && !ended.open_to(other)
            } else {
                &&& action == BridgeAction::<E>::Wait
                &&& !ended.open_to(direction) && ended.open_to(other)
                &&& ended.copier(other) == bridge.copier(other)
            }
        }),
{
}

/// Once one direction has ended, the end of the other's reader ends the bridge,
/// with the counts of both.
pub proof fn law_second_ends_end_the_bridge<E>(
    bridge: Bridge,
    first: Direction,
    n: usize,
    second: Direction,
    m: usize,
)
    requires
        bridge.state is Running,
        first != second,
        !(bridge.kind is Stdio && first is RemoteToLocal),
        bridge.copier(first).step is Shutdown,
        bridge.copier(second).step is Read,
        bridge.copier(second).shut_down,
    ensures
        ({
            let waiting = bridge.after(first, Ok::<usize, E>(n)).0;
            let closing = waiting.after(second, Ok::<usize, E>(0)).0;
            let (ended, action) = closing.after(second, Ok::<usize, E>(m));
            &&& action == BridgeAction::<E>::Over(
                Ok((bridge.local_to_remote.total, bridge.remote_to_local.total)),
            )
            &&& ended.state is Over
        }),
{
}

/// While a direction has steps to take, its bridge asks for just those, and both
/// directions stay as open as they were.
pub proof fn law_bridges_ask_for_the_steps_of_their_copies<E>(
    bridge: Bridge,
    direction: Direction,
    outcome: Result<usize, E>,
    any: Direction,
)
    requires
        bridge.copier(direction).after(outcome).1 is Take,
    ensures
        bridge.after(direction, outcome).1 == BridgeAction::<E>::Take(
            bridge.copier(direction).after(outcome).1->Take_0,
        ),
        bridge.after(direction, outcome).0.open_to(any) == bridge.open_to(any),
        bridge.after(direction, outcome).0.kind == bridge.kind,
{
}

} // verus!
