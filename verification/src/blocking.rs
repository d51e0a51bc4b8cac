//! The cooperative blocking read.
//!
//! A blocked read is a busy poll with a yield. The reader attempts a
//! non-blocking read. If that delivers nothing it enters a loop: it attempts
//! again and, each time the attempt delivers nothing, yields to the
//! scheduler before the next one, without bound. The attempts and the
//! yields are made by the caller; this module decides which of them comes
//! next and when the read returns.

use vstd::prelude::*;

verus! {

/// Where a blocked read stands.
#[derive(Clone, Copy, Debug, PartialEq, Eq, Structural)]
pub enum BlockedRead {
    /// The first attempt is due.
    First,
    /// An attempt inside the retry loop is due.
    Retry,
    /// A yield is due.
    Yield,
    /// The read is over, with this many bytes.
    Done(usize),
}

/// What the caller of a blocked read does next.
#[derive(Clone, Copy, Debug, PartialEq, Eq, Structural)]
pub enum ReadAction {
    /// Attempt a non-blocking read and report its length with
    /// `ReadEvent::Read`.
    Attempt,
    /// Yield to the scheduler and report the return with
    /// `ReadEvent::Resumed`.
    Yield,
    /// Return this many bytes to the reader.
    Return(usize),
}

/// What the caller reports back to a blocked read.
#[derive(Clone, Copy, Debug, PartialEq, Eq, Structural)]
pub enum ReadEvent {
    /// The non-blocking read delivered this many bytes.
    Read(usize),
    /// The scheduler gave control back after a yield.
    Resumed,
}

impl BlockedRead {
    /// The state in which a read into a buffer of `buf_len` bytes begins.
    pub open spec fn spec_start(buf_len: usize) -> BlockedRead {
        if buf_len == 0 {
            BlockedRead::Done(0)
        } else {
            BlockedRead::First
        }
    }

    /// What the caller does in this state.
    pub open spec fn spec_action(self) -> ReadAction {
        match self {
            BlockedRead::First => ReadAction::Attempt,
            BlockedRead::Retry => ReadAction::Attempt,
            BlockedRead::Yield => ReadAction::Yield,
            BlockedRead::Done(len) => ReadAction::Return(len),
        }
    }

    /// The state after `event`. An attempt that delivers bytes ends the
    /// read. The first attempt, if it delivers nothing, is followed by
    /// another attempt at once; an attempt of the retry loop that delivers
    /// nothing is followed by a yield, and the yield by the next attempt. An
    /// event that the state did not ask for changes nothing.
    pub open spec fn spec_step(self, event: ReadEvent) -> BlockedRead {
        match (self, event) {
            (BlockedRead::First, ReadEvent::Read(len)) => if len > 0 {
                BlockedRead::Done(len)
            } else {
                BlockedRead::Retry
            },
            (BlockedRead::Retry, ReadEvent::Read(len)) => if len > 0 {
                BlockedRead::Done(len)
            } else {
                BlockedRead::Yield
            },
            (BlockedRead::Yield, ReadEvent::Resumed) => BlockedRead::Retry,
            _ => self,
        }
    }

    /// The state after all of `events`, in order.
    pub open spec fn spec_run(self, events: Seq<ReadEvent>) -> BlockedRead
        decreases events.len(),
    {
        if events.len() == 0 {
            self
        } else {
            self.spec_step(events.first()).spec_run(events.drop_first())
        }
    }

    /// Begins a read into a buffer of `buf_len` bytes. A read into an empty
    /// buffer is over at once, with 0 bytes and no attempt on the transport.
    pub fn start(buf_len: usize) -> (state: BlockedRead)
        ensures
            state == Self::spec_start(buf_len),
    {
        if buf_len == 0 {
            BlockedRead::Done(0)
        } else {
            BlockedRead::First
        }
    }

    /// What the caller does in this state.
    pub fn action(self) -> (action: ReadAction)
        ensures
            action == self.spec_action(),
    {
        match self {
            BlockedRead::First => ReadAction::Attempt,
            BlockedRead::Retry => ReadAction::Attempt,
            BlockedRead::Yield => ReadAction::Yield,
            BlockedRead::Done(len) => ReadAction::Return(len),
        }
    }

    /// Takes the caller's report of what it did and gives the next state.
    pub fn step(self, event: ReadEvent) -> (next: BlockedRead)
        ensures
            next == self.spec_step(event),
    {
        match (self, event) {
            (BlockedRead::First, ReadEvent::Read(len)) => if len > 0 {
                BlockedRead::Done(len)
            } else {
                BlockedRead::Retry
            },
            (BlockedRead::Retry, ReadEvent::Read(len)) => if len > 0 {
                BlockedRead::Done(len)
            } else {
                BlockedRead::Yield
            },
            (BlockedRead::Yield, ReadEvent::Resumed) => BlockedRead::Retry,
            _ => self,
        }
    }
}

/// What a reader does from its first attempt on while `polls` attempts in a
/// row deliver nothing, up to the point where the next attempt is due: the
/// first empty attempt, then each further one with the yield that follows
/// it.
pub open spec fn starved(polls: nat) -> Seq<ReadEvent>
    decreases polls,
{
    if polls == 0 {
        Seq::empty()
    } else if polls == 1 {
        seq![ReadEvent::Read(0)]
    } else {
        starved((polls - 1) as nat) + seq![ReadEvent::Read(0), ReadEvent::Resumed]
    }
}

/// The number of yields among `events`.
pub open spec fn yields(events: Seq<ReadEvent>) -> nat
    decreases events.len(),
{
    if events.len() == 0 {
        0
    } else if events.last() == ReadEvent::Resumed {
        yields(events.drop_last()) + 1
    } else {
        yields(events.drop_last())
    }
}

/// Running a state through `a + b` is running it through `a` and the result
/// through `b`.
pub proof fn lemma_run_concat(state: BlockedRead, a: Seq<ReadEvent>, b: Seq<ReadEvent>)
    ensures
        state.spec_run(a + b) == state.spec_run(a).spec_run(b),
    decreases a.len(),
{
    if a.len() == 0 {
        assert(a + b =~= b);
    } else {
        assert((a + b).first() == a.first());
        assert((a + b).drop_first() =~= a.drop_first() + b);
        lemma_run_concat(state.spec_step(a.first()), a.drop_first(), b);
    }
}

/// A state other than `Done(0)` never becomes `Done(0)`.
pub proof fn lemma_run_keeps_done_positive(state: BlockedRead, events: Seq<ReadEvent>)
    requires
        state != BlockedRead::Done(0),
    ensures
        state.spec_run(events) != BlockedRead::Done(0),
    decreases events.len(),
{
    if events.len() > 0 {
        lemma_run_keeps_done_positive(state.spec_step(events.first()), events.drop_first());
    }
}

/// A read into a non-empty buffer never returns 0 bytes, whatever the
/// transport and the scheduler report and in whatever order.
pub proof fn lemma_nonempty_read_returns_bytes(buf_len: usize, events: Seq<ReadEvent>)
    requires
        buf_len > 0,
    ensures
        BlockedRead::spec_start(buf_len).spec_run(events).spec_action() != ReadAction::Return(0),
{
    lemma_run_keeps_done_positive(BlockedRead::spec_start(buf_len), events);
}

/// A read into an empty buffer returns 0 bytes at once: its first action is
/// to return, with no attempt before it.
pub proof fn lemma_empty_read_returns_at_once()
    ensures
        BlockedRead::spec_start(0).spec_action() == ReadAction::Return(0),
{
}

/// A read that is over stays over, with the same length.
pub proof fn lemma_done_is_final(len: usize, events: Seq<ReadEvent>)
    ensures
        BlockedRead::Done(len).spec_run(events) == BlockedRead::Done(len),
    decreases events.len(),
{
    if events.len() > 0 {
        lemma_done_is_final(len, events.drop_first());
    }
}

/// A read returns only upon an attempt that delivered bytes: as long as
/// every attempt comes back empty the read is not over, however long that
/// lasts. After `polls` empty attempts it has yielded once for each but the
/// first, and the next thing it does is attempt again.
pub proof fn lemma_starved_read_keeps_waiting(buf_len: usize, polls: nat)
    requires
        buf_len > 0,
    ensures
        BlockedRead::spec_start(buf_len).spec_run(starved(polls)).spec_action()
            == ReadAction::Attempt,
        polls > 0 ==> BlockedRead::spec_start(buf_len).spec_run(starved(polls))
            == BlockedRead::Retry,
        polls > 0 ==> yields(starved(polls)) == polls - 1,
        polls == 0 ==> yields(starved(polls)) == 0,
    decreases polls,
{
    let start = BlockedRead::spec_start(buf_len);
    if polls == 1 {
        let only = seq![ReadEvent::Read(0)];
        assert(only.drop_first() =~= Seq::<ReadEvent>::empty());
        assert(only.drop_last() =~= Seq::<ReadEvent>::empty());
        assert(start.spec_run(only) == BlockedRead::Retry) by {
            reveal_with_fuel(BlockedRead::spec_run, 2);
        }
        assert(yields(only) == 0) by {
            reveal_with_fuel(yields, 2);
        }
    } else if polls > 1 {
        let before = starved((polls - 1) as nat);
        let round = seq![ReadEvent::Read(0), ReadEvent::Resumed];
        lemma_starved_read_keeps_waiting(buf_len, (polls - 1) as nat);
        lemma_run_concat(start, before, round);
        assert(round.drop_first() =~= seq![ReadEvent::Resumed]);
        assert(round.drop_first().drop_first() =~= Seq::<ReadEvent>::empty());
        assert(BlockedRead::Retry.spec_run(round) == BlockedRead::Retry) by {
            reveal_with_fuel(BlockedRead::spec_run, 3);
        }
        let all = before + round;
        assert(all.drop_last() =~= before.push(ReadEvent::Read(0)));
        assert(all.drop_last().drop_last() =~= before);
        assert(all.last() == ReadEvent::Resumed);
        assert(all.drop_last().last() == ReadEvent::Read(0));
        assert(yields(all) == yields(before) + 1) by {
            reveal_with_fuel(yields, 3);
        }
    }
}

/// A read into a non-empty buffer that finds the transport empty `polls`
/// times and then gets `len > 0` bytes returns exactly those `len` bytes,
/// on the attempt that delivered them.
pub proof fn lemma_read_returns_first_bytes(buf_len: usize, polls: nat, len: usize)
    requires
        buf_len > 0,
        len > 0,
    ensures
        BlockedRead::spec_start(buf_len).spec_run(starved(polls).push(ReadEvent::Read(len)))
            == BlockedRead::Done(len),
{
    let start = BlockedRead::spec_start(buf_len);
    let last = seq![ReadEvent::Read(len)];
    lemma_starved_read_keeps_waiting(buf_len, polls);
    assert(starved(polls).push(ReadEvent::Read(len)) =~= starved(polls) + last);
    lemma_run_concat(start, starved(polls), last);
    assert(last.drop_first() =~= Seq::<ReadEvent>::empty());
    let waiting = start.spec_run(starved(polls));
    assert(polls == 0 ==> waiting == BlockedRead::First) by {
        assert(starved(0) =~= Seq::<ReadEvent>::empty());
    }
    assert(waiting.spec_run(last) == BlockedRead::Done(len)) by {
        reveal_with_fuel(BlockedRead::spec_run, 2);
    }
}

} // verus!
