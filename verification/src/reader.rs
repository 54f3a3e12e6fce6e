//! The event reader: a two-state machine over the outcomes of device reads.
//! It turns key presses into ticks while the stream is in step with the
//! kernel, and drains without ticking while it recovers from dropped events.

use vstd::prelude::*;
use crate::event::{RawEvent, EV_KEY, KEY_PRESSED};

verus! {

/// What one read of the device returned.
#[derive(Clone, Copy, Debug, PartialEq, Eq, Structural)]
pub enum ReadOutcome {
    /// A record was delivered.
    Event(RawEvent),
    /// The read failed; the stream is where it was.
    Failed,
}

impl ReadOutcome {
    /// The read delivered the dropped-events marker.
    pub open spec fn is_marker(self) -> bool {
        self matches ReadOutcome::Event(ev) && ev.dropped
    }

    /// The read delivered a key event with the value of a press.
    pub open spec fn delivers_press(self) -> bool {
        self matches ReadOutcome::Event(ev) && ev.is_key_press()
    }

    /// The read delivered a key press that is not a marker.
    pub open spec fn is_press(self) -> bool {
        self.delivers_press() && !self.is_marker()
    }
}

/// How the next read is to be issued.
#[derive(Clone, Copy, Debug, PartialEq, Eq, Structural)]
pub enum ReadMode {
    /// Wait for the next event of the live stream.
    Blocking,
    /// Fetch the next pending event of the resynchronisation.
    Drain,
}

/// One qualifying key press. It carries nothing but its occurrence.
#[derive(Clone, Copy, Debug, PartialEq, Eq, Structural)]
pub struct Tick {}

/// `n` ticks in a row.
pub open spec fn ticks(n: nat) -> Seq<Tick> {
    Seq::new(n, |i: int| Tick {})
}

/// Where the reader stands with respect to the kernel's event stream.
#[derive(Clone, Copy, Debug, PartialEq, Eq, Structural)]
pub enum ReaderState {
    /// Reads deliver live events.
    Synced,
    /// Events were dropped; reads drain the kernel's snapshot.
    Resyncing,
}

impl ReaderState {
    /// The state after one read. A marker starts a resynchronisation when the
    /// reader is in step and ends it when the reader is draining; nothing else
    /// moves the state.
    pub open spec fn after(self, read: ReadOutcome) -> ReaderState {
        if read.is_marker() {
            match self {
                ReaderState::Synced => ReaderState::Resyncing,
                ReaderState::Resyncing => ReaderState::Synced,
            }
        } else {
            self
        }
    }

    /// Whether one read makes the reader emit a tick.
    pub open spec fn emits(self, read: ReadOutcome) -> bool {
        self == ReaderState::Synced && read.is_press()
    }

    /// The state after a sequence of reads.
    pub open spec fn after_all(self, reads: Seq<ReadOutcome>) -> ReaderState
        decreases reads.len(),
    {
        if reads.len() == 0 {
            self
        } else {
            self.after_all(reads.drop_last()).after(reads.last())
        }
    }

    /// The number of ticks emitted over a sequence of reads.
    pub open spec fn ticks_over(self, reads: Seq<ReadOutcome>) -> nat
        decreases reads.len(),
    {
        if reads.len() == 0 {
            0
        } else {
            let before = self.ticks_over(reads.drop_last());
            if self.after_all(reads.drop_last()).emits(reads.last()) {
                before + 1
            } else {
                before
            }
        }
    }

    /// The state in which a session starts.
    pub fn new() -> (state: ReaderState)
        ensures
            state == ReaderState::Synced,
    {
        ReaderState::Synced
    }

    /// The kind of read to issue in this state.
    pub fn read_mode(self) -> (mode: ReadMode)
        ensures
            mode == (match self {
                ReaderState::Synced => ReadMode::Blocking,
                ReaderState::Resyncing => ReadMode::Drain,
            }),
    {
        match self {
            ReaderState::Synced => ReadMode::Blocking,
            ReaderState::Resyncing => ReadMode::Drain,
        }
    }

    /// Takes the outcome of one read: the next state, and a tick where the
    /// read was a key press on the live stream.
    pub fn step(self, read: ReadOutcome) -> (res: (ReaderState, Option<Tick>))
        ensures
            res.0 == self.after(read),
            res.1.is_some() == self.emits(read),
            res.1.is_some() ==> (read matches ReadOutcome::Event(ev) && ev.kind == EV_KEY
                && ev.value == KEY_PRESSED),
    {
        match (self, read) {
            (ReaderState::Synced, ReadOutcome::Event(ev)) => {
                if ev.dropped {
                    (ReaderState::Resyncing, None)
                } else if ev.is_key_press() {
                    (ReaderState::Synced, Some(Tick {}))
                } else {
                    (ReaderState::Synced, None)
                }
            },
            (ReaderState::Resyncing, ReadOutcome::Event(ev)) => {
                if ev.dropped {
                    (ReaderState::Synced, None)
                } else {
                    (ReaderState::Resyncing, None)
                }
            },
            (state, ReadOutcome::Failed) => (state, None),
        }
    }
}


/// The number of reads that delivered a key event with the value of a press.
pub open spec fn presses(reads: Seq<ReadOutcome>) -> nat {
    reads.filter(|r: ReadOutcome| r.delivers_press()).len()
}

/// No read of the sequence delivered the dropped-events marker.
pub open spec fn no_markers(reads: Seq<ReadOutcome>) -> bool {
    forall|i: int| 0 <= i < reads.len() ==> !(#[trigger] reads[i]).is_marker()
}

/// The read of place `i` makes the reader emit a tick, when the reader
/// starts the stream in step.
pub open spec fn live_at(reads: Seq<ReadOutcome>, i: int) -> bool {
    ReaderState::Synced.after_all(reads.take(i)).emits(reads[i])
}

/// Every press of the stream arrives while the reader is in step, on a read
/// that is not a marker.
pub open spec fn every_press_is_live(reads: Seq<ReadOutcome>) -> bool {
    forall|i: int|
        0 <= i < reads.len() && reads[i].delivers_press() ==> #[trigger] live_at(reads, i)
}

proof fn lemma_live_at_front(reads: Seq<ReadOutcome>, i: int)
    requires
        0 <= i < reads.len() - 1,
    ensures
        live_at(reads, i) == live_at(reads.drop_last(), i),
        reads[i] == reads.drop_last()[i],
{
    assert(reads.take(i) =~= reads.drop_last().take(i));
}

proof fn lemma_presses_push(reads: Seq<ReadOutcome>)
    requires
        reads.len() > 0,
    ensures
        presses(reads) == presses(reads.drop_last()) + (if reads.last().delivers_press() {
            1nat
        } else {
            0nat
        }),
{
    reveal(Seq::filter);
}

/// Running the reader over two sequences of reads, one after the other, is
/// running it over the second from the state that the first leaves; the
/// ticks add up.
pub proof fn lemma_run_concat(state: ReaderState, first: Seq<ReadOutcome>, second: Seq<ReadOutcome>)
    ensures
        state.after_all(first + second) == state.after_all(first).after_all(second),
        state.ticks_over(first + second) == state.ticks_over(first) + state.after_all(
            first,
        ).ticks_over(second),
    decreases second.len(),
{
    if second.len() == 0 {
        assert(first + second =~= first);
    } else {
        assert((first + second).drop_last() =~= first + second.drop_last());
        assert((first + second).last() == second.last());
        lemma_run_concat(state, first, second.drop_last());
    }
}

/// Whatever the reads and wherever the reader starts, it emits a tick only
/// for a key press: the ticks never outnumber the press events, so releases
/// and repeats produce none.
pub proof fn lemma_ticks_at_most_presses(state: ReaderState, reads: Seq<ReadOutcome>)
    ensures
        state.ticks_over(reads) <= presses(reads),
    decreases reads.len(),
{
    if reads.len() > 0 {
        lemma_ticks_at_most_presses(state, reads.drop_last());
        lemma_presses_push(reads);
    }
}

/// The ticks of a stream number its key presses if and only if every press
/// is live: a press that arrives on a marker, or while the reader drains, is
/// the only kind that goes without a tick.
pub proof fn lemma_ticks_equal_presses_iff(reads: Seq<ReadOutcome>)
    ensures
        ReaderState::Synced.ticks_over(reads) == presses(reads) <==> every_press_is_live(reads),
    decreases reads.len(),
{
    let start = ReaderState::Synced;
    if reads.len() > 0 {
        let front = reads.drop_last();
        let last = reads.len() - 1;
        lemma_ticks_equal_presses_iff(front);
        lemma_ticks_at_most_presses(start, front);
        lemma_presses_push(reads);
        assert(reads.take(last) =~= front);
        assert(live_at(reads, last) == start.after_all(front).emits(reads.last()));
        if every_press_is_live(reads) {
            assert forall|i: int| 0 <= i < front.len() && front[i].delivers_press() implies #[trigger]
                live_at(front, i) by {
                lemma_live_at_front(reads, i);
                assert(live_at(reads, i));
            }
            assert(reads[last].delivers_press() ==> live_at(reads, last));
        }
        if start.ticks_over(reads) == presses(reads) {
            assert(start.ticks_over(front) == presses(front));
            assert forall|i: int| 0 <= i < reads.len() && reads[i].delivers_press() implies #[trigger]
                live_at(reads, i) by {
                if i < last {
                    lemma_live_at_front(reads, i);
                    assert(live_at(front, i));
                }
            }
        }
    }
}

/// On a stream without dropped-events markers the reader stays in step and
/// emits exactly one tick for each key press.
pub proof fn lemma_ticks_equal_presses(reads: Seq<ReadOutcome>)
    requires
        no_markers(reads),
    ensures
        ReaderState::Synced.after_all(reads) == ReaderState::Synced,
        ReaderState::Synced.ticks_over(reads) == presses(reads),
    decreases reads.len(),
{
    if reads.len() > 0 {
        let front = reads.drop_last();
        assert forall|i: int| 0 <= i < front.len() implies !(#[trigger] front[i]).is_marker() by {
            assert(front[i] == reads[i]);
        }
        lemma_ticks_equal_presses(front);
        lemma_presses_push(reads);
        assert(!reads[reads.len() - 1].is_marker());
    }
}

/// While the reader drains, reads without a marker leave it draining and
/// produce no tick.
pub proof fn lemma_drain_is_silent(drain: Seq<ReadOutcome>)
    requires
        no_markers(drain),
    ensures
        ReaderState::Resyncing.after_all(drain) == ReaderState::Resyncing,
        ReaderState::Resyncing.ticks_over(drain) == 0,
    decreases drain.len(),
{
    if drain.len() > 0 {
        let front = drain.drop_last();
        assert forall|i: int| 0 <= i < front.len() implies !(#[trigger] front[i]).is_marker() by {
            assert(front[i] == drain[i]);
        }
        lemma_drain_is_silent(front);
        assert(!drain[drain.len() - 1].is_marker());
    }
}

/// One if the event is a key press, zero otherwise.
pub open spec fn press_count(ev: RawEvent) -> nat {
    if ev.is_key_press() {
        1
    } else {
        0
    }
}

/// Resynchronisation: two live events, a marker, any drain without a marker,
/// a second marker and one more live event. The reader is draining up to the
/// second marker and ticks for nothing in between; the second marker brings
/// it back in step; the ticks are those of the three live events.
pub proof fn lemma_resync(
    first: RawEvent,
    second: RawEvent,
    dropped: RawEvent,
    drain: Seq<ReadOutcome>,
    resynced: RawEvent,
    third: RawEvent,
)
    requires
        !first.dropped,
        !second.dropped,
        !third.dropped,
        dropped.dropped,
        resynced.dropped,
        no_markers(drain),
    ensures
        ({
            let head = seq![
                ReadOutcome::Event(first),
                ReadOutcome::Event(second),
                ReadOutcome::Event(dropped),
            ];
            let tail = seq![ReadOutcome::Event(resynced), ReadOutcome::Event(third)];
            let start = ReaderState::Synced;
            &&& start.after_all(head + drain) == ReaderState::Resyncing
            &&& start.ticks_over(head + drain) == press_count(first) + press_count(second)
            &&& start.after_all(head + drain + seq![ReadOutcome::Event(resynced)])
                == ReaderState::Synced
            &&& start.after_all(head + drain + tail) == ReaderState::Synced
            &&& start.ticks_over(head + drain + tail) == press_count(first) + press_count(second)
                + press_count(third)
        }),
{
    let head = seq![
        ReadOutcome::Event(first),
        ReadOutcome::Event(second),
        ReadOutcome::Event(dropped),
    ];
    let marker = seq![ReadOutcome::Event(resynced)];
    let tail = seq![ReadOutcome::Event(resynced), ReadOutcome::Event(third)];
    let start = ReaderState::Synced;
    reveal_with_fuel(ReaderState::after_all, 4);
    reveal_with_fuel(ReaderState::ticks_over, 4);
    assert(head.drop_last() =~= seq![ReadOutcome::Event(first), ReadOutcome::Event(second)]);
    assert(head.drop_last().drop_last() =~= seq![ReadOutcome::Event(first)]);
    assert(head.drop_last().drop_last().drop_last() =~= Seq::<ReadOutcome>::empty());
    assert(start.after_all(head) == ReaderState::Resyncing);
    assert(start.ticks_over(head) == press_count(first) + press_count(second));
    lemma_drain_is_silent(drain);
    lemma_run_concat(start, head, drain);
    assert(marker.drop_last() =~= Seq::<ReadOutcome>::empty());
    assert(ReaderState::Resyncing.after_all(marker) == ReaderState::Synced);
    lemma_run_concat(start, head + drain, marker);
    assert(tail.drop_last() =~= marker);
    assert(ReaderState::Resyncing.after_all(tail) == ReaderState::Synced);
    assert(ReaderState::Resyncing.ticks_over(tail) == press_count(third));
    lemma_run_concat(start, head + drain, tail);
}

} // verus!
