//! Tracking of held MIDI notes.
//!
//! The tracker keeps a count of the notes currently held down and
//! decides whether the generator should produce sound at all.  The
//! count saturates in both directions: a spurious note-off while no
//! note is held leaves the count at zero rather than wrapping around.

use vstd::prelude::*;

verus! {

/// A MIDI channel-voice message, reduced to the three raw bytes that
/// the note tracker inspects.
#[derive(Clone, Copy, PartialEq, Eq, Structural, Debug)]
pub struct MidiMessage {
    /// Status byte; 144 starts a note and 128 ends one.
    pub status: u8,
    /// First data byte (the pitch of a note message).
    pub data1: u8,
    /// Second data byte (the velocity of a note message).
    pub data2: u8,
}

/// Status byte of a note-on message on channel 0.
pub const NOTE_ON: u8 = 144;

/// Status byte of a note-off message on channel 0.
pub const NOTE_OFF: u8 = 128;

/// How one message changes the held-note count: a note-on increments,
/// a note-off decrements, anything else is ignored.  Both directions
/// saturate instead of wrapping.
pub open spec fn step(count: u32, m: MidiMessage) -> u32 {
    if m.status == NOTE_ON {
        if count == u32::MAX {
            count
        } else {
            (count + 1) as u32
        }
    } else if m.status == NOTE_OFF {
        if count == 0 {
            0u32
        } else {
            (count - 1) as u32
        }
    } else {
        count
    }
}

/// The held-note count after a whole block of messages, applied in
/// order.
pub open spec fn run(count: u32, ms: Seq<MidiMessage>) -> u32
    decreases ms.len(),
{
    if ms.len() == 0 {
        count
    } else {
        step(run(count, ms.drop_last()), ms.last())
    }
}

/// Counts the MIDI notes currently held down.
pub struct NoteTracker {
    /// Number of notes currently held.
    pub held: u32,
}

impl NoteTracker {
    /// A tracker with no notes held.
    pub fn new() -> (t: NoteTracker)
        ensures
            t.held == 0,
    {
        NoteTracker { held: 0 }
    }

    /// Applies a single message to the count.
    pub fn on_event(&mut self, m: MidiMessage)
        ensures
            final(self).held == step(old(self).held, m),
    {
        if m.status == NOTE_ON {
            if self.held < u32::MAX {
                self.held = self.held + 1;
            }
        } else if m.status == NOTE_OFF {
            if self.held > 0 {
                self.held = self.held - 1;
            }
        }
    }

    /// Applies a block of messages in order.
    pub fn on_events(&mut self, events: &Vec<MidiMessage>)
        ensures
            final(self).held == run(old(self).held, events@),
    {
        let ghost c0: u32 = self.held;
        let n = events.len();
        let mut i: usize = 0;
        while i < n
            invariant
                i <= n,
                n == events@.len(),
                self.held == run(c0, events@.take(i as int)),
            decreases n - i,
        {
            proof {
                assert(events@.take(i + 1).drop_last() =~= events@.take(i as int));
                assert(events@.take(i + 1).last() == events@[i as int]);
            }
            self.on_event(events[i]);
            i = i + 1;
        }
        proof {
            assert(events@.take(n as int) =~= events@);
        }
    }

    /// True when at least one note is held; sound is produced exactly
    /// then.
    pub fn is_active(&self) -> (r: bool)
        ensures
            r == (self.held > 0),
    {
        self.held > 0
    }

    /// The number of notes currently held.
    pub fn held_count(&self) -> (r: u32)
        ensures
            r == self.held,
    {
        self.held
    }
}

/// Running a block after an earlier block is the same as running their
/// concatenation.
pub proof fn lemma_run_concat(count: u32, a: Seq<MidiMessage>, b: Seq<MidiMessage>)
    ensures
        run(count, a + b) == run(run(count, a), b),
    decreases b.len(),
{
    if b.len() == 0 {
        assert(a + b =~= a);
    } else {
        assert((a + b).drop_last() =~= a + b.drop_last());
        assert((a + b).last() == b.last());
        lemma_run_concat(count, a, b.drop_last());
    }
}

/// A block of note-on messages raises the count by at most its length.
pub proof fn lemma_run_all_on_bound(count: u32, ms: Seq<MidiMessage>)
    requires
        forall|i: int| 0 <= i < ms.len() ==> ms[i].status == NOTE_ON,
    ensures
        run(count, ms) <= count + ms.len(),
    decreases ms.len(),
{
    if ms.len() > 0 {
        lemma_run_all_on_bound(count, ms.drop_last());
    }
}

/// A block of note-off messages lowers the count to at most what is
/// left after one decrement per message, and never below zero.
pub proof fn lemma_run_all_off_bound(count: u32, ms: Seq<MidiMessage>)
    requires
        forall|i: int| 0 <= i < ms.len() ==> ms[i].status == NOTE_OFF,
    ensures
        run(count, ms) <= (if count >= ms.len() {
            count - ms.len()
        } else {
            0int
        }),
    decreases ms.len(),
{
    if ms.len() > 0 {
        lemma_run_all_off_bound(count, ms.drop_last());
    }
}

/// Any number of note-on messages followed by the same number of
/// note-off messages leaves the tracker with no held notes, so it
/// reports itself inactive at the end.
pub proof fn lemma_balanced_block_inactive(ms: Seq<MidiMessage>, n: int)
    requires
        0 <= n,
        ms.len() == 2 * n,
        forall|i: int| 0 <= i < n ==> ms[i].status == NOTE_ON,
        forall|i: int| n <= i < 2 * n ==> ms[i].status == NOTE_OFF,
    ensures
        run(0, ms) == 0,
{
    let ons = ms.take(n);
    let offs = ms.skip(n);
    assert(ms =~= ons + offs);
    lemma_run_concat(0, ons, offs);
    lemma_run_all_on_bound(0, ons);
    lemma_run_all_off_bound(run(0, ons), offs);
}

} // verus!
