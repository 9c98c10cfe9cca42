//! The shared amplitude state: a single-slot mailbox per channel.
//!
//! The capture context overwrites a channel's slot with each publish and the
//! render context copies both slots each frame. Writes never queue and reads
//! never drain: the state always holds exactly the most recently published
//! value for each channel, starting from zero before the first publish.

use vstd::prelude::*;

verus! {

/// The two audio channels whose amplitudes are tracked.
#[derive(Clone, Copy, PartialEq, Eq, Structural, Debug)]
pub enum Channel {
    Left,
    Right,
}

/// The latest published amplitude for each channel, in thousandths of a
/// pixel. Created once with both channels at zero, written by exactly one
/// capture context and read by exactly one render context; the surrounding
/// program wraps it in a mutual-exclusion cell for that hand-off.
#[derive(Clone, Copy, PartialEq, Eq, Structural, Debug)]
pub struct AmpState {
    pub left_milli: u64,
    pub right_milli: u64,
}

/// The value the state holds for one channel.
pub open spec fn channel_value(s: AmpState, ch: Channel) -> u64 {
    match ch {
        Channel::Left => s.left_milli,
        Channel::Right => s.right_milli,
    }
}

/// The state after one publish: the chosen channel holds the new value and
/// the other channel keeps whatever it held.
pub open spec fn spec_publish(s: AmpState, ch: Channel, value: u64) -> AmpState {
    match ch {
        Channel::Left => AmpState { left_milli: value, right_milli: s.right_milli },
        Channel::Right => AmpState { left_milli: s.left_milli, right_milli: value },
    }
}

/// The state after a sequence of publishes, applied first to last.
pub open spec fn spec_apply(s: AmpState, ps: Seq<(Channel, u64)>) -> AmpState
    decreases ps.len(),
{
    if ps.len() == 0 {
        s
    } else {
        spec_publish(spec_apply(s, ps.drop_last()), ps.last().0, ps.last().1)
    }
}

impl AmpState {
    /// A fresh state: nothing published yet, so both channels read as the
    /// default amplitude of zero.
    pub fn new() -> (s: AmpState)
        ensures
            s.left_milli == 0,
            s.right_milli == 0,
    {
        AmpState { left_milli: 0, right_milli: 0 }
    }

    /// Overwrite one channel's slot; the other channel is untouched.
    /// Always succeeds, whether or not the prior value was ever read.
    pub fn publish(&mut self, ch: Channel, value: u64)
        ensures
            *final(self) == spec_publish(*old(self), ch, value),
    {
        match ch {
            Channel::Left => {
                self.left_milli = value;
            },
            Channel::Right => {
                self.right_milli = value;
            },
        }
    }

    /// What `snapshot` returns: the pair (left, right), determined by the
    /// state alone.
    pub open spec fn snapshot_spec(self) -> (u64, u64) {
        (self.left_milli, self.right_milli)
    }

    /// Read the latest pair (left, right). Never fails: absence of a newer
    /// publish is not an error, the values already held are returned again.
    pub fn snapshot(&self) -> (r: (u64, u64))
        ensures
            r == self.snapshot_spec(),
    {
        (self.left_milli, self.right_milli)
    }
}

/// Last write wins: after any sequence of publishes whose final write to
/// channel `ch` stands at index `i`, the state holds exactly that value for
/// `ch`, whatever was written to either channel before it and to the other
/// channel after it.
pub proof fn lemma_last_write_wins(init: AmpState, ps: Seq<(Channel, u64)>, ch: Channel, i: int)
    requires
        0 <= i < ps.len(),
        ps[i].0 == ch,
        forall|j: int| i < j < ps.len() ==> (#[trigger] ps[j]).0 != ch,
    ensures
        channel_value(spec_apply(init, ps), ch) == ps[i].1,
    decreases ps.len(),
{
    if i == ps.len() - 1 {
        assert(ps.last() == ps[i]);
    } else {
        assert(ps.last() == ps[ps.len() - 1]);
        assert(ps[ps.len() - 1].0 != ch);
        assert(ps.drop_last()[i] == ps[i]);
        assert forall|j: int| i < j < ps.drop_last().len() implies (#[trigger] ps.drop_last()[j]).0
            != ch by {
            assert(ps.drop_last()[j] == ps[j]);
        }
        lemma_last_write_wins(init, ps.drop_last(), ch, i);
    }
}

/// A channel that no publish in the sequence names keeps its prior value.
pub proof fn lemma_unwritten_channel_unchanged(init: AmpState, ps: Seq<(Channel, u64)>, ch: Channel)
    requires
        forall|j: int| 0 <= j < ps.len() ==> (#[trigger] ps[j]).0 != ch,
    ensures
        channel_value(spec_apply(init, ps), ch) == channel_value(init, ch),
    decreases ps.len(),
{
    if ps.len() > 0 {
        assert(ps.last() == ps[ps.len() - 1]);
        assert(ps[ps.len() - 1].0 != ch);
        assert forall|j: int| 0 <= j < ps.drop_last().len() implies (#[trigger] ps.drop_last()[j]).0
            != ch by {
            assert(ps.drop_last()[j] == ps[j]);
        }
        lemma_unwritten_channel_unchanged(init, ps.drop_last(), ch);
    }
}

/// Reading is idempotent: two snapshots of the same state, with no publish
/// in between, return identical pairs.
pub proof fn lemma_snapshot_idempotent(s: AmpState, r1: (u64, u64), r2: (u64, u64))
    requires
        r1 == s.snapshot_spec(),
        r2 == s.snapshot_spec(),
    ensures
        r1 == r2,
{
}

} // verus!
