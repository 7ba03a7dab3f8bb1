//! The state carried across ticks of the display loop.
//!
//! The loop owns two pieces of state: the last rendered line (the buffer)
//! and the sleep interval until the next print. On every tick it drains at
//! most one freshly fetched line from the poller; a line that differs from
//! the buffer replaces it and resets the interval to the baseline, anything
//! else leaves both untouched. The timer, the channel and the printing live
//! outside the library; the transition itself is pure and verified.

use vstd::prelude::*;

verus! {

/// Seconds between two prints of the buffer, right after a change.
pub const BASELINE_INTERVAL_SECS: u64 = 2;

/// Seconds between two polls of the player.
pub const POLL_INTERVAL_SECS: u64 = 4;

/// The display loop's state: the last rendered line and the current sleep
/// interval in seconds.
pub struct DisplayState {
    pub buffer: String,
    pub interval_secs: u64,
}

/// The buffer after draining one fetched line: the line itself when it
/// differs from the buffer, the old buffer otherwise.
pub open spec fn step_buffer(buffer: Seq<char>, fetched: Seq<char>) -> Seq<char> {
    if fetched == buffer {
        buffer
    } else {
        fetched
    }
}

/// The interval after draining one fetched line: reset to the baseline when
/// the line differs from the buffer, unchanged otherwise.
pub open spec fn step_interval(buffer: Seq<char>, interval_secs: u64, fetched: Seq<char>) -> u64 {
    if fetched == buffer {
        interval_secs
    } else {
        BASELINE_INTERVAL_SECS
    }
}

/// The buffer after draining the fetched lines `batch` in order, one per
/// tick, starting from `buffer`.
pub open spec fn batch_buffer(buffer: Seq<char>, batch: Seq<Seq<char>>) -> Seq<char>
    decreases batch.len(),
{
    if batch.len() == 0 {
        buffer
    } else {
        batch_buffer(step_buffer(buffer, batch[0]), batch.drop_first())
    }
}

impl DisplayState {
    /// The state before the first observation: an empty buffer and the
    /// baseline interval.
    pub fn new() -> (r: DisplayState)
        ensures
            r.buffer@ == Seq::<char>::empty(),
            r.interval_secs == BASELINE_INTERVAL_SECS,
    {
        DisplayState { buffer: String::new(), interval_secs: BASELINE_INTERVAL_SECS }
    }

    /// One tick's drain step: at most one fetched line is taken in. A line
    /// that differs from the buffer replaces it and resets the interval to
    /// the baseline; an equal line, or no line at all, changes nothing.
    pub fn drain_one(&mut self, fetched: Option<String>)
        ensures
            match fetched {
                Option::Some(line) => final (self).buffer@ == step_buffer(
                    old(self).buffer@,
                    line@,
                ) && final (self).interval_secs == step_interval(
                    old(self).buffer@,
                    old(self).interval_secs,
                    line@,
                ),
                Option::None => *final (self) == *old(self),
            },
            final (self).buffer@ != old(self).buffer@ ==> final (self).interval_secs
                == BASELINE_INTERVAL_SECS,
    {
        match fetched {
            Option::Some(line) => {
                if !(line == self.buffer) {
                    self.buffer = line;
                    self.interval_secs = BASELINE_INTERVAL_SECS;
                }
            },
            Option::None => {},
        }
    }
}

/// Law: after a batch of fetched lines is drained in order, one per tick,
/// the buffer holds the last line of the batch — the last one that differed
/// from its predecessor, since draining a line equal to the buffer leaves
/// the buffer as it is — or the prior buffer when the batch is empty.
pub proof fn lemma_batch_buffer(buffer: Seq<char>, batch: Seq<Seq<char>>)
    ensures
        batch_buffer(buffer, batch) == if batch.len() == 0 {
            buffer
        } else {
            batch.last()
        },
    decreases batch.len(),
{
    if batch.len() > 0 {
        lemma_batch_buffer(step_buffer(buffer, batch[0]), batch.drop_first());
        if batch.len() == 1 {
            assert(batch.drop_first().len() == 0);
            assert(step_buffer(buffer, batch[0]) == batch.last());
        } else {
            assert(batch.drop_first().last() == batch.last());
        }
    }
}

/// Law: whenever a drained line changes the buffer, the interval is the
/// baseline immediately afterwards.
pub proof fn lemma_interval_reset(buffer: Seq<char>, interval_secs: u64, fetched: Seq<char>)
    requires
        step_buffer(buffer, fetched) != buffer,
    ensures
        step_interval(buffer, interval_secs, fetched) == BASELINE_INTERVAL_SECS,
{
}

} // verus!
