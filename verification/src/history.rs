//! Fixed-capacity history storage.
//!
//! [`History`] is a thin boundary around `heapless::HistoryBuf<u64, 16>`, a
//! write-only ring buffer that keeps the sixteen most recent values and
//! silently overwrites the oldest one once it is full. The buffer itself is
//! opaque to the verifier; [`history_view`] names what it holds, oldest
//! first, and each method's contract states over that name what the crate's
//! source shows the method to do.

use vstd::prelude::*;

verus! {

/// How many values a [`History`] keeps before it starts to evict.
pub const HISTORY_CAPACITY: usize = 16;

/// A bounded, oldest-overwriting store of recent values.
#[verifier::external_body]
pub struct History {
    buf: heapless::HistoryBuf<u64, 16>,
}

/// The values a [`History`] currently holds, oldest first.
pub uninterp spec fn history_view(h: History) -> Seq<u64>;

/// The state of a history of the given contents after one more value is
/// written: the value becomes the newest entry, and when the history is
/// already at capacity the oldest entry leaves to make room.
pub open spec fn after_write(s: Seq<u64>, v: u64) -> Seq<u64> {
    if s.len() < HISTORY_CAPACITY {
        s.push(v)
    } else {
        s.drop_first().push(v)
    }
}

impl History {
    /// Relies on `heapless::HistoryBuf::new`: the buffer starts with no
    /// data.
    #[verifier::external_body]
    pub(crate) fn new() -> (h: History)
        ensures
            history_view(h) == Seq::<u64>::empty(),
    {
        History { buf: heapless::HistoryBuf::new() }
    }

    /// Relies on `heapless::HistoryBuf::len`: the current fill level of the
    /// buffer.
    #[verifier::external_body]
    pub(crate) fn len(&self) -> (n: usize)
        ensures
            n == history_view(*self).len(),
    {
        self.buf.len()
    }

    /// Relies on `heapless::HistoryBuf::write`: the element is written over
    /// the oldest value once the buffer is full, and appended before that.
    #[verifier::external_body]
    pub(crate) fn write(&mut self, v: u64)
        ensures
            history_view(*final(self)) == after_write(history_view(*old(self)), v),
    {
        self.buf.write(v);
    }

    /// Relies on `heapless::HistoryBuf::oldest_ordered`: the buffer's
    /// contents from the oldest element to the newest.
    #[verifier::external_body]
    pub(crate) fn oldest_to_newest(&self) -> (v: Vec<u64>)
        ensures
            v@ == history_view(*self),
    {
        self.buf.oldest_ordered().copied().collect()
    }
}

} // verus!
