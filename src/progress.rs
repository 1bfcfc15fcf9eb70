//! Byte counting for an upload: the position shown for a stream of known
//! total size, clamped to that total.

use vstd::prelude::*;

verus! {

/// The position after counting `len` more bytes from `position`, clamped to
/// `total`.
pub open spec fn advanced(position: nat, total: nat, len: nat) -> nat {
    if position + len >= total {
        total
    } else {
        position + len
    }
}

/// The position after counting each chunk length of `chunks` in turn.
pub open spec fn position_after(start: nat, total: nat, chunks: Seq<nat>) -> nat
    decreases chunks.len(),
{
    if chunks.len() == 0 {
        start
    } else {
        advanced(position_after(start, total, chunks.drop_last()), total, chunks.last())
    }
}

/// The number of bytes in all of `chunks`.
pub open spec fn total_len(chunks: Seq<nat>) -> nat
    decreases chunks.len(),
{
    if chunks.len() == 0 {
        0
    } else {
        total_len(chunks.drop_last()) + chunks.last()
    }
}

/// A byte counter for one stream of known total size. It only observes the
/// stream: the chunks themselves pass through untouched.
#[derive(Debug, Clone, Copy, PartialEq, Eq)]
pub struct ProgressCounter {
    position: u64,
    total: u64,
}

impl ProgressCounter {
    pub closed spec fn spec_position(self) -> nat {
        self.position as nat
    }

    pub closed spec fn spec_total(self) -> nat {
        self.total as nat
    }

    /// The position never passes the total.
    pub closed spec fn wf(self) -> bool {
        self.position <= self.total
    }

    /// A counter at zero for a stream of `total` bytes.
    pub fn new(total: u64) -> (r: ProgressCounter)
        ensures
            r.wf(),
            r.spec_position() == 0,
            r.spec_total() == total,
    {
        ProgressCounter { position: 0, total }
    }

    pub fn position(&self) -> (r: u64)
        ensures
            r == self.spec_position(),
    {
        self.position
    }

    pub fn total(&self) -> (r: u64)
        ensures
            r == self.spec_total(),
    {
        self.total
    }

    /// Counts a chunk of `len` bytes, clamping at the total; returns whether
    /// the total has been reached, which is when the indicator is cleared.
    pub fn advance(&mut self, len: u64) -> (finished: bool)
        requires
            old(self).wf(),
        ensures
            final(self).wf(),
            final(self).spec_total() == old(self).spec_total(),
            final(self).spec_position() == advanced(
                old(self).spec_position(),
                old(self).spec_total(),
                len as nat,
            ),
            finished == (final(self).spec_position() == final(self).spec_total()),
    {
        if len >= self.total - self.position {
            self.position = self.total;
        } else {
            self.position = self.position + len;
        }
        self.position == self.total
    }

    /// Whether the counter has reached the total.
    pub fn is_finished(&self) -> (r: bool)
        ensures
            r == (self.spec_position() == self.spec_total()),
    {
        self.position == self.total
    }
}

/// Counting from zero, the position is the number of bytes seen so far,
/// clamped to the total. So it never exceeds the total, and it stands
/// exactly at the total once chunks adding up to the total (or more) have
/// been counted, however the stream was cut into chunks.
pub proof fn lemma_progress_law(total: nat, chunks: Seq<nat>)
    ensures
        position_after(0, total, chunks) == if total_len(chunks) >= total {
            total
        } else {
            total_len(chunks)
        },
        position_after(0, total, chunks) <= total,
        total_len(chunks) >= total ==> position_after(0, total, chunks) == total,
    decreases chunks.len(),
{
    if chunks.len() > 0 {
        lemma_progress_law(total, chunks.drop_last());
    }
}

} // verus!
