//! The bump heap: a range of addresses handed out front to back in blocks
//! of whole eight-byte words, never taken back.

use vstd::prelude::*;

verus! {

/// The alignment of every block, in bytes.
pub const BUMP_ALIGN: usize = 8;

/// A bump heap: the address of the next free byte and the address just
/// past the last.
pub struct BumpHeap {
    next: usize,
    end: usize,
}

/// A size rounded up to whole words of eight bytes.
pub open spec fn rounded_size(size: int) -> int {
    ((size + 7) / 8) * 8
}

impl BumpHeap {
    /// The address of the next free byte.
    pub closed spec fn next(&self) -> int {
        self.next as int
    }

    /// The address just past the heap.
    pub closed spec fn end(&self) -> int {
        self.end as int
    }

    /// Whether a block of `size` bytes, rounded up, still fits.
    pub open spec fn fits(&self, size: int) -> bool {
        self.next() + rounded_size(size) <= self.end()
    }

    /// The number of bytes that are still free.
    pub fn remaining(&self) -> (n: usize)
        ensures
            n == if self.next() <= self.end() {
                self.end() - self.next()
            } else {
                0
            },
    {
        if self.next <= self.end {
            self.end - self.next
        } else {
            0
        }
    }
}

/// A heap over the addresses from `start` up to, not including, `end`.
pub fn bump_init(start: usize, end: usize) -> (heap: BumpHeap)
    ensures
        heap.next() == start,
        heap.end() == end,
{
    BumpHeap { next: start, end }
}

/// Takes a block of `size` bytes, rounded up to whole words, from the
/// front of the free range. The result is the address of the block, or
/// `None`, with the heap unchanged, when the block does not fit.
pub fn bump_alloc(heap: &mut BumpHeap, size: usize) -> (block: Option<usize>)
    ensures
        final(heap).end() == old(heap).end(),
        old(heap).fits(size as int) ==> block == Some(old(heap).next() as usize),
        old(heap).fits(size as int) ==> final(heap).next() == old(heap).next() + rounded_size(
            size as int,
        ),
        !old(heap).fits(size as int) ==> block.is_none(),
        !old(heap).fits(size as int) ==> final(heap).next() == old(heap).next(),
{
    if size > usize::MAX - (BUMP_ALIGN - 1) {
        return None;
    }
    let rounded: usize = (size + (BUMP_ALIGN - 1)) / BUMP_ALIGN * BUMP_ALIGN;
    if heap.next > heap.end || rounded > heap.end - heap.next {
        None
    } else {
        let block: usize = heap.next;
        heap.next = heap.next + rounded;
        Some(block)
    }
}

/// Blocks follow each other without a gap or an overlap: when two blocks
/// are taken one after the other, the second starts where the first,
/// rounded up, ends, and both lie in the heap.
pub proof fn lemma_bump_blocks_are_disjoint(
    start: BumpHeap,
    middle: BumpHeap,
    end: BumpHeap,
    first: int,
    second: int,
)
    requires
        first >= 0,
        second >= 0,
        start.fits(first),
        middle.next() == start.next() + rounded_size(first),
        middle.end() == start.end(),
        middle.fits(second),
        end.next() == middle.next() + rounded_size(second),
    ensures
        start.next() + first <= middle.next(),
        middle.next() + second <= end.next(),
        end.next() <= start.end(),
        middle.next() % 8 == start.next() % 8,
{
}

} // verus!
