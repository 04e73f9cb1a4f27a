//! Dynamic memory allocation backed by the BIOS's `malloc`, `init_heap` and
//! `free`.
//!
//! The BIOS calls themselves are made by the program around this library;
//! what is decided here is what those calls are handed: how many bytes an
//! allocation asks for, and which region of memory becomes the heap.

use vstd::prelude::*;

verus! {

/// Bytes in one heap word. The heap is an array of `u32`.
pub const WORD_BYTES: usize = 4;

/// Bytes in one KB.
pub const KB_BYTES: usize = 1024;

/// Bytes in one MB.
pub const MB_BYTES: usize = 1048576;

/// The global allocator that forwards every request to the BIOS.
pub struct BiosAllocator;

impl BiosAllocator {
    /// The number of bytes that the BIOS `malloc` is asked for when memory
    /// with the given size and alignment is allocated.
    ///
    /// The BIOS `malloc` takes only a size, so the request is the layout's
    /// size and its alignment plays no part.
    pub fn malloc_request(&self, size: usize, _align: usize) -> (n: usize)
        ensures
            n == size,
    {
        size
    }
}

/// The size of a heap, as it is written where the heap is defined: in bytes
/// (rounded up to a whole number of words), in KB or in MB.
pub enum HeapSize {
    Bytes(usize),
    KB(usize),
    MB(usize),
}

/// `n` rounded up to the next multiple of the word size.
pub open spec fn round_up_to_word(n: int) -> int {
    ((n + WORD_BYTES - 1) / WORD_BYTES as int) * WORD_BYTES
}

impl HeapSize {
    /// The number of bytes that this size asks for.
    pub open spec fn requested_bytes(self) -> int {
        match self {
            HeapSize::Bytes(n) => n as int,
            HeapSize::KB(n) => n * KB_BYTES,
            HeapSize::MB(n) => n * MB_BYTES,
        }
    }

    /// Whether the heap's length in words can be computed in a `usize`.
    pub open spec fn fits(self) -> bool {
        match self {
            HeapSize::Bytes(n) => n + (WORD_BYTES - 1) <= usize::MAX,
            _ => self.requested_bytes() <= usize::MAX,
        }
    }

    /// The heap's length in `u32` words.
    pub open spec fn spec_words(self) -> int {
        match self {
            HeapSize::Bytes(n) => (n + (WORD_BYTES - 1)) / WORD_BYTES as int,
            _ => self.requested_bytes() / WORD_BYTES as int,
        }
    }

    /// The number of `u32` words of the array that holds a heap of this size.
    pub fn words(&self) -> (w: usize)
        requires
            self.fits(),
        ensures
            w == self.spec_words(),
            w * WORD_BYTES <= usize::MAX,
    {
        match self {
            HeapSize::Bytes(n) => (*n + (WORD_BYTES - 1)) / WORD_BYTES,
            HeapSize::KB(n) => *n * KB_BYTES / WORD_BYTES,
            HeapSize::MB(n) => *n * MB_BYTES / WORD_BYTES,
        }
    }
}

impl HeapSize {
    /// The number of `u32` words of the array that holds a heap of this
    /// size, or `None` where that number cannot be computed in a `usize`.
    pub fn checked_words(&self) -> (w: Option<usize>)
        ensures
            match w {
                Some(n) => self.fits() && n == self.spec_words(),
                None => !self.fits(),
            },
    {
        let fits = match self {
            HeapSize::Bytes(n) => *n <= usize::MAX - (WORD_BYTES - 1),
            HeapSize::KB(n) => *n <= usize::MAX / KB_BYTES,
            HeapSize::MB(n) => *n <= usize::MAX / MB_BYTES,
        };
        proof {
            match self {
                HeapSize::KB(n) => {
                    assert(*n <= usize::MAX / 1024 <==> *n * 1024 <= usize::MAX) by (nonlinear_arith);
                },
                HeapSize::MB(n) => {
                    assert(*n <= usize::MAX / 1048576 <==> *n * 1048576 <= usize::MAX)
                        by (nonlinear_arith);
                },
                _ => {},
            }
        }
        if fits {
            Some(self.words())
        } else {
            None
        }
    }
}

/// A region of memory handed to the BIOS `init_heap`: its start address and
/// its length in bytes.
pub struct HeapRegion {
    pub start: usize,
    pub len: usize,
}

/// The region that the BIOS manages as the heap when the heap is the array
/// of `words` `u32` words at address `addr`.
pub fn heap_region(addr: usize, words: usize) -> (r: HeapRegion)
    requires
        words * WORD_BYTES <= usize::MAX,
    ensures
        r.start == addr,
        r.len == words * WORD_BYTES,
{
    HeapRegion { start: addr, len: words * WORD_BYTES }
}

/// A heap defined with a size in bytes covers those bytes rounded up to a
/// whole number of words; one defined in KB or MB covers exactly that many
/// bytes. Either way it covers at least what was asked for and less than a
/// word more.
pub proof fn lemma_heap_covers_requested_size(size: HeapSize)
    requires
        size.fits(),
    ensures
        size.spec_words() * WORD_BYTES == match size {
            HeapSize::Bytes(n) => round_up_to_word(n as int),
            _ => size.requested_bytes(),
        },
        size.requested_bytes() <= size.spec_words() * WORD_BYTES < size.requested_bytes()
            + WORD_BYTES,
        (size.spec_words() * WORD_BYTES) % (WORD_BYTES as int) == 0,
{
    match size {
        HeapSize::Bytes(n) => {},
        HeapSize::KB(n) => {
            assert((n * 1024) / 4 * 4 == n * 1024) by (nonlinear_arith);
        },
        HeapSize::MB(n) => {
            assert((n * 1048576) / 4 * 4 == n * 1048576) by (nonlinear_arith);
        },
    }
}

} // verus!
