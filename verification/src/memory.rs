//! Model of the memory a guarded touch probes.
//!
//! The machine's probeable memory is held as an explicit value: one mapped
//! region of bytes starting at a nonzero base address, writable or read-only,
//! with every address outside the region unmapped.  A guarded touch of
//! `[a, a + n)` succeeds if and only if every byte of the range is mapped
//! (and, for a store, the region is writable); a failed touch leaves the
//! memory unchanged, and no partial copy is ever observable.

use vstd::prelude::*;
use vstd::bytes::{
    lemma_auto_spec_u64_to_from_le_bytes, spec_u64_from_le_bytes, spec_u64_to_le_bytes,
};

verus! {

/// Mathematical view of a [`Memory`]: the base address of the mapped region,
/// the bytes it holds, and whether stores to it are permitted.
#[verifier::ext_equal]
pub ghost struct MemView {
    pub base: int,
    pub bytes: Seq<u8>,
    pub writable: bool,
}

impl MemView {
    /// The region starts above the null address and ends within the address
    /// space, so address 0 is never mapped.
    pub open spec fn wf(self) -> bool {
        &&& 1 <= self.base
        &&& self.base + self.bytes.len() <= usize::MAX + 1
    }

    /// A single byte address is mapped.
    pub open spec fn readable(self, a: int) -> bool {
        self.base <= a < self.base + self.bytes.len()
    }

    /// The byte held at a mapped address.
    pub open spec fn byte_at(self, a: int) -> u8 {
        self.bytes[a - self.base]
    }

    /// Every byte of `[a, a + n)` is mapped.  An empty touch never faults.
    pub open spec fn range_readable(self, a: int, n: int) -> bool {
        forall|i: int| a <= i < a + n ==> self.readable(i)
    }

    /// Every byte of `[a, a + n)` may be stored to.
    pub open spec fn range_writable(self, a: int, n: int) -> bool {
        self.range_readable(a, n) && (n == 0 || self.writable)
    }

    /// The `n` bytes held at `[a, a + n)`.
    pub open spec fn bytes_at(self, a: int, n: int) -> Seq<u8> {
        if n <= 0 {
            Seq::empty()
        } else {
            self.bytes.subrange(a - self.base, a - self.base + n)
        }
    }

    /// The 64-bit little-endian word held at `[a, a + 8)`.
    pub open spec fn word_at(self, a: int) -> u64 {
        spec_u64_from_le_bytes(self.bytes_at(a, 8))
    }

    /// The memory after `src` is stored at `[a, a + src.len())`: the range is
    /// overwritten and every other byte keeps its value.
    pub open spec fn stored(self, a: int, src: Seq<u8>) -> MemView {
        MemView {
            base: self.base,
            bytes: Seq::new(
                self.bytes.len(),
                |i: int|
                    if a - self.base <= i && i < a - self.base + src.len() {
                        src[i - (a - self.base)]
                    } else {
                        self.bytes[i]
                    },
            ),
            writable: self.writable,
        }
    }

    /// A nonempty range is fully mapped exactly when it lies inside the
    /// region's bounds.
    pub proof fn lemma_range_readable_bounds(self, a: int, n: int)
        requires
            n > 0,
        ensures
            self.range_readable(a, n) <==> (self.base <= a && a + n <= self.base
                + self.bytes.len()),
    {
        if self.base <= a && a + n <= self.base + self.bytes.len() {
            assert forall|i: int| a <= i < a + n implies self.readable(i) by {}
        } else {
            let w = if a < self.base {
                a
            } else if a >= self.base + self.bytes.len() {
                a
            } else {
                self.base + self.bytes.len()
            };
            assert(a <= w < a + n);
            assert(!self.readable(w));
            assert(!self.range_readable(a, n)) by {
                if self.range_readable(a, n) {
                    assert(self.readable(w));
                }
            }
        }
    }
}

/// The null address is never mapped in a well-formed memory, so a guarded
/// touch of any nonempty range at address 0 fails, in either direction —
/// and, since a failed touch changes nothing, it fails again however many
/// times it is repeated on the same memory.
pub proof fn lemma_null_touch_always_fails(v: MemView, n: int)
    requires
        v.wf(),
        n >= 1,
    ensures
        !v.range_readable(0, n),
        !v.range_writable(0, n),
{
    assert(!v.readable(0));
    assert(!v.range_readable(0, n)) by {
        if v.range_readable(0, n) {
            assert(v.readable(0));
        }
    }
}

/// A fault on any single byte of a touched range fails the whole touch: one
/// unmapped address inside `[a, a + n)` makes the entire guarded load or
/// store of that range fail, however many of the other bytes are mapped.
pub proof fn lemma_one_bad_byte_fails_whole_range(v: MemView, a: int, n: int, i: int)
    requires
        a <= i < a + n,
        !v.readable(i),
    ensures
        !v.range_readable(a, n),
        !v.range_writable(a, n),
{
    assert(!v.range_readable(a, n)) by {
        if v.range_readable(a, n) {
            assert(v.readable(i));
        }
    }
}

/// Round trip: storing the word `x` at a writable address `a` leaves a
/// well-formed memory in which `[a, a + 8)` is still mapped and the word
/// held there — what a guarded load of `a` returns — is exactly `x`.
pub proof fn lemma_store_then_load_word(v: MemView, a: int, x: u64)
    requires
        v.wf(),
        v.range_writable(a, 8),
    ensures
        v.stored(a, spec_u64_to_le_bytes(x)).wf(),
        v.stored(a, spec_u64_to_le_bytes(x)).range_readable(a, 8),
        v.stored(a, spec_u64_to_le_bytes(x)).word_at(a) == x,
{
    lemma_auto_spec_u64_to_from_le_bytes();
    let src = spec_u64_to_le_bytes(x);
    let w = v.stored(a, src);
    v.lemma_range_readable_bounds(a, 8);
    w.lemma_range_readable_bounds(a, 8);
    assert(w.bytes_at(a, 8) =~= src);
}

/// A probeable memory: the concrete value the guarded-touch operations run
/// against.  Its invariant, established by [`Memory::new`], is [`MemView::wf`].
pub struct Memory {
    base: usize,
    bytes: Vec<u8>,
    writable: bool,
}

impl View for Memory {
    type V = MemView;

    closed spec fn view(&self) -> MemView {
        MemView { base: self.base as int, bytes: self.bytes@, writable: self.writable }
    }
}

impl Memory {
    /// Maps `contents` at `[base, base + contents.len())`.  The region must
    /// start above the null address and fit in the address space.
    pub fn new(base: usize, contents: Vec<u8>, writable: bool) -> (r: Memory)
        requires
            1 <= base,
            base + contents@.len() <= usize::MAX + 1,
        ensures
            r@ == (MemView { base: base as int, bytes: contents@, writable }),
            r@.wf(),
    {
        Memory { base, bytes: contents, writable }
    }

    /// Guarded touch, load direction: copies the `size` bytes at
    /// `[loc, loc + size)` out of the memory.  Succeeds, with exactly those
    /// bytes, if and only if the whole range is mapped; a fault on any byte
    /// of the range fails the whole copy and hands nothing back.
    pub fn load_bytes(&self, loc: usize, size: usize) -> (r: Result<Vec<u8>, ()>)
        requires
            self@.wf(),
        ensures
            r is Ok <==> self@.range_readable(loc as int, size as int),
            r is Ok ==> r->Ok_0@ == self@.bytes_at(loc as int, size as int),
            r is Ok ==> r->Ok_0@.len() == size,
    {
        if size == 0 {
            let out: Vec<u8> = Vec::new();
            return Ok(out);
        }
        proof {
            self@.lemma_range_readable_bounds(loc as int, size as int);
        }
        if !(loc >= self.base && size <= self.bytes.len() && loc - self.base <= self.bytes.len()
            - size) {
            return Err(());
        }
        let off = loc - self.base;
        let mut out: Vec<u8> = Vec::new();
        let mut i: usize = 0;
        while i < size
            invariant
                self@.wf(),
                off == loc - self@.base,
                self@.base <= loc,
                loc + size <= self@.base + self@.bytes.len(),
                i <= size,
                out@.len() == i,
                forall|j: int| 0 <= j < i ==> out@[j] == self@.bytes[off + j],
            decreases size - i,
        {
            out.push(self.bytes[off + i]);
            i += 1;
        }
        proof {
            assert(out@ =~= self@.bytes_at(loc as int, size as int));
        }
        Ok(out)
    }

    /// Guarded touch, store direction: copies `src` into the memory at
    /// `[loc, loc + src.len())`.  Succeeds if and only if the whole range is
    /// mapped and the region is writable; on failure the memory is unchanged,
    /// so no partial write is ever observable.
    pub fn store_bytes(&mut self, loc: usize, src: &Vec<u8>) -> (r: Result<(), ()>)
        requires
            old(self)@.wf(),
        ensures
            final(self)@.wf(),
            r is Ok <==> old(self)@.range_writable(loc as int, src@.len() as int),
            r is Ok ==> final(self)@ == old(self)@.stored(loc as int, src@),
            r is Err ==> final(self)@ == old(self)@,
    {
        let ghost m0 = self@;
        let size = src.len();
        if size == 0 {
            proof {
                assert(self@ =~= m0.stored(loc as int, src@));
            }
            return Ok(());
        }
        proof {
            m0.lemma_range_readable_bounds(loc as int, size as int);
        }
        if !self.writable {
            return Err(());
        }
        if !(loc >= self.base && size <= self.bytes.len() && loc - self.base <= self.bytes.len()
            - size) {
            return Err(());
        }
        let off = loc - self.base;
        let mut i: usize = 0;
        while i < size
            invariant
                m0.wf(),
                self@.base == m0.base,
                self@.writable == m0.writable,
                self@.bytes.len() == m0.bytes.len(),
                off == loc - m0.base,
                m0.base <= loc,
                loc + size <= m0.base + m0.bytes.len(),
                i <= size,
                size == src@.len(),
                forall|j: int| 0 <= j < i ==> self@.bytes[off + j] == src@[j],
                forall|j: int|
                    0 <= j < m0.bytes.len() && !(off <= j < off + i) ==> self@.bytes[j]
                        == m0.bytes[j],
            decreases size - i,
        {
            self.bytes[off + i] = src[i];
            i += 1;
        }
        proof {
            assert(self@ =~= m0.stored(loc as int, src@));
        }
        Ok(())
    }
}

} // verus!
