//! Guarded memory access: probe an address of unknown validity and get a
//! definite success/failure result instead of a crash.
//!
//! The crate models the machine's probeable memory as an explicit [`Memory`]
//! value, so that every guarded load and store has an exact contract: a touch
//! of `[location, location + size)` succeeds if and only if every byte of the
//! range is accessible, it returns exactly the bytes held there, and a failed
//! touch changes nothing.

use vstd::prelude::*;

pub mod interceptor;
pub mod memory;

use vstd::bytes::{
    lemma_auto_spec_u64_to_from_le_bytes, spec_u64_to_le_bytes, u64_from_le_bytes, u64_to_le_bytes,
};
use crate::memory::Memory;

verus! {

/// Number of bytes in the machine word the word-sized operations touch.
pub const WORD_BYTES: usize = 8;

/// Guarded-access handle: holding one means the fault interceptor is live,
/// so probes of arbitrary addresses report failure instead of crashing.
#[derive(Debug, Clone, Copy)]
pub struct Bulletproof {}

impl Bulletproof {
    /// Creates a new guarded memory access handle.
    pub fn new() -> (r: Self)
        ensures
            r == (Bulletproof {}),
    {
        Bulletproof {}
    }

    /// Loads the machine word at `location`.
    ///
    /// Returns `Ok(v)`, where `v` is the word held there, if and only if all
    /// `WORD_BYTES` bytes of the location are mapped, and `Err(())` otherwise.
    pub fn load_usize(self, mem: &Memory, location: usize) -> (r: Result<u64, ()>)
        requires
            mem@.wf(),
        ensures
            r is Ok <==> mem@.range_readable(location as int, WORD_BYTES as int),
            r is Ok ==> r->Ok_0 == mem@.word_at(location as int),
    {
        match mem.load_bytes(location, WORD_BYTES) {
            Ok(bytes) => Ok(u64_from_le_bytes(bytes.as_slice())),
            Err(e) => Err(e),
        }
    }

    /// Loads the `size`-byte value at `location`, as its bytes.
    ///
    /// Returns `Ok(bytes)`, holding exactly the bytes at
    /// `[location, location + size)`, if and only if the whole range is
    /// mapped, and `Err(())` otherwise; a fault anywhere in the range fails
    /// the whole load.
    pub fn load(self, mem: &Memory, location: usize, size: usize) -> (r: Result<Vec<u8>, ()>)
        requires
            mem@.wf(),
        ensures
            r is Ok <==> mem@.range_readable(location as int, size as int),
            r is Ok ==> r->Ok_0@ == mem@.bytes_at(location as int, size as int),
            r is Ok ==> r->Ok_0@.len() == size,
    {
        mem.load_bytes(location, size)
    }

    /// Stores the machine word `val` at `location`.
    ///
    /// Returns `Ok(())` if and only if all `WORD_BYTES` bytes of the location
    /// are mapped and writable; the word is then held there, and a later
    /// guarded load of the location returns it.  On `Err(())` the memory is
    /// unchanged.
    pub fn store_usize(self, mem: &mut Memory, location: usize, val: u64) -> (r: Result<(), ()>)
        requires
            old(mem)@.wf(),
        ensures
            final(mem)@.wf(),
            r is Ok <==> old(mem)@.range_writable(location as int, WORD_BYTES as int),
            r is Ok ==> final(mem)@ == old(mem)@.stored(location as int, spec_u64_to_le_bytes(val)),
            r is Ok ==> final(mem)@.word_at(location as int) == val,
            r is Err ==> final(mem)@ == old(mem)@,
    {
        let bytes = u64_to_le_bytes(val);
        proof {
            lemma_auto_spec_u64_to_from_le_bytes();
        }
        let r = mem.store_bytes(location, &bytes);
        proof {
            if r is Ok {
                let v0 = old(mem)@;
                let src = spec_u64_to_le_bytes(val);
                v0.lemma_range_readable_bounds(location as int, WORD_BYTES as int);
                assert(mem@.bytes_at(location as int, WORD_BYTES as int) =~= src);
            }
        }
        r
    }

    /// Stores the bytes of `src` at `location`.
    ///
    /// Returns `Ok(())` if and only if the whole range
    /// `[location, location + src.len())` is mapped and writable; the bytes
    /// are then held there and every other byte keeps its value.  On
    /// `Err(())` the memory is unchanged, so no partial write is observable.
    pub fn store(self, mem: &mut Memory, location: usize, src: &Vec<u8>) -> (r: Result<(), ()>)
        requires
            old(mem)@.wf(),
        ensures
            final(mem)@.wf(),
            r is Ok <==> old(mem)@.range_writable(location as int, src@.len() as int),
            r is Ok ==> final(mem)@ == old(mem)@.stored(location as int, src@),
            r is Err ==> final(mem)@ == old(mem)@,
    {
        mem.store_bytes(location, src)
    }
}

} // verus!
