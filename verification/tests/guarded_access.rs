use bulletproof::interceptor::Interceptor;
use bulletproof::memory::Memory;
use bulletproof::{Bulletproof, WORD_BYTES};

fn word_region(base: usize, words: &[u64], writable: bool) -> Memory {
    let mut contents: Vec<u8> = Vec::new();
    for w in words {
        for b in w.to_le_bytes() {
            contents.push(b);
        }
    }
    Memory::new(base, contents, writable)
}

#[test]
fn bulletproof() {
    // x = 42 (word-sized) followed by y = 42u8, in one writable region.
    let base: usize = 0x1000;
    let mut contents: Vec<u8> = 42u64.to_le_bytes().to_vec();
    contents.push(42u8);
    let mut mem = Memory::new(base, contents, true);
    let bp = Bulletproof::new();

    assert_eq!(bp.load_usize(&mem, base), Ok(42));
    assert_eq!(bp.load_usize(&mem, 0), Err(()));

    assert_eq!(bp.store_usize(&mut mem, base, 37), Ok(()));
    assert_eq!(bp.store_usize(&mut mem, 0, 37), Err(()));
    assert_eq!(bp.load_usize(&mem, base), Ok(37));

    assert_eq!(bp.load(&mem, base + WORD_BYTES, 1), Ok(vec![42u8]));
    assert_eq!(bp.load(&mem, 0, 32 * WORD_BYTES), Err(()));
}

#[test]
fn load_returns_exact_contents() {
    let base: usize = 0x2000;
    let mem = word_region(base, &[0x0102030405060708, 11], false);
    let bp = Bulletproof::new();

    assert_eq!(bp.load_usize(&mem, base), Ok(0x0102030405060708));
    assert_eq!(
        bp.load(&mem, base, 8),
        Ok(vec![0x08, 0x07, 0x06, 0x05, 0x04, 0x03, 0x02, 0x01])
    );
    assert_eq!(bp.load_usize(&mem, base + 8), Ok(11));
    assert_eq!(bp.load(&mem, base + 6, 4), Ok(vec![0x02, 0x01, 11, 0]));
}

#[test]
fn repeated_null_load_keeps_failing() {
    let mem = word_region(0x3000, &[42], true);
    let bp = Bulletproof::new();
    for _ in 0..100 {
        assert_eq!(bp.load_usize(&mem, 0), Err(()));
    }
    // The failed probes changed nothing: valid loads still succeed.
    assert_eq!(bp.load_usize(&mem, 0x3000), Ok(42));
}

#[test]
fn aggregate_load_fails_past_region_end() {
    // Four words are mapped; a 32-word load from the (valid) start of the
    // region extends past its end and must fail as a whole.
    let base: usize = 0x4000;
    let mem = word_region(base, &[1, 2, 3, 4], true);
    let bp = Bulletproof::new();

    assert_eq!(bp.load(&mem, base, 32 * WORD_BYTES), Err(()));
    assert_eq!(bp.load_usize(&mem, base + 3 * WORD_BYTES), Ok(4));
    assert_eq!(bp.load_usize(&mem, base + 4 * WORD_BYTES - 1), Err(()));
    assert!(bp.load(&mem, base, 4 * WORD_BYTES).is_ok());
}

#[test]
fn store_word_round_trip() {
    let base: usize = 0x5000;
    let mut mem = word_region(base, &[0, 0, 0], true);
    let bp = Bulletproof::new();

    assert_eq!(bp.store_usize(&mut mem, base + 8, 0xdeadbeef), Ok(()));
    assert_eq!(bp.load_usize(&mem, base + 8), Ok(0xdeadbeef));
    // Neighbouring words kept their values.
    assert_eq!(bp.load_usize(&mem, base), Ok(0));
    assert_eq!(bp.load_usize(&mem, base + 16), Ok(0));
}

#[test]
fn failed_store_changes_nothing() {
    let base: usize = 0x6000;
    let bp = Bulletproof::new();

    // Read-only region: stores fail, loads still see the old contents.
    let mut ro = word_region(base, &[42], false);
    assert_eq!(bp.store_usize(&mut ro, base, 37), Err(()));
    assert_eq!(bp.load_usize(&ro, base), Ok(42));

    // Writable region: a store straddling the region end fails as a whole,
    // with no partial write observable.
    let mut rw = word_region(base, &[42], true);
    let before = bp.load(&rw, base, 8);
    assert_eq!(bp.store(&mut rw, base + 4, &vec![1, 2, 3, 4, 5]), Err(()));
    assert_eq!(bp.load(&rw, base, 8), before);
    assert_eq!(bp.load_usize(&rw, base), Ok(42));
}

#[test]
fn empty_touch_never_faults() {
    let mut mem = word_region(0x7000, &[0], true);
    let bp = Bulletproof::new();
    let empty: Vec<u8> = Vec::new();

    // A touch of zero bytes probes no address at all, even the null one.
    assert_eq!(bp.load(&mem, 0, 0), Ok(Vec::new()));
    assert_eq!(bp.store(&mut mem, 0, &empty), Ok(()));
    assert_eq!(bp.load_usize(&mem, 0x7000), Ok(0));
}

#[test]
fn nested_regions_behave_like_one() {
    let mem = word_region(0x8000, &[42], true);
    let outer = Bulletproof::new();
    let inner = Bulletproof::new();
    let mut ic = Interceptor::new();

    // The handler is installed only on the first region, and both handles'
    // guarded loads see the same outcomes for the same addresses.
    assert_eq!(ic.enter_region(), true);
    assert_eq!(ic.enter_region(), false);
    assert_eq!(outer.load_usize(&mem, 0x8000), inner.load_usize(&mem, 0x8000));
    assert_eq!(outer.load_usize(&mem, 0), inner.load_usize(&mem, 0));

    // Destroying the inner region first leaves the outer one functional.
    assert_eq!(ic.leave_region(), Ok(false));
    assert_eq!(ic.begin_touch(), Ok(()));
    assert_eq!(ic.finish_touch(false), Ok(()));
    assert_eq!(outer.load_usize(&mem, 0x8000), Ok(42));

    // The handler is uninstalled exactly when the last region goes away.
    assert_eq!(ic.leave_region(), Ok(true));
    assert_eq!(ic.leave_region(), Err(()));
}

#[test]
fn touch_needs_live_region_and_free_save_point() {
    let mut ic = Interceptor::new();

    // No region live: a guarded touch may not begin.
    assert_eq!(ic.begin_touch(), Err(()));

    assert_eq!(ic.enter_region(), true);
    assert_eq!(ic.begin_touch(), Ok(()));
    // The single save point is busy: a second touch is rejected, never
    // silently overwritten.
    assert_eq!(ic.begin_touch(), Err(()));
    // The last region may not be destroyed while a touch is unresolved.
    assert_eq!(ic.leave_region(), Err(()));

    // A faulted touch resolves as a failure and frees the save point.
    assert_eq!(ic.finish_touch(true), Err(()));
    assert_eq!(ic.begin_touch(), Ok(()));
    assert_eq!(ic.finish_touch(false), Ok(()));
    assert_eq!(ic.leave_region(), Ok(true));
}
