use vstd::prelude::*;

verus! {

/// The count that a probe stores for a key after one more hit: one more than
/// the stored count, or 1 for a key not seen before. The probes are built
/// in release mode, where the addition wraps at `u64::MAX`.
pub open spec fn next_count(current: Option<u64>) -> u64 {
    match current {
        Some(c) => if c == u64::MAX { 0 } else { (c + 1) as u64 },
        None => 1,
    }
}

/// One more hit adds one to a stored count below `u64::MAX`, and a key not
/// seen before starts at one.
pub proof fn law_count_grows_by_one(c: u64)
    ensures
        c < u64::MAX ==> next_count(Some(c)) == c + 1,
        next_count(Some(c)) != c,
        next_count(None) == 1,
{
}

/// The value that a counting probe stores for a key that held `current`.
pub fn bumped_count(current: Option<u64>) -> (r: u64)
    ensures
        r == next_count(current),
        current is None ==> r == 1,
        forall|c: u64| current == Some(c) && c < u64::MAX ==> r == c + 1,
        current == Some(u64::MAX) ==> r == 0,
{
    match current {
        Some(c) => c.wrapping_add(1),
        None => 1,
    }
}

/// What the process-counting kprobe returns after storing its count: 0 when
/// the map took the entry, 1 when it refused it (a full map, for one).
pub fn hashmap_probe_exit(insert: Result<(), i64>) -> (r: u32)
    ensures
        r == (if insert is Ok { 0u32 } else { 1u32 }),
        insert is Ok ==> r == 0,
        insert is Err ==> r == 1,
{
    match insert {
        Ok(_) => 0,
        Err(_) => 1,
    }
}

/// What a probe program returns: the value of a probe that succeeded,
/// or the low 32 bits of the error code of one that failed.
pub fn probe_exit_code(outcome: Result<u32, i64>) -> (r: u32)
    ensures
        r == match outcome {
            Ok(v) => v,
            Err(e) => e as u32,
        },
        forall|v: u32| outcome == Ok::<u32, i64>(v) ==> r == v,
        forall|e: i64| outcome == Err::<u32, i64>(e) ==> r == e as u32,
{
    match outcome {
        Ok(v) => v,
        Err(e) => e as u32,
    }
}

} // verus!
