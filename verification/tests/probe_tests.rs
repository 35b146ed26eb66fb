use ebpf_trace::probe::{bumped_count, hashmap_probe_exit, probe_exit_code};

#[test]
fn first_hit_counts_one() {
    assert_eq!(bumped_count(None), 1);
}

#[test]
fn later_hit_adds_one() {
    assert_eq!(bumped_count(Some(41)), 42);
    assert_eq!(bumped_count(Some(0)), 1);
}

#[test]
fn count_wraps_at_maximum() {
    assert_eq!(bumped_count(Some(u64::MAX)), 0);
}

#[test]
fn hashmap_probe_exit_codes() {
    assert_eq!(hashmap_probe_exit(Ok(())), 0);
    assert_eq!(hashmap_probe_exit(Err(-7)), 1);
}

#[test]
fn probe_exit_codes() {
    assert_eq!(probe_exit_code(Ok(0)), 0);
    assert_eq!(probe_exit_code(Ok(17)), 17);
    assert_eq!(probe_exit_code(Err(-1)), u32::MAX);
    assert_eq!(probe_exit_code(Err(-7)), 0xffff_fff9);
    assert_eq!(probe_exit_code(Err(0x1_0000_0005)), 5);
}
