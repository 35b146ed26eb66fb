use ebpf_trace::benchmark::{
    benchmark_plan, plan_feasible, random_direct, random_direct_double_writes,
    random_direct_double_writes_in_order, random_direct_in_order, random_direct_with_fallocate,
    random_direct_with_fallocate_in_order, sequential_direct, sequential_direct_double_writes,
    sequential_direct_with_fallocate, sequential_with_kpc, sequential_with_kpc_with_fallocate,
    FallocateFlag, Function, Heading, Step, BLOCK_SIZE,
};
use ebpf_trace::order::random_order;

const ALL: [Function; 8] = [
    Function::SequentialWithKPC,
    Function::SequentialWithKPCWithFallocate,
    Function::SequentialDirect,
    Function::SequentialDirectWithFallocate,
    Function::SequentialDirectDoubleWrites,
    Function::RandomDirect,
    Function::RandomDirectWithFallocate,
    Function::RandomDirectDoubleWrites,
];

fn show(h: Heading) -> Step {
    Step::ShowTable(h)
}

fn write(block: i64, fill: u8, timed: bool) -> Step {
    Step::WriteAt { offset: block * 4096, fill, timed }
}

fn timed(plan: &[Step]) -> usize {
    plan.iter()
        .filter(|s| matches!(s, Step::Append | Step::WriteAt { timed: true, .. }))
        .count()
}

fn write_offsets(plan: &[Step], fill: u8) -> Vec<i64> {
    plan.iter()
        .filter_map(|s| match s {
            Step::WriteAt { offset, fill: f, .. } if *f == fill => Some(*offset),
            _ => None,
        })
        .collect()
}

#[test]
fn function_names() {
    let names: Vec<&str> = ALL.iter().map(|f| f.name()).collect();
    assert_eq!(
        names,
        vec![
            "sequential_with_kpc",
            "sequential_with_kpc_with_fallocate",
            "sequential_direct",
            "sequential_direct_with_fallocate",
            "sequential_direct_double_writes",
            "random_direct",
            "random_direct_with_fallocate",
            "random_direct_double_writes",
        ]
    );
}

#[test]
fn flag_names_and_bits() {
    assert_eq!(FallocateFlag::NoFlag.name(), "none");
    assert_eq!(FallocateFlag::ZeroRange.name(), "zero_range");
    assert_eq!(FallocateFlag::KeepSize.name(), "keep_size");
    assert_eq!(FallocateFlag::NoFlag.to_int(), 0);
    assert_eq!(FallocateFlag::ZeroRange.to_int(), 0x10);
    assert_eq!(FallocateFlag::KeepSize.to_int(), 0x01);
}

#[test]
fn heading_texts() {
    assert_eq!(Heading::Initial.text(), "Initial");
    assert_eq!(Heading::AfterTimestamp.text(), "After generating timestamp");
    assert_eq!(Heading::AfterCreatingFile.text(), "After creating file");
    assert_eq!(Heading::AfterCreatingDirectFile.text(), "After creating file with O_DIRECT");
    assert_eq!(Heading::AfterFallocate.text(), "After fallocate to file");
    assert_eq!(Heading::AfterWritingToFile.text(), "After writing blocks to file");
    assert_eq!(Heading::AfterPwrite.text(), "After writing blocks with pwrite");
    assert_eq!(Heading::AfterFirstPass.text(), "(1) After writing blocks with pwrite");
    assert_eq!(Heading::AfterSecondPass.text(), "(2) After writing blocks with pwrite");
    assert_eq!(Heading::AfterFsync.text(), "After fsyncing file");
}

#[test]
fn sequential_with_kpc_steps() {
    let plan = sequential_with_kpc(2);
    assert!(plan == vec![
        show(Heading::Initial),
        Step::Stamp,
        show(Heading::AfterTimestamp),
        Step::OpenBuffered,
        show(Heading::AfterCreatingFile),
        Step::Append,
        Step::Append,
        show(Heading::AfterWritingToFile),
        Step::SyncAll,
        show(Heading::AfterFsync),
    ]);
}

#[test]
fn sequential_with_kpc_with_fallocate_steps() {
    let plan = sequential_with_kpc_with_fallocate(FallocateFlag::ZeroRange, 3);
    assert!(plan[5] == Step::Fallocate { mode: 0x10, len: 3 * 4096 });
    assert!(plan[6] == show(Heading::AfterFallocate));
    assert!(plan[7..10] == [Step::Append, Step::Append, Step::Append]);
    assert_eq!(plan.len(), 13);
}

#[test]
fn sequential_direct_steps() {
    let plan = sequential_direct(3);
    assert!(plan == vec![
        show(Heading::Initial),
        Step::OpenDirect(Function::SequentialDirect),
        show(Heading::AfterCreatingDirectFile),
        write(0, 1, true),
        write(1, 1, true),
        write(2, 1, true),
        show(Heading::AfterPwrite),
        Step::SyncFd,
        show(Heading::AfterFsync),
    ]);
}

#[test]
fn sequential_direct_with_fallocate_steps() {
    let plan = sequential_direct_with_fallocate(FallocateFlag::KeepSize, 2);
    assert!(plan == vec![
        show(Heading::Initial),
        Step::OpenDirect(Function::SequentialDirectWithFallocate),
        show(Heading::AfterCreatingDirectFile),
        Step::Fallocate { mode: 1, len: 8192 },
        show(Heading::AfterFallocate),
        Step::SyncFd,
        show(Heading::AfterFsync),
        write(0, 1, true),
        write(1, 1, true),
        show(Heading::AfterPwrite),
        Step::SyncFd,
        show(Heading::AfterFsync),
    ]);
}

#[test]
fn sequential_direct_double_writes_steps() {
    let plan = sequential_direct_double_writes(2);
    assert!(plan == vec![
        show(Heading::Initial),
        Step::OpenDirect(Function::SequentialDirectDoubleWrites),
        show(Heading::AfterCreatingDirectFile),
        write(0, 1, false),
        write(1, 1, false),
        show(Heading::AfterFirstPass),
        Step::Rewind,
        write(0, 2, true),
        write(1, 2, true),
        show(Heading::AfterSecondPass),
        Step::SyncFd,
        show(Heading::AfterFsync),
    ]);
}

#[test]
fn random_direct_follows_given_order() {
    let plan = random_direct_in_order(4, &vec![2, 0, 3, 1]);
    assert!(plan[3..7] == [write(2, 1, true), write(0, 1, true), write(3, 1, true), write(1, 1, true)]);
    assert!(plan[7..] == [show(Heading::AfterPwrite), Step::SyncFd, show(Heading::AfterFsync)]);
}

#[test]
fn random_offset_wraps_indices_modulo_block_count() {
    let plan = random_direct_in_order(3, &vec![4, 7]);
    assert!(plan[3..5] == [write(1, 1, true), write(1, 1, true)]);
}

#[test]
fn random_offset_takes_indices_as_u32() {
    let big = (1usize << 32) + 2;
    let plan = random_direct_in_order(5, &vec![big]);
    assert!(plan[3] == write(2, 1, true));
}

#[test]
fn random_with_fallocate_steps() {
    let plan = random_direct_with_fallocate_in_order(FallocateFlag::NoFlag, 2, &vec![1, 0]);
    assert!(plan == vec![
        show(Heading::Initial),
        Step::OpenDirect(Function::RandomDirectWithFallocate),
        show(Heading::AfterCreatingDirectFile),
        Step::Fallocate { mode: 0, len: 8192 },
        show(Heading::AfterFallocate),
        Step::SyncFd,
        show(Heading::AfterFsync),
        write(1, 1, true),
        write(0, 1, true),
        show(Heading::AfterPwrite),
        Step::SyncFd,
        show(Heading::AfterFsync),
    ]);
}

#[test]
fn random_double_writes_steps() {
    let plan = random_direct_double_writes_in_order(2, &vec![1, 0], &vec![0, 1]);
    assert!(plan == vec![
        show(Heading::Initial),
        Step::OpenDirect(Function::RandomDirectDoubleWrites),
        show(Heading::AfterCreatingDirectFile),
        write(1, 1, false),
        write(0, 1, false),
        show(Heading::AfterFirstPass),
        write(0, 2, true),
        write(1, 2, true),
        show(Heading::AfterSecondPass),
        Step::SyncFd,
        show(Heading::AfterFsync),
    ]);
}

#[test]
fn random_order_is_a_permutation() {
    for n in [0usize, 1, 2, 17, 1000] {
        let mut order = random_order(n).expect("seeded");
        assert_eq!(order.len(), n);
        order.sort();
        assert_eq!(order, (0..n).collect::<Vec<usize>>());
    }
}

#[test]
fn random_plans_write_each_block_once() {
    let n = 64usize;
    let mut expected: Vec<i64> = (0..n as i64).map(|i| i * BLOCK_SIZE as i64).collect();
    expected.sort();
    for plan in [
        random_direct(n).expect("seeded"),
        random_direct_with_fallocate(FallocateFlag::KeepSize, n).expect("seeded"),
    ] {
        let mut offsets = write_offsets(&plan, 1);
        offsets.sort();
        assert_eq!(offsets, expected);
    }
    let plan = random_direct_double_writes(n).expect("seeded");
    for fill in [1u8, 2] {
        let mut offsets = write_offsets(&plan, fill);
        offsets.sort();
        assert_eq!(offsets, expected);
    }
}

#[test]
fn every_plan_times_one_write_per_block_and_ends_with_flush() {
    for f in ALL {
        for n in [0usize, 1, 5, 100] {
            let plan = benchmark_plan(f, FallocateFlag::KeepSize, n).expect("seeded");
            assert_eq!(timed(&plan), n);
            let last = plan.len() - 1;
            assert!(plan[last] == show(Heading::AfterFsync));
            assert!(plan[last - 1] == Step::SyncAll || plan[last - 1] == Step::SyncFd);
        }
    }
}

#[test]
fn feasibility_limits() {
    let max = usize::MAX / BLOCK_SIZE;
    assert!(plan_feasible(Function::SequentialWithKPC, usize::MAX));
    assert!(plan_feasible(Function::SequentialWithKPCWithFallocate, max));
    assert!(!plan_feasible(Function::SequentialWithKPCWithFallocate, max + 1));
    assert!(plan_feasible(Function::SequentialDirect, max + 1));
    assert!(!plan_feasible(Function::SequentialDirect, max + 2));
    assert!(plan_feasible(Function::SequentialDirect, 0));
    assert!(plan_feasible(Function::RandomDirect, 0));
    assert!(plan_feasible(Function::RandomDirect, 10_000));
    assert!(!plan_feasible(Function::RandomDirect, 1usize << 32));
    assert!(!plan_feasible(Function::RandomDirectDoubleWrites, 1usize << 33));
    assert!(!plan_feasible(Function::RandomDirectWithFallocate, 1usize << 32));
}

#[test]
fn random_order_shuffles() {
    let order = random_order(1000).expect("seeded");
    assert_ne!(order, (0..1000).collect::<Vec<usize>>());
}

#[test]
fn non_random_plans_need_no_generator() {
    for f in &ALL[..5] {
        assert!(benchmark_plan(*f, FallocateFlag::NoFlag, 3).is_some());
    }
}
