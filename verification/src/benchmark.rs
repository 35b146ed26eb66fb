use vstd::prelude::*;
use crate::order::{is_order_of, index_range, random_order};

verus! {

/// Size in bytes of each block that the benchmarks write.
pub const BLOCK_SIZE: usize = 4096;

/// The write patterns that the benchmark can measure.
#[derive(Clone, Copy, PartialEq, Eq, Structural)]
pub enum Function {
    SequentialWithKPC,
    SequentialWithKPCWithFallocate,
    SequentialDirect,
    SequentialDirectWithFallocate,
    SequentialDirectDoubleWrites,
    RandomDirect,
    RandomDirectWithFallocate,
    RandomDirectDoubleWrites,
}

/// The name under which a write pattern is shown, and which names its file.
pub open spec fn function_name(f: Function) -> Seq<char> {
    match f {
        Function::SequentialWithKPC => "sequential_with_kpc"@,
        Function::SequentialWithKPCWithFallocate => "sequential_with_kpc_with_fallocate"@,
        Function::SequentialDirect => "sequential_direct"@,
        Function::SequentialDirectWithFallocate => "sequential_direct_with_fallocate"@,
        Function::SequentialDirectDoubleWrites => "sequential_direct_double_writes"@,
        Function::RandomDirect => "random_direct"@,
        Function::RandomDirectWithFallocate => "random_direct_with_fallocate"@,
        Function::RandomDirectDoubleWrites => "random_direct_double_writes"@,
    }
}

impl Function {
    /// The text that shows this write pattern.
    pub fn name(&self) -> (r: &'static str)
        ensures
            r@ == function_name(*self),
    {
        match self {
            Function::SequentialWithKPC => "sequential_with_kpc",
            Function::SequentialWithKPCWithFallocate => "sequential_with_kpc_with_fallocate",
            Function::SequentialDirect => "sequential_direct",
            Function::SequentialDirectWithFallocate => "sequential_direct_with_fallocate",
            Function::SequentialDirectDoubleWrites => "sequential_direct_double_writes",
            Function::RandomDirect => "random_direct",
            Function::RandomDirectWithFallocate => "random_direct_with_fallocate",
            Function::RandomDirectDoubleWrites => "random_direct_double_writes",
        }
    }
}

/// The mode that the preallocating benchmarks hand to `fallocate`.
#[derive(Clone, Copy, PartialEq, Eq, Structural)]
pub enum FallocateFlag {
    NoFlag,
    ZeroRange,
    KeepSize,
}

/// The name under which a mode is shown.
pub open spec fn flag_name(f: FallocateFlag) -> Seq<char> {
    match f {
        FallocateFlag::NoFlag => "none"@,
        FallocateFlag::ZeroRange => "zero_range"@,
        FallocateFlag::KeepSize => "keep_size"@,
    }
}

/// The `fallocate` mode bits of a flag, as Linux defines them.
pub open spec fn flag_bits(f: FallocateFlag) -> i32 {
    match f {
        FallocateFlag::NoFlag => 0,
        FallocateFlag::ZeroRange => 0x10,
        FallocateFlag::KeepSize => 0x01,
    }
}

/// `libc::FALLOC_FL_ZERO_RANGE`, which libc defines as `0x10` for Linux.
#[verifier::external_body]
fn falloc_fl_zero_range() -> (r: i32)
    ensures
        r == 0x10,
{
    libc::FALLOC_FL_ZERO_RANGE
}

/// `libc::FALLOC_FL_KEEP_SIZE`, which libc defines as `0x01` for Linux.
#[verifier::external_body]
fn falloc_fl_keep_size() -> (r: i32)
    ensures
        r == 0x01,
{
    libc::FALLOC_FL_KEEP_SIZE
}

impl FallocateFlag {
    /// The text that shows this mode.
    pub fn name(&self) -> (r: &'static str)
        ensures
            r@ == flag_name(*self),
    {
        match self {
            FallocateFlag::NoFlag => "none",
            FallocateFlag::ZeroRange => "zero_range",
            FallocateFlag::KeepSize => "keep_size",
        }
    }

    /// The mode bits handed to `fallocate`: none, `FALLOC_FL_ZERO_RANGE` or
    /// `FALLOC_FL_KEEP_SIZE`.
    pub fn to_int(&self) -> (r: i32)
        ensures
            r == flag_bits(*self),
            *self == FallocateFlag::NoFlag ==> r == 0,
            *self == FallocateFlag::ZeroRange ==> r == 0x10,
            *self == FallocateFlag::KeepSize ==> r == 0x01,
    {
        match self {
            FallocateFlag::NoFlag => 0,
            FallocateFlag::ZeroRange => falloc_fl_zero_range(),
            FallocateFlag::KeepSize => falloc_fl_keep_size(),
        }
    }
}

/// The headings under which the benchmarks show the probe's counter table
/// between their steps.
#[derive(Clone, Copy, PartialEq, Eq, Structural)]
pub enum Heading {
    Initial,
    AfterTimestamp,
    AfterCreatingFile,
    AfterCreatingDirectFile,
    AfterFallocate,
    AfterWritingToFile,
    AfterPwrite,
    AfterFirstPass,
    AfterSecondPass,
    AfterFsync,
}

/// The text of a heading.
pub open spec fn heading_text(h: Heading) -> Seq<char> {
    match h {
        Heading::Initial => "Initial"@,
        Heading::AfterTimestamp => "After generating timestamp"@,
        Heading::AfterCreatingFile => "After creating file"@,
        Heading::AfterCreatingDirectFile => "After creating file with O_DIRECT"@,
        Heading::AfterFallocate => "After fallocate to file"@,
        Heading::AfterWritingToFile => "After writing blocks to file"@,
        Heading::AfterPwrite => "After writing blocks with pwrite"@,
        Heading::AfterFirstPass => "(1) After writing blocks with pwrite"@,
        Heading::AfterSecondPass => "(2) After writing blocks with pwrite"@,
        Heading::AfterFsync => "After fsyncing file"@,
    }
}

impl Heading {
    /// The text of this heading.
    pub fn text(&self) -> (r: &'static str)
        ensures
            r@ == heading_text(*self),
    {
        match self {
            Heading::Initial => "Initial",
            Heading::AfterTimestamp => "After generating timestamp",
            Heading::AfterCreatingFile => "After creating file",
            Heading::AfterCreatingDirectFile => "After creating file with O_DIRECT",
            Heading::AfterFallocate => "After fallocate to file",
            Heading::AfterWritingToFile => "After writing blocks to file",
            Heading::AfterPwrite => "After writing blocks with pwrite",
            Heading::AfterFirstPass => "(1) After writing blocks with pwrite",
            Heading::AfterSecondPass => "(2) After writing blocks with pwrite",
            Heading::AfterFsync => "After fsyncing file",
        }
    }
}

/// One step of a benchmark, carried out by the program that runs it.
#[derive(Clone, Copy, PartialEq, Eq, Structural)]
pub enum Step {
    /// Show the probe's counter table under a heading.
    ShowTable(Heading),
    /// Take the time in nanoseconds since the epoch; it names the buffered file.
    Stamp,
    /// Open (read, write, create) the buffered file named by the last stamp;
    /// the program exits when that fails.
    OpenBuffered,
    /// Open (write, create, `O_DIRECT`) a file named after the pattern and the
    /// current time; the benchmark fails when that fails.
    OpenDirect(Function),
    /// Preallocate `len` bytes from offset 0 with the given mode bits; the
    /// benchmark fails when that fails.
    Fallocate { mode: i32, len: i64 },
    /// Append one block of `1` bytes to the buffered file, timed; the program
    /// exits when that fails.
    Append,
    /// Flush the buffered file's data and metadata; the program exits when
    /// that fails.
    SyncAll,
    /// Write one block filled with `fill` at `offset` of the direct file; when
    /// `timed`, its duration is recorded, also when it fails; the benchmark
    /// fails when it fails.
    WriteAt { offset: i64, fill: u8, timed: bool },
    /// `fsync` the direct file; the benchmark fails when that fails.
    SyncFd,
    /// Seek the direct file back to its start; the benchmark fails when that
    /// fails.
    Rewind,
}

/// `n` timed appends of a block.
pub open spec fn append_pass(n: nat) -> Seq<Step> {
    Seq::new(n, |i: int| Step::Append)
}

/// The offset of block `i` of a file.
pub open spec fn block_start(i: int) -> i64 {
    (i * BLOCK_SIZE) as i64
}

/// `n` block writes at the blocks `0, 1, .., n - 1` of the direct file, in
/// that order.
pub open spec fn sequential_pass(n: nat, fill: u8, timed: bool) -> Seq<Step> {
    Seq::new(n, |i: int| Step::WriteAt { offset: block_start(i), fill, timed })
}

/// The offset at which the random benchmarks write the entry `r` of their
/// order, for a file of `n` blocks: `r` and `n` are taken as `u32`, and the
/// block is `r` modulo `n`.
pub open spec fn random_block_start(r: usize, n: usize) -> i64 {
    (((r as u32) % (n as u32)) as int * BLOCK_SIZE) as i64
}

/// One block write for each entry of `order`, in that order.
pub open spec fn random_pass(order: Seq<usize>, n: usize, fill: u8, timed: bool) -> Seq<Step> {
    order.map_values(|r: usize| Step::WriteAt { offset: random_block_start(r, n), fill, timed })
}

/// Whether the products `i * BLOCK_SIZE` for `i < n` fit in a `usize`.
pub open spec fn offsets_fit(n: usize) -> bool {
    n == 0 || (n - 1) * BLOCK_SIZE <= usize::MAX
}

/// Whether the file size `n * BLOCK_SIZE` fits in a `usize`.
pub open spec fn size_fits(n: usize) -> bool {
    n * BLOCK_SIZE <= usize::MAX
}

/// Whether `order` can be taken modulo `n` as a `u32`: it is empty, or `n`
/// is no multiple of 2^32.
pub open spec fn order_fits(order: Seq<usize>, n: usize) -> bool {
    order.len() == 0 || (n as u32) != 0
}

fn push_appends(plan: &mut Vec<Step>, n: usize)
    ensures
        final(plan)@ == old(plan)@ + append_pass(n as nat),
{
    let ghost start = plan@;
    let mut i: usize = 0;
    while i < n
        invariant
            i <= n,
            plan@ == start + append_pass(i as nat),
        decreases n - i,
    {
        plan.push(Step::Append);
        i = i + 1;
        assert(plan@ =~= start + append_pass(i as nat));
    }
}

fn push_sequential_pass(plan: &mut Vec<Step>, n: usize, fill: u8, timed: bool)
    requires
        offsets_fit(n),
    ensures
        final(plan)@ == old(plan)@ + sequential_pass(n as nat, fill, timed),
{
    let ghost start = plan@;
    let mut i: usize = 0;
    while i < n
        invariant
            i <= n,
            offsets_fit(n),
            plan@ == start + sequential_pass(i as nat, fill, timed),
        decreases n - i,
    {
        assert(i * BLOCK_SIZE <= usize::MAX) by (nonlinear_arith)
            requires
                i < n,
                (n - 1) * BLOCK_SIZE <= usize::MAX,
        ;
        let offset = (i * BLOCK_SIZE) as i64;
        plan.push(Step::WriteAt { offset, fill, timed });
        i = i + 1;
        assert(plan@ =~= start + sequential_pass(i as nat, fill, timed));
    }
}

fn push_random_pass(plan: &mut Vec<Step>, order: &Vec<usize>, n: usize, fill: u8, timed: bool)
    requires
        order_fits(order@, n),
    ensures
        final(plan)@ == old(plan)@ + random_pass(order@, n, fill, timed),
{
    let ghost start = plan@;
    let mut k: usize = 0;
    while k < order.len()
        invariant
            k <= order@.len(),
            order_fits(order@, n),
            plan@ == start + random_pass(order@.subrange(0, k as int), n, fill, timed),
        decreases order@.len() - k,
    {
        let r = order[k];
        let block = (r as u32) % (n as u32);
        let offset = (block as i64) * (BLOCK_SIZE as i64);
        plan.push(Step::WriteAt { offset, fill, timed });
        k = k + 1;
        assert(plan@ =~= start + random_pass(order@.subrange(0, k as int), n, fill, timed));
    }
    assert(order@.subrange(0, order@.len() as int) =~= order@);
}

/// Start of the buffered benchmarks: stamp the time, then create the file.
pub open spec fn buffered_head() -> Seq<Step> {
    seq![
        Step::ShowTable(Heading::Initial),
        Step::Stamp,
        Step::ShowTable(Heading::AfterTimestamp),
        Step::OpenBuffered,
        Step::ShowTable(Heading::AfterCreatingFile),
    ]
}

/// End of the buffered benchmarks: flush the file.
pub open spec fn buffered_tail() -> Seq<Step> {
    seq![
        Step::ShowTable(Heading::AfterWritingToFile),
        Step::SyncAll,
        Step::ShowTable(Heading::AfterFsync),
    ]
}

/// Start of the direct benchmarks: create the file of pattern `f`.
pub open spec fn direct_head(f: Function) -> Seq<Step> {
    seq![
        Step::ShowTable(Heading::Initial),
        Step::OpenDirect(f),
        Step::ShowTable(Heading::AfterCreatingDirectFile),
    ]
}

/// Preallocation of a file of `n` blocks with the given mode bits.
pub open spec fn preallocate(mode: i32, n: usize) -> Seq<Step> {
    seq![
        Step::Fallocate { mode, len: (n * BLOCK_SIZE) as i64 },
        Step::ShowTable(Heading::AfterFallocate),
    ]
}

/// `fsync` of the direct file.
pub open spec fn direct_sync() -> Seq<Step> {
    seq![Step::SyncFd, Step::ShowTable(Heading::AfterFsync)]
}

/// The steps of each benchmark for a file of `n` blocks: `mode` are the
/// `fallocate` mode bits of those that preallocate, `first` and `second`
/// the orders in which the random ones write their blocks (the second for
/// the second pass of the random double writes).
pub open spec fn plan_of(f: Function, mode: i32, n: usize, first: Seq<usize>, second: Seq<usize>) -> Seq<Step> {
    match f {
        Function::SequentialWithKPC =>
            buffered_head() + append_pass(n as nat) + buffered_tail(),
        Function::SequentialWithKPCWithFallocate =>
            buffered_head() + preallocate(mode, n) + append_pass(n as nat) + buffered_tail(),
        Function::SequentialDirect =>
            direct_head(f) + sequential_pass(n as nat, 1, true)
                + seq![Step::ShowTable(Heading::AfterPwrite)] + direct_sync(),
        Function::SequentialDirectWithFallocate =>
            direct_head(f) + preallocate(mode, n) + direct_sync() + sequential_pass(n as nat, 1, true)
                + seq![Step::ShowTable(Heading::AfterPwrite)] + direct_sync(),
        Function::SequentialDirectDoubleWrites =>
            direct_head(f) + sequential_pass(n as nat, 1, false)
                + seq![Step::ShowTable(Heading::AfterFirstPass), Step::Rewind]
                + sequential_pass(n as nat, 2, true)
                + seq![Step::ShowTable(Heading::AfterSecondPass)] + direct_sync(),
        Function::RandomDirect =>
            direct_head(f) + random_pass(first, n, 1, true)
                + seq![Step::ShowTable(Heading::AfterPwrite)] + direct_sync(),
        Function::RandomDirectWithFallocate =>
            direct_head(f) + preallocate(mode, n) + direct_sync() + random_pass(first, n, 1, true)
                + seq![Step::ShowTable(Heading::AfterPwrite)] + direct_sync(),
        Function::RandomDirectDoubleWrites =>
            direct_head(f) + random_pass(first, n, 1, false)
                + seq![Step::ShowTable(Heading::AfterFirstPass)]
                + random_pass(second, n, 2, true)
                + seq![Step::ShowTable(Heading::AfterSecondPass)] + direct_sync(),
    }
}

fn push_buffered_head(plan: &mut Vec<Step>)
    ensures
        final(plan)@ == old(plan)@ + buffered_head(),
{
    let ghost start = plan@;
    plan.push(Step::ShowTable(Heading::Initial));
    plan.push(Step::Stamp);
    plan.push(Step::ShowTable(Heading::AfterTimestamp));
    plan.push(Step::OpenBuffered);
    plan.push(Step::ShowTable(Heading::AfterCreatingFile));
    assert(plan@ =~= start + buffered_head());
}

fn push_buffered_tail(plan: &mut Vec<Step>)
    ensures
        final(plan)@ == old(plan)@ + buffered_tail(),
{
    let ghost start = plan@;
    plan.push(Step::ShowTable(Heading::AfterWritingToFile));
    plan.push(Step::SyncAll);
    plan.push(Step::ShowTable(Heading::AfterFsync));
    assert(plan@ =~= start + buffered_tail());
}

fn push_direct_head(plan: &mut Vec<Step>, f: Function)
    ensures
        final(plan)@ == old(plan)@ + direct_head(f),
{
    let ghost start = plan@;
    plan.push(Step::ShowTable(Heading::Initial));
    plan.push(Step::OpenDirect(f));
    plan.push(Step::ShowTable(Heading::AfterCreatingDirectFile));
    assert(plan@ =~= start + direct_head(f));
}

fn push_preallocate(plan: &mut Vec<Step>, mode: i32, n: usize)
    requires
        size_fits(n),
    ensures
        final(plan)@ == old(plan)@ + preallocate(mode, n),
{
    let ghost start = plan@;
    let file_size = BLOCK_SIZE * n;
    plan.push(Step::Fallocate { mode, len: file_size as i64 });
    plan.push(Step::ShowTable(Heading::AfterFallocate));
    assert(plan@ =~= start + preallocate(mode, n));
}

fn push_direct_sync(plan: &mut Vec<Step>)
    ensures
        final(plan)@ == old(plan)@ + direct_sync(),
{
    let ghost start = plan@;
    plan.push(Step::SyncFd);
    plan.push(Step::ShowTable(Heading::AfterFsync));
    assert(plan@ =~= start + direct_sync());
}

fn push_show(plan: &mut Vec<Step>, h: Heading)
    ensures
        final(plan)@ == old(plan)@ + seq![Step::ShowTable(h)],
{
    let ghost start = plan@;
    plan.push(Step::ShowTable(h));
    assert(plan@ =~= start + seq![Step::ShowTable(h)]);
}

/// Timed buffered appends of `num_blocks` blocks, then a flush.
pub fn sequential_with_kpc(num_blocks: usize) -> (r: Vec<Step>)
    ensures
        r@ == plan_of(Function::SequentialWithKPC, 0, num_blocks, seq![], seq![]),
{
    let mut plan: Vec<Step> = Vec::new();
    push_buffered_head(&mut plan);
    push_appends(&mut plan, num_blocks);
    push_buffered_tail(&mut plan);
    plan
}

/// As `sequential_with_kpc`, with the file preallocated first.
pub fn sequential_with_kpc_with_fallocate(flag: FallocateFlag, num_blocks: usize) -> (r: Vec<Step>)
    requires
        size_fits(num_blocks),
    ensures
        r@ == plan_of(Function::SequentialWithKPCWithFallocate, flag_bits(flag), num_blocks, seq![], seq![]),
        r@.len() > 5,
        r@[5] == (Step::Fallocate {
            mode: (match flag { FallocateFlag::NoFlag => 0i32, FallocateFlag::ZeroRange => 0x10i32, FallocateFlag::KeepSize => 0x01i32 }),
            len: (num_blocks * 4096) as i64,
        }),
{
    let mut plan: Vec<Step> = Vec::new();
    push_buffered_head(&mut plan);
    push_preallocate(&mut plan, flag.to_int(), num_blocks);
    push_appends(&mut plan, num_blocks);
    push_buffered_tail(&mut plan);
    plan
}

/// Timed direct writes of blocks `0 .. num_blocks` in order, then an `fsync`.
pub fn sequential_direct(num_blocks: usize) -> (r: Vec<Step>)
    requires
        offsets_fit(num_blocks),
    ensures
        r@ == plan_of(Function::SequentialDirect, 0, num_blocks, seq![], seq![]),
{
    let mut plan: Vec<Step> = Vec::new();
    push_direct_head(&mut plan, Function::SequentialDirect);
    push_sequential_pass(&mut plan, num_blocks, 1, true);
    push_show(&mut plan, Heading::AfterPwrite);
    push_direct_sync(&mut plan);
    plan
}

/// As `sequential_direct`, with the file preallocated and synced first.
pub fn sequential_direct_with_fallocate(flag: FallocateFlag, num_blocks: usize) -> (r: Vec<Step>)
    requires
        size_fits(num_blocks),
    ensures
        r@ == plan_of(Function::SequentialDirectWithFallocate, flag_bits(flag), num_blocks, seq![], seq![]),
        r@.len() > 3,
        r@[3] == (Step::Fallocate {
            mode: (match flag { FallocateFlag::NoFlag => 0i32, FallocateFlag::ZeroRange => 0x10i32, FallocateFlag::KeepSize => 0x01i32 }),
            len: (num_blocks * 4096) as i64,
        }),
{
    let mut plan: Vec<Step> = Vec::new();
    push_direct_head(&mut plan, Function::SequentialDirectWithFallocate);
    push_preallocate(&mut plan, flag.to_int(), num_blocks);
    push_direct_sync(&mut plan);
    push_sequential_pass(&mut plan, num_blocks, 1, true);
    push_show(&mut plan, Heading::AfterPwrite);
    push_direct_sync(&mut plan);
    plan
}

/// An untimed pass of direct writes of ones, a seek back to the start, and a
/// timed pass of twos over the same blocks, then an `fsync`.
pub fn sequential_direct_double_writes(num_blocks: usize) -> (r: Vec<Step>)
    requires
        offsets_fit(num_blocks),
    ensures
        r@ == plan_of(Function::SequentialDirectDoubleWrites, 0, num_blocks, seq![], seq![]),
{
    let mut plan: Vec<Step> = Vec::new();
    push_direct_head(&mut plan, Function::SequentialDirectDoubleWrites);
    push_sequential_pass(&mut plan, num_blocks, 1, false);
    push_show(&mut plan, Heading::AfterFirstPass);
    let ghost mid = plan@;
    plan.push(Step::Rewind);
    assert(plan@ =~= mid + seq![Step::Rewind]);
    push_sequential_pass(&mut plan, num_blocks, 2, true);
    push_show(&mut plan, Heading::AfterSecondPass);
    push_direct_sync(&mut plan);
    proof {
        let h = direct_head(Function::SequentialDirectDoubleWrites);
        let p1 = sequential_pass(num_blocks as nat, 1, false);
        let p2 = sequential_pass(num_blocks as nat, 2, true);
        assert(seq![Step::ShowTable(Heading::AfterFirstPass)] + seq![Step::Rewind]
            =~= seq![Step::ShowTable(Heading::AfterFirstPass), Step::Rewind]);
        assert(plan@ =~= h + p1 + seq![Step::ShowTable(Heading::AfterFirstPass), Step::Rewind] + p2
            + seq![Step::ShowTable(Heading::AfterSecondPass)] + direct_sync());
    }
    plan
}

/// Timed direct writes of ones at the blocks that `order` gives, then an
/// `fsync`.
pub fn random_direct_in_order(num_blocks: usize, order: &Vec<usize>) -> (r: Vec<Step>)
    requires
        order_fits(order@, num_blocks),
    ensures
        r@ == plan_of(Function::RandomDirect, 0, num_blocks, order@, seq![]),
{
    let mut plan: Vec<Step> = Vec::new();
    push_direct_head(&mut plan, Function::RandomDirect);
    push_random_pass(&mut plan, order, num_blocks, 1, true);
    push_show(&mut plan, Heading::AfterPwrite);
    push_direct_sync(&mut plan);
    plan
}

/// As `random_direct_in_order`, with the file preallocated and synced first.
pub fn random_direct_with_fallocate_in_order(flag: FallocateFlag, num_blocks: usize, order: &Vec<usize>) -> (r: Vec<Step>)
    requires
        size_fits(num_blocks),
        order_fits(order@, num_blocks),
    ensures
        r@ == plan_of(Function::RandomDirectWithFallocate, flag_bits(flag), num_blocks, order@, seq![]),
        r@.len() > 3,
        r@[3] == (Step::Fallocate {
            mode: (match flag { FallocateFlag::NoFlag => 0i32, FallocateFlag::ZeroRange => 0x10i32, FallocateFlag::KeepSize => 0x01i32 }),
            len: (num_blocks * 4096) as i64,
        }),
{
    let mut plan: Vec<Step> = Vec::new();
    push_direct_head(&mut plan, Function::RandomDirectWithFallocate);
    push_preallocate(&mut plan, flag.to_int(), num_blocks);
    push_direct_sync(&mut plan);
    push_random_pass(&mut plan, order, num_blocks, 1, true);
    push_show(&mut plan, Heading::AfterPwrite);
    push_direct_sync(&mut plan);
    plan
}

/// An untimed pass of direct writes of ones in the order `first`, then a
/// timed pass of twos in the order `second`, then an `fsync`.
pub fn random_direct_double_writes_in_order(num_blocks: usize, first: &Vec<usize>, second: &Vec<usize>) -> (r: Vec<Step>)
    requires
        order_fits(first@, num_blocks),
        order_fits(second@, num_blocks),
    ensures
        r@ == plan_of(Function::RandomDirectDoubleWrites, 0, num_blocks, first@, second@),
{
    let mut plan: Vec<Step> = Vec::new();
    push_direct_head(&mut plan, Function::RandomDirectDoubleWrites);
    push_random_pass(&mut plan, first, num_blocks, 1, false);
    push_show(&mut plan, Heading::AfterFirstPass);
    push_random_pass(&mut plan, second, num_blocks, 2, true);
    push_show(&mut plan, Heading::AfterSecondPass);
    push_direct_sync(&mut plan);
    plan
}

/// What running pattern `f` on a file of `n` blocks asks of `n`: that the
/// byte offsets of its blocks, and the file size where it preallocates, fit
/// in a `usize`, and that the random patterns can take `n` modulo 2^32.
pub open spec fn plan_requires(f: Function, n: usize) -> bool {
    match f {
        Function::SequentialWithKPC => true,
        Function::SequentialWithKPCWithFallocate => size_fits(n),
        Function::SequentialDirect => offsets_fit(n),
        Function::SequentialDirectWithFallocate => size_fits(n),
        Function::SequentialDirectDoubleWrites => offsets_fit(n),
        Function::RandomDirect => n == 0 || (n as u32) != 0,
        Function::RandomDirectWithFallocate => size_fits(n) && (n == 0 || (n as u32) != 0),
        Function::RandomDirectDoubleWrites => n == 0 || (n as u32) != 0,
    }
}

/// Whether pattern `f` can run on a file of `num_blocks` blocks without an
/// arithmetic fault.
pub fn plan_feasible(f: Function, num_blocks: usize) -> (r: bool)
    ensures
        r == plan_requires(f, num_blocks),
        f == Function::SequentialWithKPC ==> r,
        num_blocks <= usize::MAX / 4096 && (num_blocks == 0 || (num_blocks as u32) != 0) ==> r,
        num_blocks > usize::MAX / 4096 && (f == Function::SequentialWithKPCWithFallocate
            || f == Function::SequentialDirectWithFallocate || f == Function::RandomDirectWithFallocate) ==> !r,
        num_blocks > usize::MAX / 4096 + 1 && (f == Function::SequentialDirect
            || f == Function::SequentialDirectDoubleWrites) ==> !r,
        num_blocks > 0 && (num_blocks as u32) == 0 && (f == Function::RandomDirect
            || f == Function::RandomDirectWithFallocate || f == Function::RandomDirectDoubleWrites) ==> !r,
{
    let max_blocks = usize::MAX / BLOCK_SIZE;
    let size_ok = num_blocks <= max_blocks;
    let offsets_ok = num_blocks == 0 || num_blocks - 1 <= max_blocks;
    let modulus_ok = num_blocks == 0 || (num_blocks as u32) != 0;
    proof {
        assert(size_ok == size_fits(num_blocks)) by (nonlinear_arith)
            requires
                size_ok == (num_blocks <= max_blocks),
                max_blocks == usize::MAX / BLOCK_SIZE,
                BLOCK_SIZE == 4096,
        ;
        if num_blocks > 0 {
            let m = (num_blocks - 1) as usize;
            assert((m <= max_blocks) == (m * BLOCK_SIZE <= usize::MAX)) by (nonlinear_arith)
                requires
                    max_blocks == usize::MAX / BLOCK_SIZE,
                    BLOCK_SIZE == 4096,
            ;
        }
    }
    match f {
        Function::SequentialWithKPC => true,
        Function::SequentialWithKPCWithFallocate => size_ok,
        Function::SequentialDirect => offsets_ok,
        Function::SequentialDirectWithFallocate => size_ok,
        Function::SequentialDirectDoubleWrites => offsets_ok,
        Function::RandomDirect => modulus_ok,
        Function::RandomDirectWithFallocate => size_ok && modulus_ok,
        Function::RandomDirectDoubleWrites => modulus_ok,
    }
}

/// Whether pattern `f` writes its blocks in a random order.
pub open spec fn is_random(f: Function) -> bool {
    f == Function::RandomDirect || f == Function::RandomDirectWithFallocate
        || f == Function::RandomDirectDoubleWrites
}

/// Timed direct writes of ones at each block of the file once, in a random
/// order, then an `fsync`; `None` when no random order can be drawn.
pub fn random_direct(num_blocks: usize) -> (r: Option<Vec<Step>>)
    requires
        plan_requires(Function::RandomDirect, num_blocks),
    ensures
        r matches Some(p) ==> exists|o: Seq<usize>| #[trigger] is_order_of(o, num_blocks) && o.len() == num_blocks
            && p@ == plan_of(Function::RandomDirect, 0, num_blocks, o, seq![]),
{
    match random_order(num_blocks) {
        Some(order) => {
            let r = random_direct_in_order(num_blocks, &order);
            assert(is_order_of(order@, num_blocks));
            Some(r)
        },
        None => None,
    }
}

/// As `random_direct`, with the file preallocated and synced first.
pub fn random_direct_with_fallocate(flag: FallocateFlag, num_blocks: usize) -> (r: Option<Vec<Step>>)
    requires
        plan_requires(Function::RandomDirectWithFallocate, num_blocks),
    ensures
        r matches Some(p) ==> exists|o: Seq<usize>| #[trigger] is_order_of(o, num_blocks) && o.len() == num_blocks
            && p@ == plan_of(Function::RandomDirectWithFallocate, flag_bits(flag), num_blocks, o, seq![]),
        r matches Some(p) ==> p@.len() > 3 && p@[3] == (Step::Fallocate {
            mode: (match flag { FallocateFlag::NoFlag => 0i32, FallocateFlag::ZeroRange => 0x10i32, FallocateFlag::KeepSize => 0x01i32 }),
            len: (num_blocks * 4096) as i64,
        }),
{
    match random_order(num_blocks) {
        Some(order) => {
            let r = random_direct_with_fallocate_in_order(flag, num_blocks, &order);
            assert(is_order_of(order@, num_blocks));
            Some(r)
        },
        None => None,
    }
}

/// An untimed pass of direct writes of ones over each block once, in a
/// random order, then a timed pass of twos over each block once, in another
/// random order, then an `fsync`; `None` when no random order can be drawn.
pub fn random_direct_double_writes(num_blocks: usize) -> (r: Option<Vec<Step>>)
    requires
        plan_requires(Function::RandomDirectDoubleWrites, num_blocks),
    ensures
        r matches Some(p) ==> exists|o1: Seq<usize>, o2: Seq<usize>|
            #[trigger] is_order_of(o1, num_blocks) && #[trigger] is_order_of(o2, num_blocks)
            && o1.len() == num_blocks && o2.len() == num_blocks
            && p@ == plan_of(Function::RandomDirectDoubleWrites, 0, num_blocks, o1, o2),
{
    let first = match random_order(num_blocks) {
        Some(o) => o,
        None => return None,
    };
    let second = match random_order(num_blocks) {
        Some(o) => o,
        None => return None,
    };
    let r = random_direct_double_writes_in_order(num_blocks, &first, &second);
    assert(is_order_of(first@, num_blocks) && is_order_of(second@, num_blocks));
    Some(r)
}

/// The steps of pattern `function` on a file of `num_blocks` blocks, with the
/// given `fallocate` mode where it preallocates. The random patterns draw
/// their orders from a generator seeded by the operating system, and give
/// `None` when it gives no seed; the others always give their steps.
pub fn benchmark_plan(function: Function, flag: FallocateFlag, num_blocks: usize) -> (r: Option<Vec<Step>>)
    requires
        plan_requires(function, num_blocks),
    ensures
        !is_random(function) ==> r is Some,
        r matches Some(p) ==> exists|o1: Seq<usize>, o2: Seq<usize>|
            #[trigger] is_order_of(o1, num_blocks) && #[trigger] is_order_of(o2, num_blocks)
            && o1.len() == num_blocks && o2.len() == num_blocks
            && p@ == plan_of(function, flag_bits(flag), num_blocks, o1, o2),
        r matches Some(p) ==> (function == Function::SequentialWithKPCWithFallocate ==> p@.len() > 5 && p@[5] == (Step::Fallocate {
            mode: (match flag { FallocateFlag::NoFlag => 0i32, FallocateFlag::ZeroRange => 0x10i32, FallocateFlag::KeepSize => 0x01i32 }),
            len: (num_blocks * 4096) as i64,
        })),
        r matches Some(p) ==> ((function == Function::SequentialDirectWithFallocate
            || function == Function::RandomDirectWithFallocate) ==> p@.len() > 3 && p@[3] == (Step::Fallocate {
            mode: (match flag { FallocateFlag::NoFlag => 0i32, FallocateFlag::ZeroRange => 0x10i32, FallocateFlag::KeepSize => 0x01i32 }),
            len: (num_blocks * 4096) as i64,
        })),
{
    let ghost id = index_range(num_blocks);
    assert(is_order_of(id, num_blocks));
    match function {
        Function::SequentialWithKPC => Some(sequential_with_kpc(num_blocks)),
        Function::SequentialWithKPCWithFallocate => Some(sequential_with_kpc_with_fallocate(flag, num_blocks)),
        Function::SequentialDirect => Some(sequential_direct(num_blocks)),
        Function::SequentialDirectWithFallocate => Some(sequential_direct_with_fallocate(flag, num_blocks)),
        Function::SequentialDirectDoubleWrites => Some(sequential_direct_double_writes(num_blocks)),
        Function::RandomDirect => {
            let r = random_direct(num_blocks);
            if let Some(p) = &r {
                let ghost o = choose|o: Seq<usize>| #[trigger] is_order_of(o, num_blocks) && o.len() == num_blocks
                    && p@ == plan_of(Function::RandomDirect, 0, num_blocks, o, seq![]);
                assert(is_order_of(o, num_blocks) && is_order_of(id, num_blocks));
            }
            r
        },
        Function::RandomDirectWithFallocate => {
            let r = random_direct_with_fallocate(flag, num_blocks);
            if let Some(p) = &r {
                let ghost o = choose|o: Seq<usize>| #[trigger] is_order_of(o, num_blocks) && o.len() == num_blocks
                    && p@ == plan_of(Function::RandomDirectWithFallocate, flag_bits(flag), num_blocks, o, seq![]);
                assert(is_order_of(o, num_blocks) && is_order_of(id, num_blocks));
            }
            r
        },
        Function::RandomDirectDoubleWrites => random_direct_double_writes(num_blocks),
    }
}

} // verus!
