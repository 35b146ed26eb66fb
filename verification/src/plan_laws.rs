use vstd::prelude::*;
use crate::benchmark::{
    Function, Heading, Step, append_pass, buffered_head, buffered_tail, direct_head, direct_sync,
    block_start, plan_of, preallocate, random_block_start, random_pass, sequential_pass,
};
use crate::order::{is_order_of, index_range};

verus! {

/// Whether a step is one whose duration the benchmark records.
pub open spec fn is_timed(s: Step) -> bool {
    match s {
        Step::Append => true,
        Step::WriteAt { timed, .. } => timed,
        _ => false,
    }
}

/// The number of steps of `plan` whose duration is recorded: the number of
/// samples in the benchmark's histogram.
pub open spec fn timed_writes(plan: Seq<Step>) -> nat {
    plan.filter(|s: Step| is_timed(s)).len()
}

proof fn lemma_filter_all<A>(s: Seq<A>, p: spec_fn(A) -> bool)
    requires
        forall|i: int| 0 <= i < s.len() ==> p(#[trigger] s[i]),
    ensures
        s.filter(p) == s,
    decreases s.len(),
{
    reveal(Seq::filter);
    if s.len() > 0 {
        lemma_filter_all(s.drop_last(), p);
        assert(s.drop_last().push(s.last()) =~= s);
    } else {
        assert(s.filter(p) =~= s);
    }
}

proof fn lemma_filter_none<A>(s: Seq<A>, p: spec_fn(A) -> bool)
    requires
        forall|i: int| 0 <= i < s.len() ==> !p(#[trigger] s[i]),
    ensures
        s.filter(p).len() == 0,
    decreases s.len(),
{
    reveal(Seq::filter);
    if s.len() > 0 {
        lemma_filter_none(s.drop_last(), p);
    }
}

pub(crate) proof fn lemma_timed_concat(a: Seq<Step>, b: Seq<Step>)
    ensures
        timed_writes(a + b) == timed_writes(a) + timed_writes(b),
{
    let p = |s: Step| is_timed(s);
    Seq::filter_distributes_over_add(a, b, p);
}

proof fn lemma_timed_all(s: Seq<Step>)
    requires
        forall|i: int| 0 <= i < s.len() ==> is_timed(#[trigger] s[i]),
    ensures
        timed_writes(s) == s.len(),
{
    lemma_filter_all(s, |x: Step| is_timed(x));
}

proof fn lemma_timed_none(s: Seq<Step>)
    requires
        forall|i: int| 0 <= i < s.len() ==> !is_timed(#[trigger] s[i]),
    ensures
        timed_writes(s) == 0,
{
    lemma_filter_none(s, |x: Step| is_timed(x));
}

/// Each benchmark records the duration of exactly `n` block writes, one
/// per block of its file: the histogram it returns holds `n` samples.
pub proof fn law_one_sample_per_block(
    f: Function,
    mode: i32,
    n: usize,
    first: Seq<usize>,
    second: Seq<usize>,
)
    requires
        first.len() == n,
        second.len() == n,
    ensures
        timed_writes(plan_of(f, mode, n, first, second)) == n,
{
    let nn = n as nat;
    let bh = buffered_head();
    let bt = buffered_tail();
    let dh = direct_head(f);
    let pa = preallocate(mode, n);
    let ds = direct_sync();
    let after = seq![Step::ShowTable(Heading::AfterPwrite)];
    let first_end = seq![Step::ShowTable(Heading::AfterFirstPass), Step::Rewind];
    let first_end_random = seq![Step::ShowTable(Heading::AfterFirstPass)];
    let second_end = seq![Step::ShowTable(Heading::AfterSecondPass)];
    lemma_timed_none(bh);
    lemma_timed_none(bt);
    lemma_timed_none(dh);
    lemma_timed_none(pa);
    lemma_timed_none(ds);
    lemma_timed_none(after);
    lemma_timed_none(first_end);
    lemma_timed_none(first_end_random);
    lemma_timed_none(second_end);
    let ap = append_pass(nn);
    lemma_timed_all(ap);
    let s1 = sequential_pass(nn, 1, true);
    lemma_timed_all(s1);
    let s1u = sequential_pass(nn, 1, false);
    lemma_timed_none(s1u);
    let s2 = sequential_pass(nn, 2, true);
    lemma_timed_all(s2);
    let r1 = random_pass(first, n, 1, true);
    lemma_timed_all(r1);
    let r1u = random_pass(first, n, 1, false);
    lemma_timed_none(r1u);
    let r2 = random_pass(second, n, 2, true);
    lemma_timed_all(r2);
    match f {
        Function::SequentialWithKPC => {
            lemma_timed_concat(bh, ap);
            lemma_timed_concat(bh + ap, bt);
        },
        Function::SequentialWithKPCWithFallocate => {
            lemma_timed_concat(bh, pa);
            lemma_timed_concat(bh + pa, ap);
            lemma_timed_concat(bh + pa + ap, bt);
        },
        Function::SequentialDirect => {
            lemma_timed_concat(dh, s1);
            lemma_timed_concat(dh + s1, after);
            lemma_timed_concat(dh + s1 + after, ds);
        },
        Function::SequentialDirectWithFallocate => {
            lemma_timed_concat(dh, pa);
            lemma_timed_concat(dh + pa, ds);
            lemma_timed_concat(dh + pa + ds, s1);
            lemma_timed_concat(dh + pa + ds + s1, after);
            lemma_timed_concat(dh + pa + ds + s1 + after, ds);
        },
        Function::SequentialDirectDoubleWrites => {
            lemma_timed_concat(dh, s1u);
            lemma_timed_concat(dh + s1u, first_end);
            lemma_timed_concat(dh + s1u + first_end, s2);
            lemma_timed_concat(dh + s1u + first_end + s2, second_end);
            lemma_timed_concat(dh + s1u + first_end + s2 + second_end, ds);
        },
        Function::RandomDirect => {
            lemma_timed_concat(dh, r1);
            lemma_timed_concat(dh + r1, after);
            lemma_timed_concat(dh + r1 + after, ds);
        },
        Function::RandomDirectWithFallocate => {
            lemma_timed_concat(dh, pa);
            lemma_timed_concat(dh + pa, ds);
            lemma_timed_concat(dh + pa + ds, r1);
            lemma_timed_concat(dh + pa + ds + r1, after);
            lemma_timed_concat(dh + pa + ds + r1 + after, ds);
        },
        Function::RandomDirectDoubleWrites => {
            lemma_timed_concat(dh, r1u);
            lemma_timed_concat(dh + r1u, first_end_random);
            lemma_timed_concat(dh + r1u + first_end_random, r2);
            lemma_timed_concat(dh + r1u + first_end_random + r2, second_end);
            lemma_timed_concat(dh + r1u + first_end_random + r2 + second_end, ds);
        },
    }
}

/// Every benchmark ends by flushing its file to disk and then showing the
/// counter table once more.
pub proof fn law_ends_with_flush(f: Function, mode: i32, n: usize, first: Seq<usize>, second: Seq<usize>)
    ensures
        ({
            let p = plan_of(f, mode, n, first, second);
            &&& p.len() >= 2
            &&& p.last() == Step::ShowTable(Heading::AfterFsync)
            &&& (p[p.len() - 2] == Step::SyncAll || p[p.len() - 2] == Step::SyncFd)
        }),
{
    let p = plan_of(f, mode, n, first, second);
    let tail = match f {
        Function::SequentialWithKPC | Function::SequentialWithKPCWithFallocate => buffered_tail(),
        _ => direct_sync(),
    };
    let front = p.subrange(0, p.len() - tail.len());
    assert(p =~= front + tail) by {
        match f {
            Function::SequentialWithKPC | Function::SequentialWithKPCWithFallocate => {},
            _ => {},
        }
    }
}

proof fn lemma_map_values_multiset<A, B>(a: Seq<A>, b: Seq<A>, g: spec_fn(A) -> B)
    requires
        a.to_multiset() == b.to_multiset(),
    ensures
        a.map_values(g).to_multiset() == b.map_values(g).to_multiset(),
    decreases a.len(),
{
    broadcast use vstd::seq_lib::group_to_multiset_ensures;
    if a.len() == 0 {
        assert(a.to_multiset().len() == 0);
        assert(b.to_multiset().len() == b.len());
        assert(a.map_values(g) =~= Seq::<B>::empty());
        assert(b.map_values(g) =~= Seq::<B>::empty());
    } else {
        let x = a.last();
        let a1 = a.drop_last();
        assert(a =~= a1.push(x));
        assert(a.to_multiset().count(x) > 0);
        assert(b.contains(x));
        let j = choose|j: int| 0 <= j < b.len() && b[j] == x;
        let b1 = b.remove(j);
        assert(b1.to_multiset() =~= a1.to_multiset());
        lemma_map_values_multiset(a1, b1, g);
        let am = a.map_values(g);
        let bm = b.map_values(g);
        assert(am =~= a1.map_values(g).push(g(x)));
        assert(bm.remove(j) =~= b1.map_values(g));
        assert(bm[j] == g(x));
        assert(bm.to_multiset().count(g(x)) > 0);
        assert(bm.to_multiset() =~= bm.remove(j).to_multiset().insert(g(x)));
    }
}

/// A random pass over a file of `n` blocks, in an order that holds each
/// index below `n` once, writes the same blocks as the sequential pass, each
/// exactly once, only in another order (for `n` up to `u32::MAX`: the
/// benchmark takes indices modulo `n` as `u32`).
pub proof fn law_random_pass_reorders_blocks(order: Seq<usize>, n: usize, fill: u8, timed: bool)
    requires
        is_order_of(order, n),
        n <= u32::MAX,
    ensures
        random_pass(order, n, fill, timed).to_multiset()
            == sequential_pass(n as nat, fill, timed).to_multiset(),
{
    broadcast use vstd::seq_lib::group_to_multiset_ensures;
    let g = |r: usize| Step::WriteAt { offset: block_start(r as int), fill, timed };
    let ids = index_range(n);
    assert forall|k: int| 0 <= k < order.len() implies order[k] < n by {
        assert(order.contains(order[k]));
        assert(order.to_multiset().count(order[k]) > 0);
        assert(ids.contains(order[k]));
    }
    assert forall|k: int| 0 <= k < order.len() implies
        random_block_start(#[trigger] order[k], n) == block_start(order[k] as int) by {
        let r = order[k];
        assert((r as u32) as int == r as int);
        assert((n as u32) as int == n as int);
        let ru = r as u32;
        let nu = n as u32;
        assert(ru < nu);
        assert(ru % nu == ru) by (nonlinear_arith)
            requires
                ru < nu,
        ;
    }
    assert(random_pass(order, n, fill, timed) =~= order.map_values(g));
    assert(sequential_pass(n as nat, fill, timed) =~= ids.map_values(g));
    lemma_map_values_multiset(order, ids, g);
}

/// The buffered patterns: after creating the file (and, for the
/// preallocating one, preallocating `n` blocks with the given mode bits),
/// they append one block `n` times.
pub proof fn law_buffered_plan_shape(mode: i32, n: usize, first: Seq<usize>, second: Seq<usize>)
    ensures
        ({
            let p = plan_of(Function::SequentialWithKPC, mode, n, first, second);
            &&& p.len() == n + 8
            &&& p[1] == Step::Stamp
            &&& p[3] == Step::OpenBuffered
            &&& forall|j: int| 5 <= j < n + 5 ==> #[trigger] p[j] == Step::Append
        }),
        ({
            let p = plan_of(Function::SequentialWithKPCWithFallocate, mode, n, first, second);
            &&& p.len() == n + 10
            &&& p[3] == Step::OpenBuffered
            &&& p[5] == (Step::Fallocate { mode: mode, len: (n * 4096) as i64 })
            &&& forall|j: int| 7 <= j < n + 7 ==> #[trigger] p[j] == Step::Append
        }),
{
}

/// The sequential direct patterns: block `i` is written at byte offset
/// `i * 4096`, for `i` from 0 up to `n`, in that order; the preallocating one
/// first preallocates `n` blocks with the given mode bits and syncs, and the
/// double-write one writes all blocks with ones untimed, seeks back, and
/// writes them again with twos, timed.
pub proof fn law_sequential_plan_shape(mode: i32, n: usize, first: Seq<usize>, second: Seq<usize>)
    ensures
        ({
            let p = plan_of(Function::SequentialDirect, mode, n, first, second);
            &&& p.len() == n + 6
            &&& p[1] == Step::OpenDirect(Function::SequentialDirect)
            &&& forall|j: int| 3 <= j < n + 3 ==> #[trigger] p[j] == (Step::WriteAt { offset: ((j - 3) * 4096) as i64, fill: 1, timed: true })
            &&& p[n + 4int] == Step::SyncFd
        }),
        ({
            let p = plan_of(Function::SequentialDirectWithFallocate, mode, n, first, second);
            &&& p.len() == n + 10
            &&& p[1] == Step::OpenDirect(Function::SequentialDirectWithFallocate)
            &&& p[3] == (Step::Fallocate { mode: mode, len: (n * 4096) as i64 })
            &&& p[5] == Step::SyncFd
            &&& forall|j: int| 7 <= j < n + 7 ==> #[trigger] p[j] == (Step::WriteAt { offset: ((j - 7) * 4096) as i64, fill: 1, timed: true })
            &&& p[n + 8int] == Step::SyncFd
        }),
        ({
            let p = plan_of(Function::SequentialDirectDoubleWrites, mode, n, first, second);
            &&& p.len() == 2 * n + 8
            &&& p[1] == Step::OpenDirect(Function::SequentialDirectDoubleWrites)
            &&& forall|j: int| 3 <= j < n + 3 ==> #[trigger] p[j] == (Step::WriteAt { offset: ((j - 3) * 4096) as i64, fill: 1, timed: false })
            &&& p[n + 4int] == Step::Rewind
            &&& forall|j: int| n + 5 <= j < n + n + 5 ==> #[trigger] p[j] == (Step::WriteAt { offset: ((j - (n + 5)) * 4096) as i64, fill: 2, timed: true })
            &&& p[2 * n + 6int] == Step::SyncFd
        }),
{
}

/// The random direct patterns: the `k`-th write goes to block
/// `order[k] mod n` (both taken as `u32`), at byte offset 4096 times that
/// block, following `first` (and, for the second pass of the double writes,
/// `second`).
pub proof fn law_random_plan_shape(mode: i32, n: usize, first: Seq<usize>, second: Seq<usize>)
    ensures
        ({
            let p = plan_of(Function::RandomDirect, mode, n, first, second);
            &&& p.len() == first.len() + 6
            &&& p[1] == Step::OpenDirect(Function::RandomDirect)
            &&& forall|j: int| 3 <= j < first.len() + 3 ==> #[trigger] p[j] == (Step::WriteAt {
                offset: (((first[(j - 3)] as u32) % (n as u32)) as int * 4096) as i64, fill: 1, timed: true })
            &&& p[first.len() + 4int] == Step::SyncFd
        }),
        ({
            let p = plan_of(Function::RandomDirectWithFallocate, mode, n, first, second);
            &&& p.len() == first.len() + 10
            &&& p[1] == Step::OpenDirect(Function::RandomDirectWithFallocate)
            &&& p[3] == (Step::Fallocate { mode: mode, len: (n * 4096) as i64 })
            &&& p[5] == Step::SyncFd
            &&& forall|j: int| 7 <= j < first.len() + 7 ==> #[trigger] p[j] == (Step::WriteAt {
                offset: (((first[(j - 7)] as u32) % (n as u32)) as int * 4096) as i64, fill: 1, timed: true })
            &&& p[first.len() + 8int] == Step::SyncFd
        }),
        ({
            let p = plan_of(Function::RandomDirectDoubleWrites, mode, n, first, second);
            &&& p.len() == first.len() + second.len() + 7
            &&& p[1] == Step::OpenDirect(Function::RandomDirectDoubleWrites)
            &&& forall|j: int| 3 <= j < first.len() + 3 ==> #[trigger] p[j] == (Step::WriteAt {
                offset: (((first[(j - 3)] as u32) % (n as u32)) as int * 4096) as i64, fill: 1, timed: false })
            &&& forall|j: int| first.len() + 4 <= j < second.len() + first.len() + 4 ==> #[trigger] p[j] == (Step::WriteAt {
                offset: (((second[(j - (first.len() + 4))] as u32) % (n as u32)) as int * 4096) as i64, fill: 2, timed: true })
            &&& p[first.len() + second.len() + 5int] == Step::SyncFd
        }),
{
}

} // verus!
