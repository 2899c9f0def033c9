use vstd::prelude::*;
use crate::dirtybits::DirtyBits;

verus! {

/// The longest run of clean items a flush writes across rather than
/// splitting one write into two.
pub const MAXIMUM_GAP: usize = 16;

/// The greatest dirty index of `d` at or before `i`, or -1 if there is none.
pub open spec fn last_dirty_at_or_before(d: Seq<bool>, i: int) -> int
    decreases i + 1,
{
    if i < 0 {
        -1
    } else if d[i] {
        i
    } else {
        last_dirty_at_or_before(d, i - 1)
    }
}

/// `runs` are the dirty indices of `dirty` below `n`, coalesced into
/// (first, last) spans, in order: each starts and ends at a dirty index;
/// every index inside one lies at most `MAXIMUM_GAP` after a dirty index;
/// consecutive spans are separated by more than `MAXIMUM_GAP` clean indices;
/// every index below `n` outside the spans is clean.
pub open spec fn is_coalesced(dirty: Seq<bool>, n: int, runs: Seq<(usize, usize)>) -> bool {
    &&& forall|k: int|
        0 <= k < runs.len() ==> {
            &&& (#[trigger] runs[k]).0 <= runs[k].1 < n
            &&& dirty[runs[k].0 as int]
            &&& dirty[runs[k].1 as int]
        }
    &&& forall|k: int|
        0 <= k < runs.len() - 1 ==> (#[trigger] runs[k + 1]).0 - runs[k].1 > MAXIMUM_GAP + 1
    &&& forall|k: int, x: int|
        #![trigger runs[k], last_dirty_at_or_before(dirty, x)]
        0 <= k < runs.len() && runs[k].0 < x < runs[k].1 ==> x - last_dirty_at_or_before(dirty, x)
            <= MAXIMUM_GAP
    &&& forall|x: int| 0 <= x < n && (runs.len() == 0 || x < runs[0].0) ==> !#[trigger] dirty[x]
    &&& forall|k: int, x: int|
        #![trigger runs[k], dirty[x]]
        0 <= k < runs.len() - 1 && runs[k].1 < x < runs[k + 1].0 ==> !dirty[x]
    &&& forall|x: int| 0 < runs.len() && runs.last().1 < x < n ==> !#[trigger] dirty[x]
}

/// What holds after scanning the indices below `i`, with `runs` closed and,
/// when `is_in`, a span from `start` to `end` still open, followed by `gap`
/// clean indices.
#[verifier::opaque]
spec fn scan_inv(
    d: Seq<bool>,
    n: int,
    i: int,
    runs: Seq<(usize, usize)>,
    is_in: bool,
    start: int,
    end: int,
    gap: int,
) -> bool {
    let frontier = if is_in {
        start
    } else {
        i
    };
    &&& 0 <= i <= n <= d.len()
    &&& forall|k: int|
        0 <= k < runs.len() ==> {
            &&& (#[trigger] runs[k]).0 <= runs[k].1 < i
            &&& runs[k].1 < frontier
            &&& d[runs[k].0 as int]
            &&& d[runs[k].1 as int]
        }
    &&& forall|k: int|
        0 <= k < runs.len() - 1 ==> (#[trigger] runs[k + 1]).0 - runs[k].1 > MAXIMUM_GAP + 1
    &&& forall|k: int, x: int|
        #![trigger runs[k], last_dirty_at_or_before(d, x)]
        0 <= k < runs.len() && runs[k].0 < x < runs[k].1 ==> x - last_dirty_at_or_before(d, x)
            <= MAXIMUM_GAP
    &&& forall|x: int| 0 <= x < frontier && (runs.len() == 0 || x < runs[0].0) ==> !#[trigger] d[x]
    &&& forall|k: int, x: int|
        #![trigger runs[k], d[x]]
        0 <= k < runs.len() - 1 && runs[k].1 < x < runs[k + 1].0 ==> !d[x]
    &&& forall|x: int| 0 < runs.len() && runs.last().1 < x < frontier ==> !#[trigger] d[x]
    &&& is_in ==> 0 <= start <= end < i && d[start] && d[end] && gap == i - 1 - end && gap
        <= MAXIMUM_GAP
    &&& is_in ==> forall|x: int| end <= x < i ==> #[trigger] last_dirty_at_or_before(d, x) == end
    &&& is_in ==> forall|x: int|
        start < x < end ==> x - #[trigger] last_dirty_at_or_before(d, x) <= MAXIMUM_GAP
    &&& is_in && runs.len() > 0 ==> start - runs.last().1 > MAXIMUM_GAP + 1
    &&& !is_in && runs.len() > 0 ==> i - runs.last().1 > MAXIMUM_GAP + 1
}

proof fn lemma_scan_init(d: Seq<bool>, n: int)
    requires
        0 <= n <= d.len(),
    ensures
        scan_inv(d, n, 0, Seq::empty(), false, 0, 0, 0),
{
    reveal(scan_inv);
}

proof fn lemma_scan_dirty(
    d: Seq<bool>,
    n: int,
    i: int,
    runs: Seq<(usize, usize)>,
    is_in: bool,
    start: int,
    end: int,
    gap: int,
)
    requires
        scan_inv(d, n, i, runs, is_in, start, end, gap),
        i < n,
        d[i],
    ensures
        scan_inv(d, n, i + 1, runs, true, if is_in { start } else { i }, i, 0),
{
    reveal(scan_inv);
    reveal_with_fuel(last_dirty_at_or_before, 2);
    if is_in {
        assert forall|x: int| start < x < i implies x - #[trigger] last_dirty_at_or_before(d, x)
            <= MAXIMUM_GAP by {
            if x >= end {
                assert(last_dirty_at_or_before(d, x) == end);
            }
        }
    }
    assert forall|x: int| i <= x < i + 1 implies #[trigger] last_dirty_at_or_before(d, x) == i by {
    }
}

proof fn lemma_scan_clean_bridged(
    d: Seq<bool>,
    n: int,
    i: int,
    runs: Seq<(usize, usize)>,
    start: int,
    end: int,
    gap: int,
)
    requires
        scan_inv(d, n, i, runs, true, start, end, gap),
        i < n,
        !d[i],
        gap < MAXIMUM_GAP,
    ensures
        scan_inv(d, n, i + 1, runs, true, start, end, gap + 1),
{
    reveal(scan_inv);
    assert forall|x: int| end <= x < i + 1 implies #[trigger] last_dirty_at_or_before(d, x)
        == end by {
        if x == i {
            assert(last_dirty_at_or_before(d, i) == last_dirty_at_or_before(d, i - 1));
        }
    }
}

proof fn lemma_scan_clean_outside(
    d: Seq<bool>,
    n: int,
    i: int,
    runs: Seq<(usize, usize)>,
    start: int,
    end: int,
    gap: int,
)
    requires
        scan_inv(d, n, i, runs, false, start, end, gap),
        i < n,
        !d[i],
    ensures
        scan_inv(d, n, i + 1, runs, false, start, end, gap),
{
    reveal(scan_inv);
}

/// The open span, appended to the closed ones, satisfies what each closed
/// span does.
proof fn lemma_scan_push(
    d: Seq<bool>,
    n: int,
    i: int,
    runs: Seq<(usize, usize)>,
    start: usize,
    end: usize,
    gap: int,
)
    requires
        scan_inv(d, n, i, runs, true, start as int, end as int, gap),
    ensures
        ({
            let r2 = runs.push((start, end));
            &&& forall|k: int|
                0 <= k < r2.len() ==> {
                    &&& (#[trigger] r2[k]).0 <= r2[k].1 < i
                    &&& d[r2[k].0 as int]
                    &&& d[r2[k].1 as int]
                }
            &&& forall|k: int|
                0 <= k < r2.len() - 1 ==> (#[trigger] r2[k + 1]).0 - r2[k].1 > MAXIMUM_GAP + 1
            &&& forall|k: int, x: int|
                #![trigger r2[k], last_dirty_at_or_before(d, x)]
                0 <= k < r2.len() && r2[k].0 < x < r2[k].1 ==> x - last_dirty_at_or_before(d, x)
                    <= MAXIMUM_GAP
            &&& forall|x: int| 0 <= x < r2[0].0 ==> !#[trigger] d[x]
            &&& forall|k: int, x: int|
                #![trigger r2[k], d[x]]
                0 <= k < r2.len() - 1 && r2[k].1 < x < r2[k + 1].0 ==> !d[x]
            &&& forall|x: int| end < x < i ==> !#[trigger] d[x]
        }),
{
    reveal(scan_inv);
    let r2 = runs.push((start, end));
    assert(r2.last() == (start, end));
    assert forall|k: int| 0 <= k < r2.len() implies {
        &&& (#[trigger] r2[k]).0 <= r2[k].1 < i
        &&& d[r2[k].0 as int]
        &&& d[r2[k].1 as int]
    } by {
        if k < runs.len() {
            assert(r2[k] == runs[k]);
        }
    }
    assert forall|k: int| 0 <= k < r2.len() - 1 implies (#[trigger] r2[k + 1]).0 - r2[k].1
        > MAXIMUM_GAP + 1 by {
        assert(r2[k] == runs[k]);
        if k + 1 < runs.len() {
            assert(r2[k + 1] == runs[k + 1]);
        }
    }
    assert forall|k: int, x: int|
        #![trigger r2[k], last_dirty_at_or_before(d, x)]
        0 <= k < r2.len() && r2[k].0 < x < r2[k].1 implies x - last_dirty_at_or_before(d, x)
        <= MAXIMUM_GAP by {
        if k < runs.len() {
            assert(r2[k] == runs[k]);
        }
    }
    assert forall|x: int| 0 <= x < r2[0].0 implies !#[trigger] d[x] by {
        if runs.len() > 0 {
            assert(r2[0] == runs[0]);
        }
    }
    assert forall|k: int, x: int|
        #![trigger r2[k], d[x]]
        0 <= k < r2.len() - 1 && r2[k].1 < x < r2[k + 1].0 implies !d[x] by {
        assert(r2[k] == runs[k]);
        if k + 1 < runs.len() {
            assert(r2[k + 1] == runs[k + 1]);
        }
    }
    assert forall|x: int| end < x < i implies !#[trigger] d[x] by {
        assert(last_dirty_at_or_before(d, x) == end);
    }
}

proof fn lemma_scan_close(
    d: Seq<bool>,
    n: int,
    i: int,
    runs: Seq<(usize, usize)>,
    start: usize,
    end: usize,
    gap: int,
)
    requires
        scan_inv(d, n, i, runs, true, start as int, end as int, gap),
        i < n,
        !d[i],
        gap == MAXIMUM_GAP,
    ensures
        scan_inv(d, n, i + 1, runs.push((start, end)), false, start as int, end as int, gap),
{
    lemma_scan_push(d, n, i, runs, start, end, gap);
    reveal(scan_inv);
    let r2 = runs.push((start, end));
    assert(r2.last() == (start, end));
}

proof fn lemma_scan_done(
    d: Seq<bool>,
    n: int,
    runs: Seq<(usize, usize)>,
    is_in: bool,
    start: usize,
    end: usize,
    gap: int,
)
    requires
        scan_inv(d, n, n, runs, is_in, start as int, end as int, gap),
    ensures
        is_in ==> is_coalesced(d, n, runs.push((start, end))),
        !is_in ==> is_coalesced(d, n, runs),
{
    if is_in {
        lemma_scan_push(d, n, n, runs, start, end, gap);
        let r2 = runs.push((start, end));
        assert(r2.last() == (start, end));
    }
    reveal(scan_inv);
}

/// Skipping clean indices leaves the nearest dirty index unchanged.
proof fn lemma_last_dirty_skip(d: Seq<bool>, a: int, x: int)
    requires
        0 <= a <= x < d.len(),
        forall|j: int| a < j <= x ==> !#[trigger] d[j],
    ensures
        last_dirty_at_or_before(d, x) == last_dirty_at_or_before(d, a),
    decreases x - a,
{
    if x > a {
        lemma_last_dirty_skip(d, a, x - 1);
    }
}

/// Two coalescings of one dirty set that agree on their first `k` spans
/// agree on the start of span `k`.
proof fn lemma_same_start(d: Seq<bool>, n: int, r1: Seq<(usize, usize)>, r2: Seq<(usize, usize)>, k: int)
    requires
        n <= d.len(),
        is_coalesced(d, n, r1),
        is_coalesced(d, n, r2),
        0 <= k < r1.len(),
        k < r2.len(),
        forall|j: int| 0 <= j < k ==> r1[j] == r2[j],
    ensures
        r1[k].0 >= r2[k].0,
{
    let s1 = r1[k].0 as int;
    if s1 < r2[k].0 {
        assert(d[s1]);
        if k == 0 {
            assert(!d[s1]);
        } else {
            let km = k - 1;
            assert(r1[km + 1].0 - r1[km].1 > MAXIMUM_GAP + 1);
            assert(r1[km] == r2[km]);
            assert(r2[k - 1].1 < s1 < r2[k].0);
            assert(!d[s1]);
        }
    }
}

/// Two coalescings of one dirty set that agree on their first `k` spans
/// and on the start of span `k` agree on its end.
proof fn lemma_same_end(d: Seq<bool>, n: int, r1: Seq<(usize, usize)>, r2: Seq<(usize, usize)>, k: int)
    requires
        n <= d.len(),
        is_coalesced(d, n, r1),
        is_coalesced(d, n, r2),
        0 <= k < r1.len(),
        k < r2.len(),
        r1[k].0 == r2[k].0,
    ensures
        r1[k].1 >= r2[k].1,
{
    let e1 = r1[k].1 as int;
    let e2 = r2[k].1 as int;
    if e1 < e2 {
        assert(d[e2]);
        if k == r1.len() - 1 {
            assert(!d[e2]);
        } else {
            let next = r1[k + 1].0 as int;
            assert(next - e1 > MAXIMUM_GAP + 1);
            if e2 < next {
                assert(!d[e2]);
            } else {
                let x = e1 + MAXIMUM_GAP + 1;
                assert forall|j: int| e1 < j <= x implies !#[trigger] d[j] by {
                    assert(r1[k].1 < j < r1[k + 1].0);
                }
                lemma_last_dirty_skip(d, e1, x);
                assert(last_dirty_at_or_before(d, e1) == e1);
                assert(r2[k].0 < x < r2[k].1);
                assert(x - last_dirty_at_or_before(d, x) <= MAXIMUM_GAP);
            }
        }
    }
}

/// Two coalescings of one dirty set that agree on their first `k` spans
/// are equal.
proof fn lemma_unique_from(d: Seq<bool>, n: int, r1: Seq<(usize, usize)>, r2: Seq<(usize, usize)>, k: int)
    requires
        n <= d.len(),
        is_coalesced(d, n, r1),
        is_coalesced(d, n, r2),
        0 <= k <= r1.len(),
        k <= r2.len(),
        forall|j: int| 0 <= j < k ==> r1[j] == r2[j],
    ensures
        r1 == r2,
    decreases r1.len() - k,
{
    if k == r1.len() || k == r2.len() {
        if k < r2.len() {
            let s = r2[k].0 as int;
            assert(d[s]);
            if k > 0 {
                let km = k - 1;
                assert(r2[km + 1].0 - r2[km].1 > MAXIMUM_GAP + 1);
                assert(r1[km] == r2[km]);
                assert(r1.last() == r1[km]);
            }
            assert(!d[s]);
        }
        if k < r1.len() {
            let s = r1[k].0 as int;
            assert(d[s]);
            if k > 0 {
                let km = k - 1;
                assert(r1[km + 1].0 - r1[km].1 > MAXIMUM_GAP + 1);
                assert(r1[km] == r2[km]);
                assert(r2.last() == r2[km]);
            }
            assert(!d[s]);
        }
        assert(r1 =~= r2);
    } else {
        lemma_same_start(d, n, r1, r2, k);
        lemma_same_start(d, n, r2, r1, k);
        lemma_same_end(d, n, r1, r2, k);
        lemma_same_end(d, n, r2, r1, k);
        assert(r1[k] == r2[k]);
        lemma_unique_from(d, n, r1, r2, k + 1);
    }
}

/// The coalesced spans of a dirty set are determined by it: two sequences
/// of spans that both coalesce the dirty indices below `n` are equal.
pub proof fn lemma_coalesced_unique(d: Seq<bool>, n: int, r1: Seq<(usize, usize)>, r2: Seq<(usize, usize)>)
    requires
        n <= d.len(),
        is_coalesced(d, n, r1),
        is_coalesced(d, n, r2),
    ensures
        r1 == r2,
{
    lemma_unique_from(d, n, r1, r2, 0);
}

/// Coalesce the dirty flags of `bits` below `n` into (first, last) spans,
/// scanning once in index order: a span stays open across up to
/// `MAXIMUM_GAP` clean indices and closes at the next one.
pub fn coalesce_dirty(bits: &DirtyBits, n: usize) -> (runs: Vec<(usize, usize)>)
    requires
        n <= bits@.len(),
    ensures
        is_coalesced(bits@, n as int, runs@),
{
    let ghost d = bits@;
    let mut runs: Vec<(usize, usize)> = Vec::new();
    let mut is_in: bool = false;
    let mut start: usize = 0;
    let mut end: usize = 0;
    let mut gap: usize = 0;
    let mut i: usize = 0;
    proof {
        lemma_scan_init(d, n as int);
    }
    while i < n
        invariant
            d == bits@,
            i <= n,
            n <= d.len(),
            is_in ==> gap <= MAXIMUM_GAP,
            scan_inv(d, n as int, i as int, runs@, is_in, start as int, end as int, gap as int),
        decreases n - i,
    {
        if bits.get(i) {
            proof {
                lemma_scan_dirty(d, n as int, i as int, runs@, is_in, start as int, end as int, gap as int);
            }
            if !is_in {
                is_in = true;
                start = i;
            }
            gap = 0;
            end = i;
        } else if is_in {
            if gap < MAXIMUM_GAP {
                proof {
                    lemma_scan_clean_bridged(d, n as int, i as int, runs@, start as int, end as int, gap as int);
                }
                gap = gap + 1;
            } else {
                proof {
                    lemma_scan_close(d, n as int, i as int, runs@, start, end, gap as int);
                }
                runs.push((start, end));
                is_in = false;
            }
        } else {
            proof {
                lemma_scan_clean_outside(d, n as int, i as int, runs@, start as int, end as int, gap as int);
            }
        }
        i = i + 1;
    }
    proof {
        lemma_scan_done(d, n as int, runs@, is_in, start, end, gap as int);
    }
    if is_in {
        runs.push((start, end));
    }
    runs
}

} // verus!
