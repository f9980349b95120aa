use vstd::prelude::*;
use crate::rng::Lcg64;

verus! {

/// Non-decreasing order over a sequence of timestamps.
pub open spec fn non_decreasing(s: Seq<i64>) -> bool {
    forall|i: int, j: int| #![trigger s[i], s[j]] 0 <= i <= j < s.len() ==> s[i] <= s[j]
}

/// Inserts `x` into an already sorted vector, keeping it sorted, and
/// reports the position it went to.
fn insert_sorted(v: &mut Vec<i64>, x: i64) -> (pos: usize)
    requires
        non_decreasing(old(v)@),
        old(v)@.len() < usize::MAX,
    ensures
        pos <= old(v)@.len(),
        final(v)@ == old(v)@.insert(pos as int, x),
        non_decreasing(final(v)@),
{
    let mut idx: usize = 0;
    while idx < v.len() && v[idx] <= x
        invariant
            0 <= idx <= v@.len(),
            non_decreasing(v@),
            v@ == old(v)@,
            forall|k: int| 0 <= k < idx ==> #[trigger] v@[k] <= x,
        decreases v@.len() - idx,
    {
        idx += 1;
    }
    proof {
        old(v)@.insert_ensures(idx as int, x);
    }
    v.insert(idx, x);
    proof {
        let pre = old(v)@;
        assert forall|i: int, j: int| #![trigger v@[i], v@[j]] 0 <= i <= j < v@.len() implies v@[i]
            <= v@[j] by {
            if j < idx {
                assert(v@[i] == pre[i] && v@[j] == pre[j]);
            } else if i < idx && j == idx {
                assert(v@[i] == pre[i] && v@[j] == x);
            } else if i < idx && j > idx {
                assert(v@[i] == pre[i] && v@[j] == pre[j - 1] && i <= j - 1);
            } else if i == idx && j > idx {
                assert(v@[i] == x && v@[j] == pre[j - 1] && idx <= j - 1 < pre.len());
                assert(pre[idx as int] <= pre[j - 1]);
            } else if i > idx {
                assert(v@[i] == pre[i - 1] && v@[j] == pre[j - 1]);
            }
        }
    }
    idx
}

/// After a sorted insertion, every element still lies inside the
/// original closed range, and the least element is still the first.
proof fn lemma_insert_keeps_bounds(prev: Seq<i64>, cur: Seq<i64>, pos: int, x: i64, lo: i64, hi: i64)
    requires
        0 <= pos <= prev.len(),
        cur == prev.insert(pos, x),
        non_decreasing(cur),
        forall|i: int| 0 <= i < prev.len() ==> lo <= #[trigger] prev[i] <= hi,
        lo <= x <= hi,
        prev.len() >= 1,
        prev[0] == lo,
    ensures
        cur.len() == prev.len() + 1,
        forall|i: int| 0 <= i < cur.len() ==> lo <= #[trigger] cur[i] <= hi,
        cur[0] == lo,
{
    prev.insert_ensures(pos, x);
    assert forall|i: int| 0 <= i < cur.len() implies lo <= #[trigger] cur[i] <= hi by {
        if i < pos {
            assert(cur[i] == prev[i]);
        } else if i == pos {
            assert(cur[i] == x);
        } else {
            assert(cur[i] == prev[i - 1]);
        }
    }
    if pos == 0 {
        assert(cur[0] == x && cur[1] == prev[0]);
        assert(cur[0] <= cur[1]);
    } else {
        assert(cur[0] == prev[0]);
    }
}

/// Appending an upper bound to a sorted sequence keeps it sorted.
proof fn lemma_push_upper_bound(prefix: Seq<i64>, cur: Seq<i64>, hi: i64)
    requires
        cur == prefix.push(hi),
        non_decreasing(prefix),
        forall|i: int| 0 <= i < prefix.len() ==> #[trigger] prefix[i] <= hi,
    ensures
        non_decreasing(cur),
{
    assert forall|i: int, j: int|
        #![trigger cur[i], cur[j]]
        0 <= i <= j < cur.len() implies cur[i] <= cur[j] by {
        if j < prefix.len() {
            assert(cur[i] == prefix[i] && cur[j] == prefix[j]);
        } else if i < prefix.len() {
            assert(cur[i] == prefix[i] && cur[j] == hi);
        }
    }
}

/// The timeline of one synthetic session: given the anchor `now`, a
/// duration window and a module count `n`, draws an elapsed duration
/// from the window and `n - 1` interior cut points inside the elapsed
/// interval, and returns the `n + 1` ordered boundaries
/// `t0 <= t1 <= ... <= tn` with `tn == now` and `now - t0` inside the
/// window. Module `i` occupies the interval between boundaries `i` and
/// `i + 1`.
#[verifier::rlimit(60)]
pub fn distribute_times(rng: &mut Lcg64, now: i64, min_dur: i64, max_dur: i64, n: usize) -> (r: Vec<
    i64,
>)
    requires
        1 <= n,
        0 <= min_dur <= max_dur,
        max_dur <= now,
        max_dur < i64::MAX,
    ensures
        r@.len() == n + 1,
        non_decreasing(r@),
        r@[n as int] == now,
        min_dur <= now - r@[0] <= max_dur,
        now - r@[0] == min_dur + crate::rng::lcg_next(old(rng).state) as int % (max_dur - min_dur
            + 1),
        final(rng).state == crate::rng::lcg_iter(old(rng).state, n as nat),
        forall|i: int| 0 <= i < r@.len() ==> r@[0] <= #[trigger] r@[i] <= now,
{
    let ghost s0 = rng.state;
    let span: u64 = (max_dur - min_dur) as u64;
    let draw: u64 = rng.below(span + 1);
    proof {
        assert(crate::rng::lcg_iter(s0, 0) == s0);
        assert(rng.state == crate::rng::lcg_iter(s0, 1));
    }
    let elapsed: i64 = min_dur + (draw as i64);
    let t0: i64 = now - elapsed;
    let mut bounds: Vec<i64> = Vec::new();
    bounds.push(t0);
    let mut made: usize = 0;
    while made < n - 1
        invariant
            made <= n - 1,
            0 <= elapsed,
            t0 == now - elapsed,
            0 <= t0 <= now,
            elapsed < i64::MAX,
            bounds@.len() == made + 1,
            non_decreasing(bounds@),
            forall|i: int| 0 <= i < bounds@.len() ==> t0 <= #[trigger] bounds@[i] <= now,
            bounds@[0] == t0,
            rng.state == crate::rng::lcg_iter(s0, (1 + made) as nat),
        decreases n - 1 - made,
    {
        let cut_draw: u64 = rng.below((elapsed as u64) + 1);
        proof {
            assert(rng.state == crate::rng::lcg_iter(s0, (2 + made) as nat));
        }
        let cut: i64 = t0 + (cut_draw as i64);
        let ghost prev = bounds@;
        let pos = insert_sorted(&mut bounds, cut);
        proof {
            lemma_insert_keeps_bounds(prev, bounds@, pos as int, cut, t0, now);
        }
        made += 1;
    }
    let ghost prefix = bounds@;
    bounds.push(now);
    proof {
        lemma_push_upper_bound(prefix, bounds@, now);
    }
    bounds
}

} // verus!
