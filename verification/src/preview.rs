//! Length-capped previews of findings lists.
//!
//! When more findings exist than the display cap allows, the shown sample
//! is drawn by a seeded uniform shuffle rather than path order, so repeated
//! runs do not always hide the same subset behind the trailing
//! "... N more" marker. The whole selection is a function of the list
//! length, the cap and the seed — `spec_sample_positions` — so a fixed
//! seed gives a reproducible preview, and the contracts pin the shown
//! lines to exactly the sampled positions.

use vstd::prelude::*;

use vstd::pervasive::VecAdditionalExecFns;

use crate::numfmt::{format_u64, spec_decimal};

verus! {

/// One step of the linear congruential generator that drives the sample
/// selection (Knuth's MMIX multiplier and increment).
pub open spec fn spec_lcg_next(s: u64) -> u64 {
    vstd::wrapping::u64_specs::wrapping_add(
        vstd::wrapping::u64_specs::wrapping_mul(s, 6364136223846793005),
        1442695040888963407,
    )
}

/// The generator state after `steps` advances from the seed.
pub open spec fn spec_lcg_iter(seed: u64, steps: nat) -> u64
    decreases steps,
{
    if steps == 0 {
        seed
    } else {
        spec_lcg_next(spec_lcg_iter(seed, (steps - 1) as nat))
    }
}

/// The position vector `0..n` after the first `k` swap steps of the
/// seeded partial shuffle: step `i` swaps position `i` with a position
/// drawn by the generator from the not-yet-fixed tail.
pub open spec fn spec_shuffled_positions(n: nat, k: nat, seed: u64) -> Seq<usize>
    decreases k,
{
    if k == 0 {
        Seq::new(n, |i: int| i as usize)
    } else {
        let prev = spec_shuffled_positions(n, (k - 1) as nat, seed);
        let i = k - 1;
        let state = spec_lcg_iter(seed, k);
        let span = n - i;
        let j = i + (state as int % span as int);
        prev.update(i as int, prev[j]).update(j, prev[i as int])
    }
}

/// The positions the seeded sample draws: the first `k` positions after
/// the partial shuffle.
pub open spec fn spec_sample_positions(n: nat, k: nat, seed: u64) -> Seq<usize> {
    spec_shuffled_positions(n, k, seed).take(k as int)
}

/// The partial shuffle permutes `0..n`: after any number of steps the
/// position vector still holds `n` values below `n`, pairwise distinct.
pub proof fn lemma_shuffled_positions_permute(n: nat, k: nat, seed: u64)
    requires
        k <= n,
        n <= usize::MAX,
    ensures
        spec_shuffled_positions(n, k, seed).len() == n,
        forall|p: int| 0 <= p < n ==> #[trigger] spec_shuffled_positions(n, k, seed)[p] < n,
        forall|p: int, q: int|
            0 <= p < q < n ==> spec_shuffled_positions(n, k, seed)[p] != spec_shuffled_positions(
                n,
                k,
                seed,
            )[q],
    decreases k,
{
    if k == 0 {
        let s = spec_shuffled_positions(n, 0, seed);
        assert forall|p: int, q: int| 0 <= p < q < n implies s[p] != s[q] by {
            assert(s[p] == p as usize && s[q] == q as usize);
        }
    } else {
        lemma_shuffled_positions_permute(n, (k - 1) as nat, seed);
        let prev = spec_shuffled_positions(n, (k - 1) as nat, seed);
        let s = spec_shuffled_positions(n, k, seed);
        let i = (k - 1) as int;
        let state = spec_lcg_iter(seed, k);
        let span = (n - (k - 1)) as int;
        let j = i + (state as int % span);
        assert(0 <= state as int % span < span);
        assert(0 <= j < n);
        assert forall|p: int| 0 <= p < n implies #[trigger] s[p] < n by {
            assert(s[p] == if p == j {
                prev[i]
            } else if p == i {
                prev[j]
            } else {
                prev[p]
            });
        }
        assert forall|p: int, q: int| 0 <= p < q < n implies s[p] != s[q] by {
            assert(s[p] == if p == j {
                prev[i]
            } else if p == i {
                prev[j]
            } else {
                prev[p]
            });
            assert(s[q] == if q == j {
                prev[i]
            } else if q == i {
                prev[j]
            } else {
                prev[q]
            });
        }
    }
}

/// The sample is a selection without replacement: `k` positions below
/// `n`, pairwise distinct, determined by `(n, k, seed)` alone.
pub proof fn lemma_sample_positions_valid(n: nat, k: nat, seed: u64)
    requires
        k <= n,
        n <= usize::MAX,
    ensures
        spec_sample_positions(n, k, seed).len() == k,
        forall|i: int| 0 <= i < k ==> #[trigger] spec_sample_positions(n, k, seed)[i] < n,
        forall|i: int, j: int|
            0 <= i < j < k ==> spec_sample_positions(n, k, seed)[i] != spec_sample_positions(
                n,
                k,
                seed,
            )[j],
{
    lemma_shuffled_positions_permute(n, k, seed);
}

/// Advances the generator.
fn lcg_next(s: u64) -> (r: u64)
    ensures
        r == spec_lcg_next(s),
{
    s.wrapping_mul(6364136223846793005).wrapping_add(1442695040888963407)
}

/// Draws `k` distinct positions out of `0..n`, uniformly without
/// replacement, by the seeded partial shuffle: the result is exactly
/// `spec_sample_positions(n, k, seed)`, so a fixed seed reproduces the
/// same selection.
pub fn sample_positions(n: usize, k: usize, seed: u64) -> (r: Vec<usize>)
    requires
        k <= n,
    ensures
        r@ == spec_sample_positions(n as nat, k as nat, seed),
        r@.len() == k,
        forall|i: int| 0 <= i < k ==> r@[i] < n,
        forall|i: int, j: int| 0 <= i < j < k ==> r@[i] != r@[j],
{
    proof {
        lemma_sample_positions_valid(n as nat, k as nat, seed);
    }
    let mut positions: Vec<usize> = Vec::new();
    for p in 0..n
        invariant
            positions@.len() == p,
            forall|i: int| 0 <= i < p ==> positions@[i] == i,
    {
        positions.push(p);
    }
    proof {
        assert(positions@ =~= spec_shuffled_positions(n as nat, 0, seed));
    }
    let mut state = seed;
    for i in 0..k
        invariant
            k <= n,
            positions@.len() == n,
            positions@ == spec_shuffled_positions(n as nat, i as nat, seed),
            state == spec_lcg_iter(seed, i as nat),
    {
        state = lcg_next(state);
        let span = n - i;
        let offset = (state % (span as u64)) as usize;
        let j = i + offset;
        let a = positions[i];
        let b = positions[j];
        let ghost before = positions@;
        positions.set(i, b);
        positions.set(j, a);
        proof {
            assert(state == spec_lcg_iter(seed, (i + 1) as nat));
            assert(offset as int == state as int % (span as int));
            assert(positions@ =~= spec_shuffled_positions(n as nat, (i + 1) as nat, seed));
        }
    }
    let mut r: Vec<usize> = Vec::new();
    for i in 0..k
        invariant
            k <= positions@.len(),
            positions@ == spec_shuffled_positions(n as nat, k as nat, seed),
            r@.len() == i,
            forall|p: int| 0 <= p < i ==> r@[p] == positions@[p],
    {
        r.push(positions[i]);
    }
    proof {
        assert(r@ =~= spec_sample_positions(n as nat, k as nat, seed));
    }
    r
}

/// The indentation prefix: `n` spaces.
pub open spec fn spec_indent(n: nat) -> Seq<char> {
    Seq::new(n, |i: int| ' ')
}

/// The truncation marker: "... ", the hidden count, " more".
pub open spec fn spec_more_marker(hidden: nat) -> Seq<char> {
    "... "@ + spec_decimal(hidden) + " more"@
}

/// A string of `n` spaces.
pub fn spaces(n: usize) -> (r: String)
    ensures
        r@ == spec_indent(n as nat),
{
    proof {
        reveal_strlit(" ");
    }
    let mut r = String::new();
    for i in 0..n
        invariant
            r@ =~= spec_indent(i as nat),
            " "@ == seq![' '],
    {
        r.append(" ");
        proof {
            assert(r@ =~= spec_indent(i as nat + 1));
        }
    }
    r
}

/// Renders the preview of a findings list under a display cap: with at
/// most `cap` findings, every finding is shown in order; with more, the
/// lines are exactly the findings at the seeded sample's positions —
/// `cap` distinct findings — followed by a marker naming how many stay
/// hidden. Every line carries the indentation prefix.
pub fn preview_lines(items: &Vec<String>, cap: usize, indent: usize, seed: u64) -> (r: Vec<String>)
    ensures
        items@.len() <= cap ==> r@.len() == items@.len() && (forall|i: int|
            0 <= i < r@.len() ==> r@[i]@ == spec_indent(indent as nat) + items@[i]@),
        items@.len() > cap ==> r@.len() == cap + 1 && (forall|i: int|
            #![trigger r@[i]]
            0 <= i < cap ==> r@[i]@ == spec_indent(indent as nat) + items@[spec_sample_positions(
                items@.len(),
                cap as nat,
                seed,
            )[i] as int]@) && r@[cap as int]@ == spec_indent(indent as nat) + spec_more_marker(
            (items@.len() - cap) as nat,
        ),
{
    let n = items.len();
    let mut r: Vec<String> = Vec::new();
    if n <= cap {
        for i in 0..n
            invariant
                n == items@.len(),
                r@.len() == i,
                forall|p: int|
                    0 <= p < i ==> r@[p]@ == spec_indent(indent as nat) + items@[p]@,
        {
            let line = spaces(indent).concat(items[i].as_str());
            r.push(line);
        }
        r
    } else {
        let chosen = sample_positions(n, cap, seed);
        let ghost sample = spec_sample_positions(n as nat, cap as nat, seed);
        for i in 0..cap
            invariant
                n == items@.len(),
                chosen@ == sample,
                sample == spec_sample_positions(n as nat, cap as nat, seed),
                chosen@.len() == cap,
                forall|p: int| 0 <= p < cap ==> chosen@[p] < n,
                r@.len() == i,
                forall|p: int|
                    #![trigger r@[p]]
                    0 <= p < i ==> r@[p]@ == spec_indent(indent as nat) + items@[sample[p] as int]@,
        {
            let line = spaces(indent).concat(items[chosen[i]].as_str());
            r.push(line);
        }
        let hidden = (n - cap) as u64;
        let mut marker = spaces(indent);
        marker.append("... ");
        let count = format_u64(hidden);
        marker.append(count.as_str());
        marker.append(" more");
        proof {
            assert(marker@ =~= spec_indent(indent as nat) + spec_more_marker((n - cap) as nat));
        }
        let ghost shown = r@;
        r.push(marker);
        proof {
            assert forall|i: int|
                #![trigger r@[i]]
                0 <= i < cap implies r@[i]@ == spec_indent(indent as nat) + items@[sample[i] as int]@ by {
                assert(r@[i] == shown[i]);
            }
        }
        r
    }
}

} // verus!
