//! The iteration skeleton shared by the kernels: follow an orbit from a start
//! point, one step per iteration, and report the first iteration at which it
//! escapes or settles, if any does within the bound.

use vstd::prelude::*;

verus! {

/// Point `k` of `orbit` is a result of `step` on point `k - 1`.
pub open spec fn follows<Z, S: Fn(Z) -> Z>(step: S, orbit: Seq<Z>, k: int) -> bool {
    call_ensures(step, (orbit[k - 1],), orbit[k])
}

/// As `follows`, for a step that borrows the point.
pub open spec fn follows_borrowed<Z, S: Fn(&Z) -> Z>(step: S, orbit: Seq<Z>, k: int) -> bool {
    call_ensures(step, (&orbit[k - 1],), orbit[k])
}

/// The convergence test answered "no" on points `k - 1` and `k` of `orbit`.
pub open spec fn apart<Z, C: Fn(&Z, &Z) -> bool>(settled: C, orbit: Seq<Z>, k: int) -> bool {
    call_ensures(settled, (&orbit[k - 1], &orbit[k]), false)
}

/// `orbit` starts at `start` and each point is a result of `step` on the one
/// before it.
pub open spec fn is_orbit<Z, S: Fn(Z) -> Z>(step: S, start: Z, orbit: Seq<Z>) -> bool {
    &&& orbit.len() > 0
    &&& orbit[0] == start
    &&& forall|k: int| 1 <= k < orbit.len() ==> #[trigger] follows(step, orbit, k)
}

/// As `is_orbit`, for a step that borrows the point.
pub open spec fn is_borrowed_orbit<Z, S: Fn(&Z) -> Z>(step: S, start: Z, orbit: Seq<Z>) -> bool {
    &&& orbit.len() > 0
    &&& orbit[0] == start
    &&& forall|k: int| 1 <= k < orbit.len() ==> #[trigger] follows_borrowed(step, orbit, k)
}

/// The escape test answered "no" on each of the first `n` points of `orbit`.
pub open spec fn none_escaped<Z, E: Fn(&Z) -> bool>(escaped: E, orbit: Seq<Z>, n: int) -> bool {
    forall|k: int|
        #![trigger orbit[k]]
        0 <= k < n ==> call_ensures(escaped, (&orbit[k],), false)
}

/// The convergence test answered "no" on each of the first `n` pairs of
/// neighbouring points of `orbit`.
pub open spec fn none_settled<Z, C: Fn(&Z, &Z) -> bool>(settled: C, orbit: Seq<Z>, n: int) -> bool {
    forall|k: int| 1 <= k <= n ==> #[trigger] apart(settled, orbit, k)
}

/// Number of points on an orbit that runs out of iterations: the start and
/// one more for each iteration from 1 up to, but not including, the bound.
pub open spec fn exhausted_len(max_i: u8) -> int {
    if max_i == 0 {
        1
    } else {
        max_i as int
    }
}

/// What `first_escape` may return. `Some((i, z))` needs an orbit of `i`
/// points that ends in `z`, on which the test first says "yes" at `z`, with
/// `1 <= i < max_i`. `None` needs an orbit on which the test said "no" at
/// every iteration below the bound.
pub open spec fn spec_first_escape<Z, S: Fn(Z) -> Z, E: Fn(&Z) -> bool>(
    step: S,
    escaped: E,
    start: Z,
    max_i: u8,
    r: Option<(u8, Z)>,
) -> bool {
    exists|orbit: Seq<Z>| escape_witness(step, escaped, start, max_i, r, orbit)
}

/// `orbit` is an orbit that justifies the outcome `r` of `first_escape`.
pub open spec fn escape_witness<Z, S: Fn(Z) -> Z, E: Fn(&Z) -> bool>(
    step: S,
    escaped: E,
    start: Z,
    max_i: u8,
    r: Option<(u8, Z)>,
    orbit: Seq<Z>,
) -> bool {
    &&& is_orbit(step, start, orbit)
    &&& none_escaped(escaped, orbit, orbit.len() - 1)
    &&& match r {
        Some((i, z)) => {
            &&& 1 <= i < max_i
            &&& orbit.len() == i
            &&& orbit[i - 1] == z
            &&& call_ensures(escaped, (&z,), true)
        },
        None => orbit.len() == exhausted_len(max_i),
    }
}

/// What `first_settled` may return. `Some((i, z))` needs an orbit of `i + 1`
/// points whose last but one is `z`, on which the test first says "yes" for
/// `z` and its successor, with `1 <= i < max_i`. `None` needs an orbit on
/// which the test said "no" at every iteration below the bound.
pub open spec fn spec_first_settled<Z, S: Fn(&Z) -> Z, C: Fn(&Z, &Z) -> bool>(
    step: S,
    settled: C,
    start: Z,
    max_i: u8,
    r: Option<(u8, Z)>,
) -> bool {
    exists|orbit: Seq<Z>| settle_witness(step, settled, start, max_i, r, orbit)
}

/// `orbit` is an orbit that justifies the outcome `r` of `first_settled`.
pub open spec fn settle_witness<Z, S: Fn(&Z) -> Z, C: Fn(&Z, &Z) -> bool>(
    step: S,
    settled: C,
    start: Z,
    max_i: u8,
    r: Option<(u8, Z)>,
    orbit: Seq<Z>,
) -> bool {
    &&& is_borrowed_orbit(step, start, orbit)
    &&& match r {
        Some((i, z)) => {
            &&& 1 <= i < max_i
            &&& orbit.len() == i + 1
            &&& orbit[i - 1] == z
            &&& none_settled(settled, orbit, i - 1)
            &&& call_ensures(settled, (&z, &orbit[i as int]), true)
        },
        None => {
            &&& orbit.len() == exhausted_len(max_i)
            &&& none_settled(settled, orbit, orbit.len() - 1)
        },
    }
}

/// Follows the orbit of `start` under `step`, testing the current point at
/// each iteration `1, 2, ..` below `max_i` before stepping on. Returns the
/// first iteration at which the test holds, with the point it holds at, or
/// `None` when the bound is reached first.
pub fn first_escape<Z, S: Fn(Z) -> Z, E: Fn(&Z) -> bool>(
    start: Z,
    step: S,
    escaped: E,
    max_i: u8,
) -> (r: Option<(u8, Z)>)
    requires
        forall|z: Z| call_requires(step, (z,)),
        forall|z: &Z| call_requires(escaped, (z,)),
    ensures
        spec_first_escape(step, escaped, start, max_i, r),
{
    let ghost mut orbit: Seq<Z> = seq![start];
    let mut z = start;
    let mut i: u8 = 1;
    while i < max_i
        invariant
            1 <= i,
            i <= max_i || i == 1,
            forall|z: Z| call_requires(step, (z,)),
            forall|z: &Z| call_requires(escaped, (z,)),
            is_orbit(step, start, orbit),
            orbit.len() == i,
            orbit[i - 1] == z,
            none_escaped(escaped, orbit, i - 1),
        decreases max_i - i,
    {
        if escaped(&z) {
            proof {
                assert(escape_witness(step, escaped, start, max_i, Some((i, z)), orbit));
            }
            return Some((i, z));
        }
        let ghost before = orbit;
        let next = step(z);
        proof {
            orbit = before.push(next);
            assert forall|k: int| 1 <= k < orbit.len() implies #[trigger] follows(
                step,
                orbit,
                k,
            ) by {
                if k < before.len() {
                    assert(follows(step, before, k));
                }
            }
            assert forall|k: int| #![trigger orbit[k]] 0 <= k < i implies call_ensures(
                escaped,
                (&orbit[k],),
                false,
            ) by {
                if k < i - 1 {
                    assert(orbit[k] == before[k]);
                }
            }
        }
        z = next;
        i += 1;
    }
    proof {
        assert(escape_witness(step, escaped, start, max_i, None, orbit));
    }
    None
}

/// Follows the orbit of `start` under `step`, comparing the current point
/// with its successor at each iteration `1, 2, ..` below `max_i`. Returns the
/// first iteration at which the test holds, with the current point of that
/// iteration, or `None` when the bound is reached first.
pub fn first_settled<Z, S: Fn(&Z) -> Z, C: Fn(&Z, &Z) -> bool>(
    start: Z,
    step: S,
    settled: C,
    max_i: u8,
) -> (r: Option<(u8, Z)>)
    requires
        forall|z: &Z| call_requires(step, (z,)),
        forall|a: &Z, b: &Z| call_requires(settled, (a, b)),
    ensures
        spec_first_settled(step, settled, start, max_i, r),
{
    let ghost mut orbit: Seq<Z> = seq![start];
    let mut z = start;
    let mut i: u8 = 1;
    while i < max_i
        invariant
            1 <= i,
            i <= max_i || i == 1,
            forall|z: &Z| call_requires(step, (z,)),
            forall|a: &Z, b: &Z| call_requires(settled, (a, b)),
            is_borrowed_orbit(step, start, orbit),
            orbit.len() == i,
            orbit[i - 1] == z,
            none_settled(settled, orbit, i - 1),
        decreases max_i - i,
    {
        let ghost before = orbit;
        let next = step(&z);
        proof {
            orbit = before.push(next);
            assert forall|k: int| 1 <= k < orbit.len() implies #[trigger] follows_borrowed(
                step,
                orbit,
                k,
            ) by {
                if k < before.len() {
                    assert(follows_borrowed(step, before, k));
                }
            }
            assert forall|k: int| 1 <= k <= i - 1 implies #[trigger] apart(settled, orbit, k) by {
                assert(apart(settled, before, k));
            }
            assert(is_borrowed_orbit(step, start, orbit));
            assert(orbit[i - 1] == z && orbit[i as int] == next);
        }
        if settled(&z, &next) {
            proof {
                assert(settle_witness(step, settled, start, max_i, Some((i, z)), orbit));
            }
            return Some((i, z));
        }
        proof {
            assert forall|k: int| 1 <= k <= i implies #[trigger] apart(settled, orbit, k) by {
                if k < i {
                    assert(apart(settled, before, k));
                }
            }
        }
        z = next;
        i += 1;
    }
    proof {
        assert(settle_witness(step, settled, start, max_i, None, orbit));
    }
    None
}

/// `step` has at most one result on each point.
pub open spec fn single_valued_step<Z, S: Fn(Z) -> Z>(step: S) -> bool {
    forall|z: Z, a: Z, b: Z|
        #![trigger call_ensures(step, (z,), a), call_ensures(step, (z,), b)]
        call_ensures(step, (z,), a) && call_ensures(step, (z,), b) ==> a == b
}

/// `escaped` never answers both "yes" and "no" on one point.
pub open spec fn single_valued_test<Z, E: Fn(&Z) -> bool>(escaped: E) -> bool {
    forall|z: Z|
        #![trigger call_ensures(escaped, (&z,), true)]
        !(call_ensures(escaped, (&z,), true) && call_ensures(escaped, (&z,), false))
}

/// Two orbits of a single-valued step from one start agree wherever both are
/// defined.
pub proof fn lemma_orbits_agree<Z, S: Fn(Z) -> Z>(
    step: S,
    start: Z,
    first: Seq<Z>,
    second: Seq<Z>,
    k: int,
)
    requires
        single_valued_step(step),
        is_orbit(step, start, first),
        is_orbit(step, start, second),
        0 <= k < first.len(),
        k < second.len(),
    ensures
        first[k] == second[k],
    decreases k,
{
    if k > 0 {
        lemma_orbits_agree(step, start, first, second, k - 1);
        assert(follows(step, first, k));
        assert(follows(step, second, k));
    }
}

/// The escape loop is a function of its arguments: for a step and a test
/// that are single-valued, only one outcome meets its contract, so the same
/// start and bound always give the same iteration and point.
pub proof fn lemma_first_escape_unique<Z, S: Fn(Z) -> Z, E: Fn(&Z) -> bool>(
    step: S,
    escaped: E,
    start: Z,
    max_i: u8,
    first: Option<(u8, Z)>,
    second: Option<(u8, Z)>,
)
    requires
        single_valued_step(step),
        single_valued_test(escaped),
        spec_first_escape(step, escaped, start, max_i, first),
        spec_first_escape(step, escaped, start, max_i, second),
    ensures
        first == second,
{
    let a = choose|orbit: Seq<Z>| escape_witness(step, escaped, start, max_i, first, orbit);
    let b = choose|orbit: Seq<Z>| escape_witness(step, escaped, start, max_i, second, orbit);
    let last: int = if a.len() <= b.len() { a.len() - 1 } else { b.len() - 1 };
    lemma_orbits_agree(step, start, a, b, last);
    assert(a[last] == b[last]);
    if a.len() < b.len() {
        assert(call_ensures(escaped, (&b[last],), false));
    } else if b.len() < a.len() {
        assert(call_ensures(escaped, (&a[last],), false));
    }
}

/// `step` has at most one result on each borrowed point.
pub open spec fn single_valued_borrowed_step<Z, S: Fn(&Z) -> Z>(step: S) -> bool {
    forall|z: Z, a: Z, b: Z|
        #![trigger call_ensures(step, (&z,), a), call_ensures(step, (&z,), b)]
        call_ensures(step, (&z,), a) && call_ensures(step, (&z,), b) ==> a == b
}

/// `settled` never answers both "yes" and "no" on one pair of points.
pub open spec fn single_valued_pair_test<Z, C: Fn(&Z, &Z) -> bool>(settled: C) -> bool {
    forall|a: Z, b: Z|
        #![trigger call_ensures(settled, (&a, &b), true)]
        !(call_ensures(settled, (&a, &b), true) && call_ensures(settled, (&a, &b), false))
}

/// Two orbits of a single-valued borrowing step from one start agree wherever
/// both are defined.
pub proof fn lemma_borrowed_orbits_agree<Z, S: Fn(&Z) -> Z>(
    step: S,
    start: Z,
    first: Seq<Z>,
    second: Seq<Z>,
    k: int,
)
    requires
        single_valued_borrowed_step(step),
        is_borrowed_orbit(step, start, first),
        is_borrowed_orbit(step, start, second),
        0 <= k < first.len(),
        k < second.len(),
    ensures
        first[k] == second[k],
    decreases k,
{
    if k > 0 {
        lemma_borrowed_orbits_agree(step, start, first, second, k - 1);
        assert(follows_borrowed(step, first, k));
        assert(follows_borrowed(step, second, k));
    }
}

/// The convergence loop is a function of its arguments: for a step and a
/// test that are single-valued, only one outcome meets its contract.
pub proof fn lemma_first_settled_unique<Z, S: Fn(&Z) -> Z, C: Fn(&Z, &Z) -> bool>(
    step: S,
    settled: C,
    start: Z,
    max_i: u8,
    first: Option<(u8, Z)>,
    second: Option<(u8, Z)>,
)
    requires
        single_valued_borrowed_step(step),
        single_valued_pair_test(settled),
        spec_first_settled(step, settled, start, max_i, first),
        spec_first_settled(step, settled, start, max_i, second),
    ensures
        first == second,
{
    let a = choose|orbit: Seq<Z>| settle_witness(step, settled, start, max_i, first, orbit);
    let b = choose|orbit: Seq<Z>| settle_witness(step, settled, start, max_i, second, orbit);
    let last: int = if a.len() <= b.len() { a.len() - 1 } else { b.len() - 1 };
    lemma_borrowed_orbits_agree(step, start, a, b, last);
    if last >= 1 {
        lemma_borrowed_orbits_agree(step, start, a, b, last - 1);
        if a.len() < b.len() || (a.len() == b.len() && first is Some && second is None) {
            assert(apart(settled, b, last));
        } else if b.len() < a.len() || (a.len() == b.len() && first is None && second is Some) {
            assert(apart(settled, a, last));
        }
    }
}

} // verus!
