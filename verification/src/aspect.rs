use vstd::prelude::*;

verus! {

/// The major aspects: angular separations between two planets that a chart
/// reports.
#[derive(Clone, Copy, Debug, PartialEq, Eq, Structural)]
pub enum Aspect {
    Conjunction,
    Sextile,
    Square,
    Trine,
    Opposition,
}

/// The exact separation of an aspect, in degrees.
pub open spec fn exact_of(a: Aspect) -> int {
    match a {
        Aspect::Conjunction => 0,
        Aspect::Sextile => 60,
        Aspect::Square => 90,
        Aspect::Trine => 120,
        Aspect::Opposition => 180,
    }
}

/// The orb of an aspect, in degrees: how far a separation may be from the
/// exact one and still count as the aspect.
pub open spec fn orb_of(a: Aspect) -> int {
    match a {
        Aspect::Conjunction => 8,
        Aspect::Sextile => 6,
        Aspect::Square => 7,
        Aspect::Trine => 8,
        Aspect::Opposition => 8,
    }
}

/// The aspects in the order in which a separation is tested against them.
pub open spec fn aspect_order() -> Seq<Aspect> {
    seq![Aspect::Conjunction, Aspect::Sextile, Aspect::Square, Aspect::Trine, Aspect::Opposition]
}

/// Whether a separation of `d` degrees lies within the orb of `a`.
pub open spec fn within_orb(d: int, a: Aspect) -> bool {
    exact_of(a) - orb_of(a) <= d <= exact_of(a) + orb_of(a)
}

impl Aspect {
    /// The exact separation of this aspect, in degrees.
    pub fn exact_degrees(&self) -> (d: u16)
        ensures
            d == exact_of(*self),
    {
        match self {
            Aspect::Conjunction => 0,
            Aspect::Sextile => 60,
            Aspect::Square => 90,
            Aspect::Trine => 120,
            Aspect::Opposition => 180,
        }
    }

    /// The orb of this aspect, in degrees.
    pub fn orb(&self) -> (o: u16)
        ensures
            o == orb_of(*self),
    {
        match self {
            Aspect::Conjunction => 8,
            Aspect::Sextile => 6,
            Aspect::Square => 7,
            Aspect::Trine => 8,
            Aspect::Opposition => 8,
        }
    }
}

/// The aspects in the order in which a separation is tested against them:
/// conjunction, sextile, square, trine, opposition.
pub fn aspects_in_order() -> (aspects: Vec<Aspect>)
    ensures
        aspects@ == aspect_order(),
{
    let aspects = vec![
        Aspect::Conjunction,
        Aspect::Sextile,
        Aspect::Square,
        Aspect::Trine,
        Aspect::Opposition,
    ];
    assert(aspects@ =~= aspect_order());
    aspects
}

/// The orbs never overlap: a separation lies within the orb of at most one
/// aspect, so the order in which the aspects are tested does not change
/// which one is found. The test order is by increasing exact separation.
pub proof fn lemma_orbs_disjoint(d: int, a: Aspect, b: Aspect)
    ensures
        within_orb(d, a) && within_orb(d, b) ==> a == b,
        forall|i: int, j: int|
            0 <= i < j < aspect_order().len() ==> exact_of(aspect_order()[i]) + orb_of(
                aspect_order()[i],
            ) < exact_of(aspect_order()[j]) - orb_of(aspect_order()[j]),
{
}

/// The pairs `(i, j)` with `i < j` of row `i`, for `j` from `i + 1` up to
/// `n - 1`.
pub open spec fn pair_row(i: int, n: int) -> Seq<(usize, usize)> {
    if i + 1 < n {
        Seq::new((n - i - 1) as nat, |k: int| (i as usize, (i + 1 + k) as usize))
    } else {
        Seq::empty()
    }
}

/// The rows `0` to `i - 1` of the pairs of `n` items, one after the other.
pub open spec fn pairs_upto(i: int, n: int) -> Seq<(usize, usize)>
    decreases i,
{
    if i <= 0 {
        Seq::empty()
    } else {
        pairs_upto(i - 1, n) + pair_row(i - 1, n)
    }
}

/// Every pair of indices `(i, j)` with `i < j < n`, ordered by `i` and then
/// by `j`: the pairs of planets of an `n`-planet chart that are tested for
/// an aspect, each pair once.
pub fn aspect_pairs(n: usize) -> (pairs: Vec<(usize, usize)>)
    ensures
        pairs@ == pairs_upto(n as int, n as int),
{
    let mut pairs: Vec<(usize, usize)> = Vec::new();
    let mut i: usize = 0;
    while i < n
        invariant
            i <= n,
            pairs@ == pairs_upto(i as int, n as int),
        decreases n - i,
    {
        let mut j: usize = i + 1;
        while j < n
            invariant
                i < n,
                i + 1 <= j <= n,
                pairs@ == pairs_upto(i as int, n as int) + pair_row(i as int, n as int).take(
                    j - i - 1,
                ),
            decreases n - j,
        {
            pairs.push((i, j));
            proof {
                assert(pair_row(i as int, n as int).take(j - i) =~= pair_row(
                    i as int,
                    n as int,
                ).take(j - i - 1).push((i, j)));
            }
            j = j + 1;
        }
        proof {
            assert(pair_row(i as int, n as int).take(n - i - 1) =~= pair_row(i as int, n as int));
        }
        i = i + 1;
    }
    pairs
}

/// The pairs of `n` items are exactly the `(a, b)` with `a < b < n`, each
/// once, and there are `n * (n - 1) / 2` of them.
pub proof fn lemma_aspect_pairs_complete(n: usize)
    ensures
        forall|a: usize, b: usize|
            pairs_upto(n as int, n as int).contains((a, b)) <==> (a < b && b < n),
        forall|x: int, y: int|
            0 <= x < y < pairs_upto(n as int, n as int).len() ==> pairs_upto(n as int, n as int)[x]
                != pairs_upto(n as int, n as int)[y],
        2 * pairs_upto(n as int, n as int).len() == n * (n - 1),
{
    lemma_pairs_upto(n as int, n as int);
    assert(n * (2 * n - n - 1) == n * (n - 1)) by (nonlinear_arith);
}

proof fn lemma_pairs_upto(i: int, n: int)
    requires
        0 <= i <= n <= usize::MAX,
    ensures
        forall|a: usize, b: usize|
            pairs_upto(i, n).contains((a, b)) <==> (a < i && a < b && b < n),
        forall|x: int| 0 <= x < pairs_upto(i, n).len() ==> {
            let p = #[trigger] pairs_upto(i, n)[x];
            p.0 < i && p.0 < p.1 && p.1 < n
        },
        forall|x: int, y: int|
            0 <= x < y < pairs_upto(i, n).len() ==> ({
                let p = #[trigger] pairs_upto(i, n)[x];
                let q = #[trigger] pairs_upto(i, n)[y];
                p.0 < q.0 || (p.0 == q.0 && p.1 < q.1)
            }),
        2 * pairs_upto(i, n).len() == i * (2 * n - i - 1),
    decreases i,
{
    if i > 0 {
        lemma_pairs_upto(i - 1, n);
        let prev = pairs_upto(i - 1, n);
        let row = pair_row(i - 1, n);
        let all = pairs_upto(i, n);
        assert(all == prev + row);
        assert forall|a: usize, b: usize|
            all.contains((a, b)) <==> (a < i && a < b && b < n) by {
            if a < i && a < b && b < n {
                if a < i - 1 {
                    assert(prev.contains((a, b)));
                    let x = choose|x: int| 0 <= x < prev.len() && prev[x] == (a, b);
                    assert(all[x] == (a, b));
                } else {
                    let k = b - i;
                    assert(row[k] == (a, b));
                    assert(all[prev.len() + k] == (a, b));
                }
            }
            if all.contains((a, b)) {
                let x = choose|x: int| 0 <= x < all.len() && all[x] == (a, b);
                if x < prev.len() {
                    assert(prev[x] == (a, b));
                } else {
                    assert(row[x - prev.len()] == (a, b));
                }
            }
        }
        assert forall|x: int, y: int| 0 <= x < y < all.len() implies ({
            let p = #[trigger] all[x];
            let q = #[trigger] all[y];
            p.0 < q.0 || (p.0 == q.0 && p.1 < q.1)
        }) by {
            if y < prev.len() {
                assert(all[x] == prev[x] && all[y] == prev[y]);
            } else if x < prev.len() {
                assert(all[x] == prev[x]);
                assert(all[y] == row[y - prev.len()]);
            } else {
                assert(all[x] == row[x - prev.len()]);
                assert(all[y] == row[y - prev.len()]);
            }
        }
        assert forall|x: int| 0 <= x < all.len() implies ({
            let p = #[trigger] all[x];
            p.0 < i && p.0 < p.1 && p.1 < n
        }) by {
            if x < prev.len() {
                assert(all[x] == prev[x]);
            } else {
                assert(all[x] == row[x - prev.len()]);
            }
        }
        assert(row.len() == n - i);
        assert((i - 1) * (2 * n - (i - 1) - 1) + 2 * (n - i) == i * (2 * n - i - 1))
            by (nonlinear_arith);
    }
}

/// The exact separations are 0 degrees (conjunction), 60 (sextile), 90
/// (square), 120 (trine) and 180 (opposition), with orbs of 8, 6, 7, 8 and
/// 8 degrees; the aspects are tested from the smallest separation up.
pub proof fn lemma_aspect_table(a: Aspect)
    ensures
        exact_of(a) == match a {
            Aspect::Conjunction => 0int,
            Aspect::Sextile => 60,
            Aspect::Square => 90,
            Aspect::Trine => 120,
            Aspect::Opposition => 180,
        },
        orb_of(a) == match a {
            Aspect::Conjunction => 8int,
            Aspect::Sextile => 6,
            Aspect::Square => 7,
            Aspect::Trine => 8,
            Aspect::Opposition => 8,
        },
        aspect_order().len() == 5,
        aspect_order().contains(a),
        forall|i: int, j: int|
            0 <= i < j < 5 ==> exact_of(aspect_order()[i]) < exact_of(aspect_order()[j]),
{
    assert(aspect_order()[match a {
        Aspect::Conjunction => 0int,
        Aspect::Sextile => 1,
        Aspect::Square => 2,
        Aspect::Trine => 3,
        Aspect::Opposition => 4,
    }] == a);
}

} // verus!
