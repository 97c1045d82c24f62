use vstd::prelude::*;

verus! {

/// `p` names two distinct bodies of a collection of `n`.
pub open spec fn is_pair(n: nat, p: (usize, usize)) -> bool {
    p.0 < n && p.1 < n && p.0 != p.1
}

/// `p` comes before `q`: by first index, then by second.
pub open spec fn precedes(p: (usize, usize), q: (usize, usize)) -> bool {
    p.0 < q.0 || (p.0 == q.0 && p.1 < q.1)
}

/// Every entry of `s` comes before every later entry.
pub open spec fn strictly_ascending(s: Seq<(usize, usize)>) -> bool {
    forall|i: int, j: int| 0 <= i < j < s.len() ==> #[trigger] precedes(s[i], s[j])
}

/// Every ordered pair of distinct indices below `n`, each once, in ascending
/// order: all pairs with first index 0, then those with first index 1, and so
/// on. This is the visiting order of both all-pairs passes of a tick, the
/// contact pass and the gravitational pass; as a pass writes each result back
/// before it goes on, the order is part of what a tick computes.
pub fn ordered_pairs(n: usize) -> (r: Vec<(usize, usize)>)
    ensures
        forall|k: int| 0 <= k < r.len() ==> is_pair(n as nat, #[trigger] r@[k]),
        forall|p: (usize, usize)| is_pair(n as nat, p) ==> r@.contains(p),
        strictly_ascending(r@),
        r.len() == n * (n - 1),
{
    let mut r: Vec<(usize, usize)> = Vec::new();
    let mut a: usize = 0;
    while a < n
        invariant
            a <= n,
            forall|k: int| 0 <= k < r.len() ==> is_pair(n as nat, #[trigger] r@[k]) && r@[k].0 < a,
            forall|p: (usize, usize)| is_pair(n as nat, p) && p.0 < a ==> r@.contains(p),
            strictly_ascending(r@),
            r.len() == a * (n - 1),
        decreases n - a,
    {
        let mut b: usize = 0;
        while b < n
            invariant
                a < n,
                b <= n,
                forall|k: int|
                    0 <= k < r.len() ==> is_pair(n as nat, #[trigger] r@[k]) && precedes(
                        r@[k],
                        (a, b),
                    ),
                forall|p: (usize, usize)|
                    is_pair(n as nat, p) && precedes(p, (a, b)) ==> r@.contains(p),
                strictly_ascending(r@),
                r.len() == a * (n - 1) + b - (if a < b { 1int } else { 0int }),
            decreases n - b,
        {
            if a != b {
                let ghost before = r@;
                r.push((a, b));
                assert forall|p: (usize, usize)|
                    is_pair(n as nat, p) && precedes(p, (a, (b + 1) as usize)) implies r@.contains(
                    p,
                ) by {
                    if p == (a, b) {
                        assert(r@[before.len() as int] == p);
                    } else {
                        assert(before.contains(p));
                        let k = choose|k: int| 0 <= k < before.len() && before[k] == p;
                        assert(r@[k] == p);
                    }
                }
            }
            b += 1;
        }
        assert(a * (n - 1) + n - 1 == (a + 1) * (n - 1)) by (nonlinear_arith)
            requires n >= 1;
        a += 1;
    }
    r
}

} // verus!
