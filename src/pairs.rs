use vstd::prelude::*;

verus! {

/// `a` comes strictly before `b` in row-major order.
pub open spec fn lex_lt(a: (usize, usize), b: (usize, usize)) -> bool {
    a.0 < b.0 || (a.0 == b.0 && a.1 < b.1)
}

/// An ordered pair of two distinct body indices below `n`.
pub open spec fn is_pair(n: nat, p: (usize, usize)) -> bool {
    p.0 < n && p.1 < n && p.0 != p.1
}

/// Every ordered pair `(i, j)` of distinct bodies among `n`, in row-major
/// order: the pull of body `j` on body `i` is accumulated in this order.
pub fn ordered_pairs(n: usize) -> (r: Vec<(usize, usize)>)
    ensures
        forall|k: int| 0 <= k < r@.len() ==> is_pair(n as nat, #[trigger] r@[k]),
        forall|a: int, b: int|
            0 <= a < b < r@.len() ==> lex_lt(#[trigger] r@[a], #[trigger] r@[b]),
        forall|i: usize, j: usize| is_pair(n as nat, (i, j)) ==> r@.contains((i, j)),
{
    let mut r: Vec<(usize, usize)> = Vec::new();
    let mut i: usize = 0;
    while i < n
        invariant
            i <= n,
            forall|k: int| 0 <= k < r@.len() ==> is_pair(n as nat, #[trigger] r@[k]),
            forall|a: int, b: int|
                0 <= a < b < r@.len() ==> lex_lt(#[trigger] r@[a], #[trigger] r@[b]),
            forall|k: int| 0 <= k < r@.len() ==> (#[trigger] r@[k]).0 < i,
            forall|a: usize, b: usize|
                is_pair(n as nat, (a, b)) && a < i ==> r@.contains((a, b)),
        decreases n - i,
    {
        let mut j: usize = 0;
        while j < n
            invariant
                i < n,
                j <= n,
                forall|k: int| 0 <= k < r@.len() ==> is_pair(n as nat, #[trigger] r@[k]),
                forall|a: int, b: int|
                    0 <= a < b < r@.len() ==> lex_lt(#[trigger] r@[a], #[trigger] r@[b]),
                forall|k: int| 0 <= k < r@.len() ==> lex_lt(#[trigger] r@[k], (i, j)),
                forall|a: usize, b: usize|
                    is_pair(n as nat, (a, b)) && (a < i || (a == i && b < j)) ==> r@.contains(
                        (a, b),
                    ),
            decreases n - j,
        {
            if i != j {
                let ghost prev = r@;
                r.push((i, j));
                assert forall|a: usize, b: usize|
                    is_pair(n as nat, (a, b)) && (a < i || (a == i && b < j + 1)) implies r@.contains(
                    (a, b),
                ) by {
                    if a < i || (a == i && b < j) {
                        let k = choose|k: int| 0 <= k < prev.len() && prev[k] == (a, b);
                        assert(r@[k] == (a, b));
                    } else {
                        assert(r@[prev.len() as int] == (a, b));
                    }
                }
            }
            j += 1;
        }
        i += 1;
    }
    r
}

/// No two positions `keys[x] == keys[y]`, `x < y`, where `(x, y)` comes
/// before `(a, b)` in row-major order.
pub open spec fn no_equal_pair_before(keys: Seq<(u64, u64)>, a: int, b: int) -> bool {
    forall|x: int, y: int|
        0 <= x < y < keys.len() && (x < a || (x == a && y < b)) ==> #[trigger] keys[x]
            != #[trigger] keys[y]
}

/// All positions differ from one another.
pub open spec fn all_distinct(keys: Seq<(u64, u64)>) -> bool {
    forall|x: int, y: int| 0 <= x < y < keys.len() ==> #[trigger] keys[x] != #[trigger] keys[y]
}

/// The first pair `(a, b)`, `a < b`, in row-major order, of bodies whose
/// positions coincide; `None` when all positions are distinct.
pub fn find_coincident(keys: &Vec<(u64, u64)>) -> (r: Option<(usize, usize)>)
    ensures
        r is None <==> all_distinct(keys@),
        r matches Some((a, b)) ==> a < b < keys@.len() && keys@[a as int] == keys@[b as int]
            && no_equal_pair_before(keys@, a as int, b as int),
{
    let n = keys.len();
    let mut i: usize = 0;
    while i < n
        invariant
            n == keys@.len(),
            i <= n,
            no_equal_pair_before(keys@, i as int, 0),
        decreases n - i,
    {
        let mut j: usize = i + 1;
        while j < n
            invariant
                n == keys@.len(),
                i < n,
                i < j <= n,
                no_equal_pair_before(keys@, i as int, j as int),
            decreases n - j,
        {
            if keys[i].0 == keys[j].0 && keys[i].1 == keys[j].1 {
                return Some((i, j));
            }
            j += 1;
        }
        i += 1;
    }
    None
}

} // verus!
