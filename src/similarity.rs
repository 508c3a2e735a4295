//! Edit distance between fuzzy digests.
use vstd::prelude::*;

verus! {

pub open spec fn min3(x: int, y: int, z: int) -> int {
    if x <= y && x <= z {
        x
    } else if y <= z {
        y
    } else {
        z
    }
}

/// The least number of one-character insertions, deletions and substitutions
/// that turn `a` into `b`.
pub open spec fn edit_distance(a: Seq<char>, b: Seq<char>) -> int
    decreases a.len() + b.len(),
{
    if a.len() == 0 {
        b.len() as int
    } else if b.len() == 0 {
        a.len() as int
    } else {
        min3(
            edit_distance(a.drop_last(), b.drop_last()) + if a.last() == b.last() {
                0int
            } else {
                1int
            },
            edit_distance(a.drop_last(), b) + 1,
            edit_distance(a, b.drop_last()) + 1,
        )
    }
}

proof fn lemma_distance_bounds(a: Seq<char>, b: Seq<char>)
    ensures
        0 <= edit_distance(a, b),
        edit_distance(a, b) <= if a.len() >= b.len() { a.len() as int } else { b.len() as int },
    decreases a.len() + b.len(),
{
    if a.len() > 0 && b.len() > 0 {
        lemma_distance_bounds(a.drop_last(), b.drop_last());
        lemma_distance_bounds(a.drop_last(), b);
        lemma_distance_bounds(a, b.drop_last());
    }
}

fn succ(x: usize) -> (r: usize)
    ensures
        r == if x < usize::MAX { x + 1 } else { x as int },
{
    if x < usize::MAX {
        x + 1
    } else {
        x
    }
}

/// The edit distance between two texts.
pub fn distance(a: &str, b: &str) -> (r: usize)
    ensures
        r as int == edit_distance(a@, b@),
{
    let n = a.unicode_len();
    let m = b.unicode_len();
    let mut row: Vec<usize> = Vec::new();
    row.push(0);
    proof {
        assert(a@.take(0).len() == 0);
    }
    let mut j: usize = 0;
    while j < m
        invariant
            m == b@.len(),
            j <= m,
            row@.len() == j + 1,
            forall|k: int| 0 <= k <= j ==> #[trigger] row@[k] as int == edit_distance(
                a@.take(0),
                b@.take(k),
            ),
        decreases m - j,
    {
        j = j + 1;
        proof {
            assert(a@.take(0).len() == 0);
        }
        row.push(j);
    }
    let mut i: usize = 0;
    while i < n
        invariant
            n == a@.len(),
            m == b@.len(),
            i <= n,
            row@.len() == m + 1,
            forall|k: int| 0 <= k <= m ==> #[trigger] row@[k] as int == edit_distance(
                a@.take(i as int),
                b@.take(k),
            ),
        decreases n - i,
    {
        let ai = a.get_char(i);
        let mut next: Vec<usize> = Vec::new();
        next.push(i + 1);
        proof {
            assert(b@.take(0).len() == 0);
            assert(a@.take(i + 1).len() == i + 1);
        }
        let mut k: usize = 0;
        while k < m
            invariant
                n == a@.len(),
                m == b@.len(),
                i < n,
                ai == a@[i as int],
                k <= m,
                row@.len() == m + 1,
                next@.len() == k + 1,
                forall|t: int| 0 <= t <= m ==> #[trigger] row@[t] as int == edit_distance(
                    a@.take(i as int),
                    b@.take(t),
                ),
                forall|t: int| 0 <= t <= k ==> #[trigger] next@[t] as int == edit_distance(
                    a@.take(i + 1),
                    b@.take(t),
                ),
            decreases m - k,
        {
            k = k + 1;
            let bk = b.get_char(k - 1);
            let ghost x = a@.take(i + 1);
            let ghost y = b@.take(k as int);
            proof {
                assert(x.drop_last() =~= a@.take(i as int));
                assert(y.drop_last() =~= b@.take(k - 1));
                assert(x.last() == ai);
                assert(y.last() == bk);
                lemma_distance_bounds(a@.take(i as int), b@.take(k - 1));
                lemma_distance_bounds(a@.take(i as int), y);
                lemma_distance_bounds(x, b@.take(k - 1));
                lemma_distance_bounds(x, y);
            }
            let sub = if ai == bk { row[k - 1] } else { succ(row[k - 1]) };
            let del = succ(row[k]);
            let ins = succ(next[k - 1]);
            let mut best = sub;
            if del < best {
                best = del;
            }
            if ins < best {
                best = ins;
            }
            next.push(best);
        }
        row = next;
        i = i + 1;
    }
    proof {
        assert(a@.take(n as int) =~= a@);
        assert(b@.take(m as int) =~= b@);
    }
    row[m]
}

} // verus!
