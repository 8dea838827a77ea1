//! A stable descending sort of positions by integer keys.

use vstd::prelude::*;

verus! {

/// Position `j` is listed somewhere in `p`.
pub open spec fn lists(p: Seq<usize>, j: int) -> bool {
    exists|a: int| 0 <= a < p.len() && p[a] as int == j
}

/// `p` lists positions `0..keys.len()` each once, ordered by descending key,
/// positions with equal keys keeping their input order.
pub open spec fn is_stable_desc_order(p: Seq<usize>, keys: Seq<int>) -> bool {
    &&& p.len() == keys.len()
    &&& forall|a: int| 0 <= a < p.len() ==> #[trigger] p[a] < keys.len()
    &&& forall|j: int| 0 <= j < keys.len() ==> #[trigger] lists(p, j)
    &&& forall|a: int, b: int| #![trigger p[a], p[b]] 0 <= a < b < p.len() ==> p[a] != p[b]
    &&& forall|a: int, b: int|
        #![trigger p[a], p[b]]
        0 <= a < b < p.len() ==> keys[p[a] as int] >= keys[p[b] as int]
    &&& forall|a: int, b: int|
        #![trigger p[a], p[b]]
        0 <= a < b < p.len() && keys[p[a] as int] == keys[p[b] as int] ==> p[a] < p[b]
}

/// The keys as mathematical integers.
pub open spec fn int_keys(keys: Seq<i128>) -> Seq<int> {
    keys.map_values(|k: i128| k as int)
}

/// The positions of `keys`, ordered by descending key; equal keys keep
/// their input order.
pub fn stable_desc_order(keys: &Vec<i128>) -> (p: Vec<usize>)
    ensures
        is_stable_desc_order(p@, int_keys(keys@)),
{
    let ghost ks = int_keys(keys@);
    let mut p: Vec<usize> = Vec::new();
    let mut i: usize = 0;
    while i < keys.len()
        invariant
            ks == int_keys(keys@),
            i <= keys.len(),
            p.len() == i,
            forall|a: int| 0 <= a < p.len() ==> #[trigger] p@[a] < i,
            forall|j: int| 0 <= j < i ==> #[trigger] lists(p@, j),
            forall|a: int, b: int| #![trigger p@[a], p@[b]] 0 <= a < b < p.len() ==> p@[a] != p@[b],
            forall|a: int, b: int|
                #![trigger p@[a], p@[b]]
                0 <= a < b < p.len() ==> ks[p@[a] as int] >= ks[p@[b] as int],
            forall|a: int, b: int|
                #![trigger p@[a], p@[b]]
                0 <= a < b < p.len() && ks[p@[a] as int] == ks[p@[b] as int] ==> p@[a] < p@[b],
        decreases keys.len() - i,
    {
        let k = keys[i];
        let mut pos: usize = 0;
        while pos < p.len() && keys[p[pos]] >= k
            invariant
                ks == int_keys(keys@),
                i < keys.len(),
                k == keys@[i as int],
                pos <= p.len(),
                forall|a: int| 0 <= a < p.len() ==> #[trigger] p@[a] < i,
                forall|a: int| 0 <= a < pos ==> ks[#[trigger] p@[a] as int] >= ks[i as int],
            decreases p.len() - pos,
        {
            pos = pos + 1;
        }
        let ghost old_p = p@;
        p.insert(pos, i);
        assert forall|a: int| 0 <= a < p.len() implies #[trigger] p@[a] < i + 1 by {
            if a < pos {
                assert(p@[a] == old_p[a]);
            } else if a > pos {
                assert(p@[a] == old_p[a - 1]);
            }
        }
        assert forall|j: int| 0 <= j < i + 1 implies #[trigger] lists(p@, j) by {
            if j == i {
                assert(p@[pos as int] == i);
            } else {
                assert(lists(old_p, j));
                let a = choose|a: int| 0 <= a < old_p.len() && old_p[a] as int == j;
                if a < pos {
                    assert(p@[a] == old_p[a]);
                } else {
                    assert(p@[a + 1] == old_p[a]);
                }
            }
        }
        assert forall|a: int, b: int| #![trigger p@[a], p@[b]] 0 <= a < b < p.len() implies {
            &&& p@[a] != p@[b]
            &&& ks[p@[a] as int] >= ks[p@[b] as int]
            &&& (ks[p@[a] as int] == ks[p@[b] as int] ==> p@[a] < p@[b])
        } by {
            let oa = if a < pos { a } else { a - 1 };
            let ob = if b < pos { b } else { b - 1 };
            if a == pos {
                // the new position holds the largest index, and every later
                // position has a smaller key
                assert(p@[b] == old_p[ob]);
                assert(old_p[ob] < i);
                assert(ks[old_p[pos as int] as int] < ks[i as int]);
                if ob > pos {
                    assert(ks[old_p[pos as int] as int] >= ks[old_p[ob] as int]);
                }
            } else if b == pos {
                assert(p@[a] == old_p[oa]);
                assert(old_p[oa] < i);
                assert(ks[old_p[oa] as int] >= ks[i as int]);
            } else {
                assert(p@[a] == old_p[oa]);
                assert(p@[b] == old_p[ob]);
                assert(oa < ob);
            }
        }
        i = i + 1;
    }
    p
}

} // verus!
