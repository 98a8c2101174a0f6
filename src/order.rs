use vstd::prelude::*;

verus! {

/// Rank of a depth given as the bit pattern of a single-precision number: the
/// low 31 bits, negated when the sign bit is set. Two numbers that are not NaN
/// rank as they compare (positive and negative zero both rank 0); a NaN ranks
/// beyond the infinity of its sign.
pub open spec fn depth_rank_of(bits: u32) -> int {
    let magnitude = (bits % 0x8000_0000) as int;
    if bits >= 0x8000_0000 {
        -magnitude
    } else {
        magnitude
    }
}

/// Body `a` is drawn before body `b`: it is farther (lower rank), or as far
/// and earlier in the list.
pub open spec fn draws_before(ranks: Seq<i64>, a: int, b: int) -> bool {
    ranks[a] < ranks[b] || (ranks[a] == ranks[b] && a < b)
}

/// `order` lists body indices for `ranks`, each comparing `draws_before` the next.
pub open spec fn is_draw_order(ranks: Seq<i64>, order: Seq<usize>) -> bool {
    &&& order.len() == ranks.len()
    &&& forall|k: int| 0 <= k < order.len() ==> #[trigger] order[k] < ranks.len()
    &&& forall|k: int, l: int|
        0 <= k < l < order.len() ==> draws_before(
            ranks,
            #[trigger] order[k] as int,
            #[trigger] order[l] as int,
        )
}

/// The rank of `depth_rank_of`, computed.
pub fn depth_rank(bits: u32) -> (r: i64)
    ensures
        r == depth_rank_of(bits),
{
    let magnitude: i64 = (bits % 0x8000_0000) as i64;
    if bits >= 0x8000_0000 {
        -magnitude
    } else {
        magnitude
    }
}

/// The order in which to draw bodies of the given depth ranks, back to front:
/// most negative rank first, bodies of equal rank in the order they are listed.
/// Every body appears once.
pub fn draw_order(ranks: &Vec<i64>) -> (order: Vec<usize>)
    ensures
        is_draw_order(ranks@, order@),
        forall|i: int| 0 <= i < ranks@.len() ==> #[trigger] order@.contains(i as usize),
{
    let n = ranks.len();
    let mut order: Vec<usize> = Vec::new();
    let mut i: usize = 0;
    while i < n
        invariant
            n == ranks@.len(),
            i <= n,
            order@.len() == i,
            forall|k: int| 0 <= k < i ==> #[trigger] order@[k] < i,
            forall|k: int, l: int|
                0 <= k < l < i ==> draws_before(
                    ranks@,
                    #[trigger] order@[k] as int,
                    #[trigger] order@[l] as int,
                ),
            forall|m: int| 0 <= m < i ==> #[trigger] order@.contains(m as usize),
        decreases n - i,
    {
        let mut p: usize = 0;
        while p < i && ranks[order[p]] <= ranks[i]
            invariant
                n == ranks@.len(),
                i < n,
                p <= i,
                order@.len() == i,
                forall|k: int| 0 <= k < i ==> #[trigger] order@[k] < i,
                forall|k: int| 0 <= k < p ==> ranks@[#[trigger] order@[k] as int] <= ranks@[i as int],
            decreases i - p,
        {
            p = p + 1;
        }
        let ghost old_order = order@;
        order.insert(p, i);
        proof {
            old_order.insert_ensures(p as int, i);
            let new_order = order@;
            assert forall|k: int| 0 <= k < i + 1 implies #[trigger] new_order[k] < i + 1 by {
                if k > p {
                    assert(new_order[k] == old_order[k - 1]);
                }
            }
            assert forall|k: int, l: int| 0 <= k < l < i + 1 implies draws_before(
                ranks@,
                #[trigger] new_order[k] as int,
                #[trigger] new_order[l] as int,
            ) by {
                if l < p {
                } else if l == p {
                    assert(ranks@[old_order[k] as int] <= ranks@[i as int]);
                } else if k == p {
                    assert(new_order[l] == old_order[l - 1]);
                    if l - 1 > p {
                        assert(draws_before(ranks@, old_order[p as int] as int, old_order[l - 1] as int));
                    }
                } else if k < p {
                    assert(new_order[l] == old_order[l - 1]);
                } else {
                    assert(new_order[l] == old_order[l - 1]);
                    assert(new_order[k] == old_order[k - 1]);
                }
            }
            assert forall|m: int| 0 <= m < i + 1 implies #[trigger] new_order.contains(m as usize) by {
                if m == i {
                    assert(new_order[p as int] == m as usize);
                } else {
                    assert(old_order.contains(m as usize));
                    let t = choose|t: int| 0 <= t < old_order.len() && old_order[t] == m as usize;
                    if t < p {
                        assert(new_order[t] == m as usize);
                    } else {
                        assert(new_order[t + 1] == m as usize);
                    }
                }
            }
        }
        i = i + 1;
    }
    order
}

} // verus!
