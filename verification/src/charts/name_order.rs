//! Ordering positions of a list by the names at them, stably.
use vstd::prelude::*;
use crate::text::{compare_text, lemma_lex_transitive, lex_lt, TextOrder};

verus! {

/// The name at position `i` comes before the one at `j`: it is smaller, or the
/// names are equal and `i` came first.
pub open spec fn name_before(names: Seq<&str>, i: int, j: int) -> bool {
    ||| lex_lt(names[i]@, names[j]@)
    ||| (names[i]@ == names[j]@ && i < j)
}

/// `order` lists every position of `names` once, by name, equal names in their
/// original order.
pub open spec fn ordered_by_name(names: Seq<&str>, order: Seq<usize>) -> bool {
    &&& order.len() == names.len()
    &&& forall|a: int| 0 <= a < order.len() ==> #[trigger] order[a] < names.len()
    &&& forall|p: int| 0 <= p < names.len() ==> #[trigger] holds_position(order, p)
    &&& forall|a: int, b: int| 0 <= a < b < order.len() ==> name_before(names, #[trigger] order[a] as int, #[trigger] order[b] as int)
}

/// `order` holds the position `p`.
pub open spec fn holds_position(order: Seq<usize>, p: int) -> bool {
    exists|a: int| 0 <= a < order.len() && order[a] == p
}

proof fn lemma_name_before_transitive(names: Seq<&str>, i: int, j: int, k: int)
    requires
        name_before(names, i, j),
        name_before(names, j, k),
    ensures
        name_before(names, i, k),
{
    if lex_lt(names[i]@, names[j]@) && lex_lt(names[j]@, names[k]@) {
        lemma_lex_transitive(names[i]@, names[j]@, names[k]@);
    }
}

/// Inserts position `i` into `res`, a sorted listing of positions before `i`,
/// after every position whose name does not come after the name at `i`.
fn insert_position(names: &Vec<&str>, res: &mut Vec<usize>, i: usize)
    requires
        i < names@.len(),
        forall|a: int| 0 <= a < old(res)@.len() ==> #[trigger] old(res)@[a] < i,
        forall|a: int, b: int| 0 <= a < b < old(res)@.len() ==> name_before(names@, #[trigger] old(res)@[a] as int, #[trigger] old(res)@[b] as int),
    ensures
        exists|p: int| 0 <= p <= old(res)@.len() && final(res)@ == old(res)@.insert(p, i),
        forall|a: int, b: int| 0 <= a < b < final(res)@.len() ==> name_before(names@, #[trigger] final(res)@[a] as int, #[trigger] final(res)@[b] as int),
{
    let name = names[i];
    let mut p: usize = 0;
    while p < res.len()
        invariant
            i < names@.len(),
            name@ == names@[i as int]@,
            *res == *old(res),
            0 <= p <= res@.len(),
            forall|a: int| 0 <= a < p ==> name_before(names@, #[trigger] res@[a] as int, i as int),
            forall|a: int| 0 <= a < res@.len() ==> #[trigger] res@[a] < i,
        ensures
            0 <= p <= res@.len(),
            *res == *old(res),
            forall|a: int| 0 <= a < p ==> name_before(names@, #[trigger] res@[a] as int, i as int),
            p < res@.len() ==> lex_lt(name@, names@[res@[p as int] as int]@),
        decreases res@.len() - p,
    {
        let r = res[p];
        let ord = compare_text(names[r], name);
        if ord == TextOrder::Greater {
            break;
        }
        proof {
            assert(name_before(names@, r as int, i as int));
        }
        p = p + 1;
    }
    let ghost old_res = res@;
    proof {
        if p < old_res.len() {
            let r = old_res[p as int];
            assert forall|b: int| p <= b < old_res.len() implies name_before(names@, i as int, #[trigger] old_res[b] as int) by {
                if b > p {
                    assert(name_before(names@, old_res[p as int] as int, old_res[b] as int));
                    if lex_lt(names@[r as int]@, names@[old_res[b] as int]@) {
                        lemma_lex_transitive(name@, names@[r as int]@, names@[old_res[b] as int]@);
                    }
                }
            }
        }
    }
    res.insert(p, i);
    proof {
        assert(res@ == old_res.insert(p as int, i));
        assert forall|a: int, b: int| 0 <= a < b < res@.len() implies name_before(names@, #[trigger] res@[a] as int, #[trigger] res@[b] as int) by {
            if b < p {
                assert(res@[a] == old_res[a] && res@[b] == old_res[b]);
            } else if b == p {
                assert(res@[a] == old_res[a]);
            } else if a == p {
                assert(res@[b] == old_res[b - 1]);
            } else if a < p {
                assert(res@[a] == old_res[a] && res@[b] == old_res[b - 1]);
                lemma_name_before_transitive(names@, old_res[a] as int, i as int, old_res[b - 1] as int);
            } else {
                assert(res@[a] == old_res[a - 1] && res@[b] == old_res[b - 1]);
            }
        }
    }
}

/// Every position of `names`, ordered by the name at it (equal names in their
/// original order).
pub fn order_by_name(names: &Vec<&str>) -> (res: Vec<usize>)
    ensures
        ordered_by_name(names@, res@),
{
    let mut res: Vec<usize> = Vec::new();
    let mut i: usize = 0;
    while i < names.len()
        invariant
            0 <= i <= names@.len(),
            res@.len() == i,
            forall|a: int| 0 <= a < res@.len() ==> #[trigger] res@[a] < i,
            forall|p: int| 0 <= p < i ==> #[trigger] holds_position(res@, p),
            forall|a: int, b: int| 0 <= a < b < res@.len() ==> name_before(names@, #[trigger] res@[a] as int, #[trigger] res@[b] as int),
        decreases names@.len() - i,
    {
        let ghost before = res@;
        insert_position(names, &mut res, i);
        proof {
            let p = choose|p: int| 0 <= p <= before.len() && res@ == before.insert(p, i);
            assert forall|a: int| 0 <= a < res@.len() implies #[trigger] res@[a] < i + 1 by {
                if a < p {
                    assert(res@[a] == before[a]);
                } else if a > p {
                    assert(res@[a] == before[a - 1]);
                }
            }
            assert forall|q: int| 0 <= q < i + 1 implies #[trigger] holds_position(res@, q) by {
                if q == i {
                    assert(res@[p] == i);
                } else {
                    assert(holds_position(before, q));
                    let a0 = choose|a: int| 0 <= a < before.len() && before[a] == q;
                    if a0 < p {
                        assert(res@[a0] == q);
                    } else {
                        assert(res@[a0 + 1] == q);
                    }
                }
            }
        }
        i = i + 1;
    }
    res
}

} // verus!
