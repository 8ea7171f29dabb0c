//! The order in which a directory's entries are visited: by file name,
//! byte by byte, so that a scan gives the same list every time.

use vstd::prelude::*;
use vstd::string::*;
use vstd::utf8::encode_utf8;

verus! {

/// Whether `a` comes before `b`, or equals it, in lexicographic byte order.
pub open spec fn lex_le(a: Seq<u8>, b: Seq<u8>) -> bool
    decreases a.len(),
{
    if a.len() == 0 {
        true
    } else if b.len() == 0 {
        false
    } else if a[0] != b[0] {
        a[0] < b[0]
    } else {
        lex_le(a.drop_first(), b.drop_first())
    }
}

/// Whether the name `a` sorts before the name `b` or equals it: the order
/// of their UTF-8 bytes.
pub open spec fn name_le(a: Seq<char>, b: Seq<char>) -> bool {
    lex_le(encode_utf8(a), encode_utf8(b))
}

/// Of two byte strings, one comes first.
pub proof fn lemma_lex_le_total(a: Seq<u8>, b: Seq<u8>)
    ensures
        lex_le(a, b) || lex_le(b, a),
    decreases a.len(),
{
    if a.len() > 0 && b.len() > 0 && a[0] == b[0] {
        lemma_lex_le_total(a.drop_first(), b.drop_first());
    }
}

/// The byte order is transitive.
pub proof fn lemma_lex_le_transitive(a: Seq<u8>, b: Seq<u8>, c: Seq<u8>)
    requires
        lex_le(a, b),
        lex_le(b, c),
    ensures
        lex_le(a, c),
    decreases a.len(),
{
    if a.len() > 0 && b.len() > 0 && c.len() > 0 && a[0] == b[0] && b[0] == c[0] {
        lemma_lex_le_transitive(a.drop_first(), b.drop_first(), c.drop_first());
    }
}

/// Compares two names by their bytes.
pub fn name_precedes_or_equals(a: &str, b: &str) -> (le: bool)
    ensures
        le == name_le(a@, b@),
{
    let x = a.as_bytes();
    let y = b.as_bytes();
    let mut i: usize = 0;
    assert(x@.skip(0) =~= x@ && y@.skip(0) =~= y@);
    while i < x.len() && i < y.len()
        invariant
            i <= x.len(),
            i <= y.len(),
            x@ == encode_utf8(a@),
            y@ == encode_utf8(b@),
            lex_le(x@, y@) == lex_le(x@.skip(i as int), y@.skip(i as int)),
        decreases x.len() - i,
    {
        if x[i] != y[i] {
            assert(x@.skip(i as int)[0] == x@[i as int] && y@.skip(i as int)[0] == y@[i as int]);
            return x[i] < y[i];
        }
        proof {
            assert(x@.skip(i as int).drop_first() =~= x@.skip(i + 1));
            assert(y@.skip(i as int).drop_first() =~= y@.skip(i + 1));
        }
        i += 1;
    }
    i == x.len()
}

/// Whether entry `i` is visited before entry `j`: its name comes first, or
/// the names are equal and it was listed first.
pub open spec fn visited_before(names: Seq<String>, i: int, j: int) -> bool {
    !name_le(names[j]@, names[i]@) || (name_le(names[i]@, names[j]@) && i < j)
}

/// Whether `order` lists the first `count` entries of `names`, each once,
/// in the order in which they are visited.
pub open spec fn is_visit_order(names: Seq<String>, order: Seq<usize>, count: nat) -> bool {
    &&& order.len() == count
    &&& forall|p: int| 0 <= p < order.len() ==> 0 <= #[trigger] order[p] < count
    &&& forall|p: int, q: int|
        0 <= p < q < order.len() ==> visited_before(
            names,
            #[trigger] order[p] as int,
            #[trigger] order[q] as int,
        )
}

/// The order in which the entries with the given names are visited: the
/// positions of the names, sorted by name; equal names keep their order.
pub fn scan_order(names: &[String]) -> (order: Vec<usize>)
    ensures
        is_visit_order(names@, order@, names@.len()),
{
    let mut order: Vec<usize> = Vec::new();
    let mut k: usize = 0;
    while k < names.len()
        invariant
            k <= names.len(),
            is_visit_order(names@, order@, k as nat),
        decreases names.len() - k,
    {
        let mut p: usize = order.len();
        while p > 0 && !name_precedes_or_equals(names[order[p - 1]].as_str(), names[k].as_str())
            invariant
                k < names.len(),
                p <= order.len(),
                is_visit_order(names@, order@, k as nat),
                forall|q: int|
                    p <= q < order.len() ==> !name_le(
                        names@[#[trigger] order@[q] as int]@,
                        names@[k as int]@,
                    ),
            decreases p,
        {
            p -= 1;
        }
        let ghost before = order@;
        order.insert(p, k);
        proof {
            let after = order@;
            assert(after.len() == k + 1);
            assert forall|a: int, b: int| 0 <= a < b < after.len() implies visited_before(
                names@,
                #[trigger] after[a] as int,
                #[trigger] after[b] as int,
            ) by {
                if b == p {
                    // every entry kept in front of the new one does not sort after it
                    lemma_front_stays_in_front(names@, before, k as int, p as int, a);
                } else if a == p {
                    assert(after[b] == before[b - 1]);
                } else {
                    let old_a = if a < p { a } else { a - 1 };
                    let old_b = if b < p { b } else { b - 1 };
                    assert(after[a] == before[old_a]);
                    assert(after[b] == before[old_b]);
                }
            }
            assert forall|q: int| 0 <= q < after.len() implies 0 <= #[trigger] after[q] < k + 1 by {
                if q < p {
                    assert(after[q] == before[q]);
                } else if q > p {
                    assert(after[q] == before[q - 1]);
                }
            }
        }
        k += 1;
    }
    order
}

/// Where the entry at position `p - 1` of a visit order does not sort
/// after the new entry `k`, none of the entries in front of it does.
proof fn lemma_front_stays_in_front(names: Seq<String>, order: Seq<usize>, k: int, p: int, a: int)
    requires
        0 <= k < names.len(),
        is_visit_order(names, order, k as nat),
        0 <= a < p <= order.len(),
        name_le(names[order[p - 1] as int]@, names[k]@),
    ensures
        visited_before(names, order[a] as int, k),
{
    let first = encode_utf8(names[order[a] as int]@);
    let last = encode_utf8(names[order[p - 1] as int]@);
    let new = encode_utf8(names[k]@);
    lemma_lex_le_total(first, last);
    if a < p - 1 {
        assert(visited_before(names, order[a] as int, order[p - 1] as int));
    }
    lemma_lex_le_transitive(first, last, new);
}

/// A visit order lists every entry exactly once.
pub proof fn lemma_visit_order_is_permutation(names: Seq<String>, order: Seq<usize>)
    requires
        is_visit_order(names, order, names.len()),
    ensures
        order.len() == names.len(),
        forall|p: int, q: int| 0 <= p < q < order.len() ==> order[p] != order[q],
        forall|p: int| 0 <= p < order.len() ==> 0 <= #[trigger] order[p] < names.len(),
{
    assert forall|p: int, q: int| 0 <= p < q < order.len() implies order[p] != order[q] by {
        assert(visited_before(names, order[p] as int, order[q] as int));
        let name = encode_utf8(names[order[p] as int]@);
        lemma_lex_le_total(name, name);
    }
}

/// Names are visited in ascending order.
pub proof fn lemma_visit_order_is_sorted(names: Seq<String>, order: Seq<usize>, p: int, q: int)
    requires
        is_visit_order(names, order, names.len()),
        0 <= p <= q < order.len(),
    ensures
        name_le(names[order[p] as int]@, names[order[q] as int]@),
{
    let first = encode_utf8(names[order[p] as int]@);
    let second = encode_utf8(names[order[q] as int]@);
    lemma_lex_le_total(first, second);
    if p < q {
        assert(visited_before(names, order[p] as int, order[q] as int));
    } else {
        lemma_lex_le_total(first, first);
    }
}

} // verus!
