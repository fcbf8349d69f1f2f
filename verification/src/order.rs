//! Order: texts compared code point by code point, and lists of texts in
//! that order without repetition.
use vstd::prelude::*;

use crate::text;

verus! {

/// The order of texts by their first difference, code point by code point.
pub open spec fn text_before(a: Seq<char>, b: Seq<char>) -> bool
    decreases a.len(),
{
    if b.len() == 0 {
        false
    } else if a.len() == 0 {
        true
    } else if a[0] == b[0] {
        text_before(a.drop_first(), b.drop_first())
    } else {
        a[0] < b[0]
    }
}

/// Every text stands strictly before the next one.
pub open spec fn strictly_increasing(list: Seq<Seq<char>>) -> bool {
    forall|i: int, j: int|
        0 <= i < j < list.len() ==> text_before(#[trigger] list[i], #[trigger] list[j])
}

/// The list with `x` at its place, or the list itself if it holds `x`.
pub open spec fn insert_distinct(list: Seq<Seq<char>>, x: Seq<char>) -> Seq<Seq<char>>
    decreases list.len(),
{
    if list.len() == 0 {
        seq![x]
    } else if list[0] == x {
        list
    } else if text_before(list[0], x) {
        seq![list[0]] + insert_distinct(list.drop_first(), x)
    } else {
        seq![x] + list
    }
}

/// The texts of a list, each once, in increasing order.
pub open spec fn sorted_distinct(list: Seq<Seq<char>>) -> Seq<Seq<char>>
    decreases list.len(),
{
    if list.len() == 0 {
        Seq::empty()
    } else {
        insert_distinct(sorted_distinct(list.drop_last()), list.last())
    }
}

// ---------------------------------------------------------------------
// The order of texts
// ---------------------------------------------------------------------

/// No text stands before itself.
pub proof fn text_before_is_irreflexive(a: Seq<char>)
    ensures
        !text_before(a, a),
    decreases a.len(),
{
    if a.len() > 0 {
        text_before_is_irreflexive(a.drop_first());
    }
}

/// If `a` stands before `b` and `b` before `c`, then `a` stands before `c`.
pub proof fn text_before_is_transitive(a: Seq<char>, b: Seq<char>, c: Seq<char>)
    requires
        text_before(a, b),
        text_before(b, c),
    ensures
        text_before(a, c),
    decreases a.len(),
{
    if a.len() > 0 && b.len() > 0 && c.len() > 0 && a[0] == b[0] && b[0] == c[0] {
        text_before_is_transitive(a.drop_first(), b.drop_first(), c.drop_first());
    }
}

/// Of two different texts, one stands before the other.
pub proof fn text_before_is_total(a: Seq<char>, b: Seq<char>)
    ensures
        a == b || text_before(a, b) || text_before(b, a),
    decreases a.len(),
{
    if a.len() > 0 && b.len() > 0 && a[0] == b[0] {
        text_before_is_total(a.drop_first(), b.drop_first());
        if a.drop_first() == b.drop_first() {
            assert(a =~= seq![a[0]] + a.drop_first());
            assert(b =~= seq![b[0]] + b.drop_first());
        }
    } else if a.len() == 0 && b.len() == 0 {
        assert(a =~= b);
    }
}

/// Texts are ordered by the first character in which they differ, and a text
/// stands before every longer one that begins with it.
pub proof fn the_first_difference_decides(
    common: Seq<char>,
    x: char,
    a: Seq<char>,
    y: char,
    b: Seq<char>,
)
    ensures
        x < y ==> text_before(common + seq![x] + a, common + seq![y] + b),
        text_before(common, common + seq![y] + b),
        !text_before(common + seq![x] + a, common),
        x > y ==> !text_before(common + seq![x] + a, common + seq![y] + b),
    decreases common.len(),
{
    let l = common + seq![x] + a;
    let r = common + seq![y] + b;
    if common.len() > 0 {
        let rest = common.drop_first();
        the_first_difference_decides(rest, x, a, y, b);
        assert(l.drop_first() =~= rest + seq![x] + a);
        assert(r.drop_first() =~= rest + seq![y] + b);
        assert(l[0] == common[0] && r[0] == common[0]);
    } else {
        assert(l[0] == x && r[0] == y);
    }
}

/// Whether `a` stands before `b`.
pub fn comes_before(a: &str, b: &str) -> (r: bool)
    ensures
        r == text_before(a@, b@),
{
    let x = text::characters(a);
    let y = text::characters(b);
    let mut i: usize = 0;
    assert(a@.skip(0) =~= a@);
    assert(b@.skip(0) =~= b@);
    while i < x.len() && i < y.len() && x[i] == y[i]
        invariant
            x@ == a@,
            y@ == b@,
            i <= x.len(),
            i <= y.len(),
            text_before(a@, b@) == text_before(a@.skip(i as int), b@.skip(i as int)),
        decreases x.len() - i,
    {
        assert(a@.skip(i as int).drop_first() =~= a@.skip(i + 1));
        assert(b@.skip(i as int).drop_first() =~= b@.skip(i + 1));
        i = i + 1;
    }
    if i == y.len() {
        false
    } else if i == x.len() {
        true
    } else {
        x[i] < y[i]
    }
}

// ---------------------------------------------------------------------
// Lists without repetition
// ---------------------------------------------------------------------

/// What stands before `x` stays in front when `x` goes to its place.
proof fn lemma_insert_skips(list: Seq<Seq<char>>, x: Seq<char>, n: int)
    requires
        0 <= n <= list.len(),
        forall|i: int| 0 <= i < n ==> text_before(#[trigger] list[i], x),
    ensures
        insert_distinct(list, x) == list.take(n) + insert_distinct(list.skip(n), x),
    decreases n,
{
    if n == 0 {
        assert(list.skip(0) =~= list);
        assert(list.take(0) + insert_distinct(list, x) =~= insert_distinct(list, x));
    } else {
        text_before_is_irreflexive(x);
        assert(text_before(list[0], x));
        lemma_insert_skips(list.drop_first(), x, n - 1);
        assert(list.drop_first().skip(n - 1) =~= list.skip(n));
        assert(seq![list[0]] + list.drop_first().take(n - 1) =~= list.take(n));
        assert(seq![list[0]] + (list.drop_first().take(n - 1) + insert_distinct(list.skip(n), x))
            =~= list.take(n) + insert_distinct(list.skip(n), x));
    }
}

/// The texts of a list, each once, in increasing order.
pub fn sort_distinct(list: Vec<String>) -> (r: Vec<String>)
    ensures
        text::texts(r@) == sorted_distinct(text::texts(list@)),
{
    let mut sorted: Vec<String> = Vec::new();
    let ghost all = text::texts(list@);
    let mut i: usize = 0;
    assert(text::texts(sorted@) =~= sorted_distinct(all.take(0)));
    while i < list.len()
        invariant
            all == text::texts(list@),
            i <= list.len(),
            text::texts(sorted@) == sorted_distinct(all.take(i as int)),
        decreases list.len() - i,
    {
        let ghost before = text::texts(sorted@);
        let ghost x = list@[i as int]@;
        let mut at: usize = 0;
        while at < sorted.len() && comes_before(sorted[at].as_str(), list[i].as_str())
            invariant
                i < list.len(),
                x == list@[i as int]@,
                before == text::texts(sorted@),
                at <= sorted.len(),
                forall|j: int| 0 <= j < at ==> text_before(#[trigger] before[j], x),
            decreases sorted.len() - at,
        {
            at = at + 1;
        }
        proof {
            assert(all.take(i + 1).drop_last() =~= all.take(i as int));
            assert(all.take(i + 1).last() == x);
            lemma_insert_skips(before, x, at as int);
        }
        if at < sorted.len() && sorted[at] == list[i] {
            proof {
                assert(before.skip(at as int)[0] == x);
                assert(before.take(at as int) + before.skip(at as int) =~= before);
            }
        } else {
            sorted.insert(at, list[i].clone());
            proof {
                let rest = before.skip(at as int);
                if rest.len() > 0 {
                    assert(rest[0] == before[at as int]);
                }
                assert(text::texts(sorted@) =~= before.take(at as int) + insert_distinct(rest, x));
            }
        }
        i = i + 1;
    }
    assert(all.take(all.len() as int) =~= all);
    sorted
}

/// Putting `x` at its place keeps the order and adds nothing but `x`.
proof fn lemma_insert_distinct(list: Seq<Seq<char>>, x: Seq<char>)
    requires
        strictly_increasing(list),
    ensures
        strictly_increasing(insert_distinct(list, x)),
        forall|y: Seq<char>|
            #[trigger] insert_distinct(list, x).contains(y) <==> (y == x || list.contains(y)),
    decreases list.len(),
{
    let r = insert_distinct(list, x);
    if list.len() == 0 {
        assert(r =~= seq![x]);
        assert forall|y: Seq<char>| #[trigger] r.contains(y) <==> (y == x || list.contains(y)) by {
            if y == x {
                assert(r[0] == y);
            }
        }
    } else if list[0] == x {
        assert(list.contains(x));
    } else if text_before(list[0], x) {
        let rest = insert_distinct(list.drop_first(), x);
        assert(strictly_increasing(list.drop_first())) by {
            assert forall|i: int, j: int| 0 <= i < j < list.drop_first().len() implies text_before(
                #[trigger] list.drop_first()[i],
                #[trigger] list.drop_first()[j],
            ) by {
                assert(list.drop_first()[i] == list[i + 1]);
                assert(list.drop_first()[j] == list[j + 1]);
            }
        }
        lemma_insert_distinct(list.drop_first(), x);
        assert forall|i: int, j: int| 0 <= i < j < r.len() implies text_before(
            #[trigger] r[i],
            #[trigger] r[j],
        ) by {
            assert(r[j] == rest[j - 1]);
            if i == 0 {
                assert(rest.contains(rest[j - 1]));
                if rest[j - 1] != x {
                    let k = choose|k: int|
                        0 <= k < list.drop_first().len() && list.drop_first()[k] == rest[j - 1];
                    assert(list[k + 1] == rest[j - 1]);
                }
            } else {
                assert(r[i] == rest[i - 1]);
            }
        }
        assert forall|y: Seq<char>| #[trigger] r.contains(y) <==> (y == x || list.contains(y)) by {
            if r.contains(y) {
                let k = choose|k: int| 0 <= k < r.len() && r[k] == y;
                if k > 0 {
                    assert(rest[k - 1] == y);
                    assert(rest.contains(y));
                    if y != x {
                        let m = choose|m: int|
                            0 <= m < list.drop_first().len() && list.drop_first()[m] == y;
                        assert(list[m + 1] == y);
                    }
                } else {
                    assert(list[0] == y);
                }
            }
            if y == x || list.contains(y) {
                if list[0] == y {
                    assert(r[0] == y);
                } else {
                    if y != x {
                        let m = choose|m: int| 0 <= m < list.len() && list[m] == y;
                        assert(list.drop_first()[m - 1] == y);
                    }
                    assert(rest.contains(y));
                    let k = choose|k: int| 0 <= k < rest.len() && rest[k] == y;
                    assert(r[k + 1] == y);
                }
            }
        }
    } else {
        text_before_is_total(list[0], x);
        assert forall|i: int, j: int| 0 <= i < j < r.len() implies text_before(
            #[trigger] r[i],
            #[trigger] r[j],
        ) by {
            assert(r[j] == list[j - 1]);
            if i == 0 {
                if j > 1 {
                    assert(text_before(list[0], list[j - 1]));
                    text_before_is_transitive(x, list[0], list[j - 1]);
                }
            } else {
                assert(r[i] == list[i - 1]);
            }
        }
        assert forall|y: Seq<char>| #[trigger] r.contains(y) <==> (y == x || list.contains(y)) by {
            if r.contains(y) {
                let k = choose|k: int| 0 <= k < r.len() && r[k] == y;
                if k > 0 {
                    assert(list[k - 1] == y);
                }
            }
            if y == x {
                assert(r[0] == y);
            } else if list.contains(y) {
                let k = choose|k: int| 0 <= k < list.len() && list[k] == y;
                assert(r[k + 1] == y);
            }
        }
    }
}

/// `sorted_distinct` is strictly increasing and holds exactly the texts of
/// the list it was made from.
pub proof fn sorted_distinct_is_sorted_and_complete(list: Seq<Seq<char>>)
    ensures
        strictly_increasing(sorted_distinct(list)),
        forall|y: Seq<char>| #[trigger] sorted_distinct(list).contains(y) <==> list.contains(y),
    decreases list.len(),
{
    if list.len() > 0 {
        let before = list.drop_last();
        sorted_distinct_is_sorted_and_complete(before);
        lemma_insert_distinct(sorted_distinct(before), list.last());
        assert forall|y: Seq<char>| #[trigger] sorted_distinct(list).contains(y) <==> list.contains(
            y,
        ) by {
            if list.contains(y) {
                let k = choose|k: int| 0 <= k < list.len() && list[k] == y;
                if k < list.len() - 1 {
                    assert(before[k] == y);
                    assert(before.contains(y));
                }
            }
            if before.contains(y) {
                let k = choose|k: int| 0 <= k < before.len() && before[k] == y;
                assert(list[k] == y);
            }
            if y == list.last() {
                assert(list[list.len() - 1] == y);
            }
        }
    }
}

/// A strictly increasing list is determined by the texts that it holds.
pub proof fn increasing_list_is_determined_by_its_texts(a: Seq<Seq<char>>, b: Seq<Seq<char>>)
    requires
        strictly_increasing(a),
        strictly_increasing(b),
        forall|y: Seq<char>| #[trigger] a.contains(y) <==> b.contains(y),
    ensures
        a == b,
    decreases a.len(),
{
    if a.len() == 0 {
        if b.len() > 0 {
            assert(b.contains(b[0]));
            assert(a.contains(b[0]));
        }
        assert(a =~= b);
    } else {
        assert(a.contains(a[0]));
        assert(b.len() > 0);
        assert(b.contains(b[0]));
        assert(a.contains(b[0]));
        let i = choose|i: int| 0 <= i < a.len() && a[i] == b[0];
        let j = choose|j: int| 0 <= j < b.len() && b[j] == a[0];
        assert(a[0] == b[0]) by {
            if i > 0 && j > 0 {
                assert(text_before(a[0], a[i]));
                assert(text_before(b[0], b[j]));
                text_before_is_transitive(a[0], b[0], a[0]);
                text_before_is_irreflexive(a[0]);
            }
        }
        let x = a.drop_first();
        let y = b.drop_first();
        assert forall|s: Seq<char>| #[trigger] x.contains(s) <==> y.contains(s) by {
            if x.contains(s) {
                let k = choose|k: int| 0 <= k < x.len() && x[k] == s;
                assert(a[k + 1] == s);
                assert(text_before(a[0], a[k + 1]));
                text_before_is_irreflexive(a[0]);
                assert(a.contains(s));
                let m = choose|m: int| 0 <= m < b.len() && b[m] == s;
                assert(y[m - 1] == s);
            }
            if y.contains(s) {
                let k = choose|k: int| 0 <= k < y.len() && y[k] == s;
                assert(b[k + 1] == s);
                assert(text_before(b[0], b[k + 1]));
                text_before_is_irreflexive(b[0]);
                assert(b.contains(s));
                assert(a.contains(s));
                let m = choose|m: int| 0 <= m < a.len() && a[m] == s;
                assert(x[m - 1] == s);
            }
        }
        assert forall|p: int, q: int| 0 <= p < q < x.len() implies text_before(
            #[trigger] x[p],
            #[trigger] x[q],
        ) by {
            assert(text_before(a[p + 1], a[q + 1]));
        }
        assert forall|p: int, q: int| 0 <= p < q < y.len() implies text_before(
            #[trigger] y[p],
            #[trigger] y[q],
        ) by {
            assert(text_before(b[p + 1], b[q + 1]));
        }
        increasing_list_is_determined_by_its_texts(x, y);
        assert(a =~= seq![a[0]] + x);
        assert(b =~= seq![b[0]] + y);
    }
}

} // verus!
