//! The order of texts, and lists in that order.

use vstd::prelude::*;

use crate::text::chars_of;
#[allow(unused_imports)]
use crate::text::views;

verus! {

/// `a` comes before `b`: at the first place where they differ its character is
/// the smaller one, or it ends there.
pub open spec fn precedes(a: Seq<char>, b: Seq<char>) -> bool
    decreases a.len(),
{
    if b.len() == 0 {
        false
    } else if a.len() == 0 {
        true
    } else if a[0] == b[0] {
        precedes(a.skip(1), b.skip(1))
    } else {
        (a[0] as int) < (b[0] as int)
    }
}

/// Of two texts one comes before the other, or they are equal.
pub proof fn lemma_order_is_total(a: Seq<char>, b: Seq<char>)
    ensures
        precedes(a, b) || a == b || precedes(b, a),
        !(precedes(a, b) && precedes(b, a)),
        a == b ==> !precedes(a, b),
    decreases a.len(),
{
    if a.len() == 0 && b.len() == 0 {
        assert(a =~= b);
    } else if a.len() > 0 && b.len() > 0 {
        if a[0] == b[0] {
            lemma_order_is_total(a.skip(1), b.skip(1));
            if a.skip(1) == b.skip(1) {
                assert forall|i: int| 0 <= i < a.len() implies a[i] == b[i] by {
                    if i > 0 {
                        assert(a.skip(1)[i - 1] == b.skip(1)[i - 1]);
                    }
                }
                assert(a.skip(1).len() == b.skip(1).len());
                assert(a =~= b);
            }
        }
    }
}

/// The order is transitive.
pub proof fn lemma_order_is_transitive(a: Seq<char>, b: Seq<char>, c: Seq<char>)
    requires
        precedes(a, b),
        precedes(b, c),
    ensures
        precedes(a, c),
    decreases a.len(),
{
    if a.len() > 0 && a[0] == b[0] && b[0] == c[0] {
        lemma_order_is_transitive(a.skip(1), b.skip(1), c.skip(1));
    }
}

/// Whether `a` comes before `b`.
pub fn comes_before(a: &str, b: &str) -> (yes: bool)
    ensures
        yes == precedes(a@, b@),
{
    let left = chars_of(a);
    let right = chars_of(b);
    let mut i: usize = 0;
    assert(a@.skip(0) =~= a@ && b@.skip(0) =~= b@);
    while i < left.len() && i < right.len() && left[i] == right[i]
        invariant
            i <= left.len(),
            i <= right.len(),
            left@ == a@,
            right@ == b@,
            precedes(a@, b@) == precedes(a@.skip(i as int), b@.skip(i as int)),
        decreases left.len() - i,
    {
        assert(a@.skip(i as int).skip(1) =~= a@.skip(i + 1));
        assert(b@.skip(i as int).skip(1) =~= b@.skip(i + 1));
        i += 1;
    }
    proof {
        let (rest_a, rest_b) = (a@.skip(i as int), b@.skip(i as int));
        assert(rest_a.len() > 0 ==> rest_a[0] == left@[i as int]);
        assert(rest_b.len() > 0 ==> rest_b[0] == right@[i as int]);
    }
    if i >= right.len() {
        false
    } else if i >= left.len() {
        true
    } else {
        left[i] < right[i]
    }
}

/// Each text comes before those behind it. Such a list holds no text twice, and
/// is determined by what it holds.
pub open spec fn ascending(list: Seq<Seq<char>>) -> bool {
    forall|i: int, j: int|
        0 <= i < j < list.len() ==> precedes(#[trigger] list[i], #[trigger] list[j])
}

/// Two ascending lists that hold the same texts are the same list.
pub proof fn lemma_ascending_is_determined(a: Seq<Seq<char>>, b: Seq<Seq<char>>)
    requires
        ascending(a),
        ascending(b),
        forall|text: Seq<char>| a.contains(text) <==> b.contains(text),
    ensures
        a == b,
    decreases a.len(),
{
    if a.len() == 0 {
        if b.len() > 0 {
            assert(b.contains(b[0]));
            assert(a.contains(b[0]));
        }
        assert(a =~= b);
    } else {
        assert(a.contains(a.last()));
        assert(b.contains(a.last()));
        let at = choose|i: int| 0 <= i < b.len() && b[i] == a.last();
        if at < b.len() - 1 {
            assert(precedes(b[at], b.last()));
            assert(b.contains(b.last()));
            assert(a.contains(b.last()));
            let k = choose|i: int| 0 <= i < a.len() && a[i] == b.last();
            lemma_order_is_total(a[k], a.last());
            if k < a.len() - 1 {
                assert(precedes(a[k], a.last()));
            }
        }
        assert(b.last() == a.last());
        let front_a = a.drop_last();
        let front_b = b.drop_last();
        assert forall|text: Seq<char>| front_a.contains(text) <==> front_b.contains(text) by {
            if front_a.contains(text) {
                let k = choose|i: int| 0 <= i < front_a.len() && front_a[i] == text;
                assert(a[k] == text && precedes(a[k], a.last()));
                lemma_order_is_total(text, a.last());
                assert(a.contains(text));
                assert(b.contains(text));
                let m = choose|i: int| 0 <= i < b.len() && b[i] == text;
                assert(front_b[m] == text);
            }
            if front_b.contains(text) {
                let k = choose|i: int| 0 <= i < front_b.len() && front_b[i] == text;
                assert(b[k] == text && precedes(b[k], b.last()));
                lemma_order_is_total(text, b.last());
                assert(b.contains(text));
                assert(a.contains(text));
                let m = choose|i: int| 0 <= i < a.len() && a[i] == text;
                assert(front_a[m] == text);
            }
        }
        lemma_ascending_is_determined(front_a, front_b);
        assert(a =~= front_a.push(a.last()));
        assert(b =~= front_b.push(b.last()));
    }
}

/// Put a text into an ascending list that may hold it already.
pub fn insert_ascending(list: &mut Vec<String>, text: &str)
    requires
        ascending(views(old(list)@)),
    ensures
        ascending(views(final(list)@)),
        forall|other: Seq<char>|
            views(final(list)@).contains(other) <==> other == text@ || views(
                old(list)@,
            ).contains(other),
{
    let ghost before = views(list@);
    let mut at: usize = 0;
    while at < list.len() && comes_before(list[at].as_str(), text)
        invariant
            at <= list.len(),
            before == views(list@),
            forall|k: int| 0 <= k < at ==> precedes(#[trigger] before[k], text@),
        decreases list.len() - at,
    {
        at += 1;
    }
    if at < list.len() && !comes_before(text, list[at].as_str()) {
        proof {
            lemma_order_is_total(before[at as int], text@);
            assert(before[at as int] == text@);
            assert(before.contains(text@));
        }
        return ;
    }
    list.insert(at, text.to_owned());
    proof {
        let after = views(list@);
        assert(after =~= before.insert(at as int, text@));
        assert forall|i: int, j: int| 0 <= i < j < after.len() implies precedes(
            #[trigger] after[i],
            #[trigger] after[j],
        ) by {
            if j < at {
                assert(precedes(before[i], before[j]));
            } else if j == at {
                assert(precedes(before[i], text@));
            } else if i < at {
                assert(precedes(before[i], before[j - 1]));
            } else if i == at {
                assert(precedes(text@, before[at as int]));
                if j - 1 > at {
                    assert(precedes(before[at as int], before[j - 1]));
                    lemma_order_is_transitive(text@, before[at as int], before[j - 1]);
                }
            } else {
                assert(precedes(before[i - 1], before[j - 1]));
            }
        }
        assert forall|other: Seq<char>| after.contains(other) <==> other == text@
            || before.contains(other) by {
            if after.contains(other) {
                let k = choose|i: int| 0 <= i < after.len() && after[i] == other;
                if k < at {
                    assert(before[k] == other);
                } else if k > at {
                    assert(before[k - 1] == other);
                }
            }
            if other == text@ {
                assert(after[at as int] == other);
            } else if before.contains(other) {
                let k = choose|i: int| 0 <= i < before.len() && before[i] == other;
                if k < at {
                    assert(after[k] == other);
                } else {
                    assert(after[k + 1] == other);
                }
            }
        }
    }
}

} // verus!
