//! Character-level string comparisons used by the level rules.
use vstd::prelude::*;
use vstd::string::*;

verus! {

/// Three-way lexicographic comparison of two character sequences by
/// Unicode scalar value: `-1` when `a` sorts first, `0` when equal,
/// `1` when `b` sorts first.  Because UTF-8 keeps the order of scalar
/// values, this is also the byte order that `str`'s `Ord` uses.
pub open spec fn char_order(a: Seq<char>, b: Seq<char>) -> int
    decreases a.len(),
{
    if a.len() == 0 {
        if b.len() == 0 {
            0
        } else {
            -1
        }
    } else if b.len() == 0 {
        1
    } else if (a[0] as int) < (b[0] as int) {
        -1
    } else if (b[0] as int) < (a[0] as int) {
        1
    } else {
        char_order(a.drop_first(), b.drop_first())
    }
}

/// `a` sorts no later than `b`.
pub open spec fn chars_le(a: Seq<char>, b: Seq<char>) -> bool {
    char_order(a, b) <= 0
}

pub proof fn lemma_char_order_range(a: Seq<char>, b: Seq<char>)
    ensures
        -1 <= char_order(a, b) <= 1,
    decreases a.len(),
{
    if a.len() > 0 && b.len() > 0 && a[0] == b[0] {
        lemma_char_order_range(a.drop_first(), b.drop_first());
    }
}

/// The comparison is zero exactly on equal sequences.
pub proof fn lemma_char_order_eq(a: Seq<char>, b: Seq<char>)
    ensures
        char_order(a, b) == 0 <==> a == b,
    decreases a.len(),
{
    if a.len() > 0 && b.len() > 0 {
        if (a[0] as int) == (b[0] as int) {
            assert(a[0] == b[0]);
            lemma_char_order_eq(a.drop_first(), b.drop_first());
            if a.drop_first() == b.drop_first() {
                assert(a =~= seq![a[0]] + a.drop_first());
                assert(b =~= seq![b[0]] + b.drop_first());
            }
        } else {
            assert(a[0] != b[0]);
        }
    } else if a.len() == 0 && b.len() != 0 {
        assert(a != b);
    } else if a.len() != 0 && b.len() == 0 {
        assert(a != b);
    } else {
        assert(a =~= b);
    }
}

/// Swapping the arguments negates the comparison.
pub proof fn lemma_char_order_antisym(a: Seq<char>, b: Seq<char>)
    ensures
        char_order(a, b) == -char_order(b, a),
    decreases a.len(),
{
    if a.len() > 0 && b.len() > 0 && (a[0] as int) == (b[0] as int) {
        lemma_char_order_antisym(a.drop_first(), b.drop_first());
    }
}

/// The order is transitive.
pub proof fn lemma_chars_le_trans(a: Seq<char>, b: Seq<char>, c: Seq<char>)
    requires
        chars_le(a, b),
        chars_le(b, c),
    ensures
        chars_le(a, c),
    decreases a.len(),
{
    if a.len() > 0 && b.len() > 0 && c.len() > 0 {
        if (a[0] as int) == (b[0] as int) && (b[0] as int) == (c[0] as int) {
            lemma_chars_le_trans(a.drop_first(), b.drop_first(), c.drop_first());
        }
    }
}

/// Strictly-before followed by no-later is strictly before.
pub proof fn lemma_chars_lt_le_trans(a: Seq<char>, b: Seq<char>, c: Seq<char>)
    requires
        char_order(a, b) < 0,
        chars_le(b, c),
    ensures
        char_order(a, c) < 0,
{
    lemma_chars_le_trans(a, b, c);
    lemma_char_order_eq(a, c);
    if a == c {
        lemma_char_order_antisym(a, b);
        lemma_char_order_eq(b, c);
        lemma_char_order_range(a, b);
    }
}

/// Compares two strings character by character.
pub fn compare_chars(a: &str, b: &str) -> (r: i8)
    ensures
        r as int == char_order(a@, b@),
{
    let la = a.unicode_len();
    let lb = b.unicode_len();
    let mut i: usize = 0;
    assert(a@.skip(0) =~= a@);
    assert(b@.skip(0) =~= b@);
    while i < la && i < lb
        invariant
            la == a@.len(),
            lb == b@.len(),
            i <= la,
            i <= lb,
            char_order(a@, b@) == char_order(a@.skip(i as int), b@.skip(i as int)),
        decreases la - i,
    {
        let ca = a.get_char(i);
        let cb = b.get_char(i);
        assert(a@.skip(i as int)[0] == ca);
        assert(b@.skip(i as int)[0] == cb);
        if (ca as u32) < (cb as u32) {
            return -1;
        } else if (cb as u32) < (ca as u32) {
            return 1;
        }
        assert(a@.skip(i as int).drop_first() =~= a@.skip(i + 1));
        assert(b@.skip(i as int).drop_first() =~= b@.skip(i + 1));
        i = i + 1;
    }
    if i < la {
        1
    } else if i < lb {
        -1
    } else {
        0
    }
}

/// `s` begins with `prefix`.
pub open spec fn has_prefix(s: Seq<char>, prefix: Seq<char>) -> bool {
    prefix.len() <= s.len() && s.take(prefix.len() as int) == prefix
}

/// Whether `s` begins with `prefix`.
pub fn starts_with_chars(s: &str, prefix: &str) -> (r: bool)
    ensures
        r == has_prefix(s@, prefix@),
{
    let ls = s.unicode_len();
    let lp = prefix.unicode_len();
    if lp > ls {
        return false;
    }
    let mut i: usize = 0;
    while i < lp
        invariant
            ls == s@.len(),
            lp == prefix@.len(),
            lp <= ls,
            i <= lp,
            forall|j: int| 0 <= j < i ==> s@[j] == prefix@[j],
        decreases lp - i,
    {
        if s.get_char(i) != prefix.get_char(i) {
            assert(s@.take(lp as int)[i as int] != prefix@[i as int]);
            return false;
        }
        i = i + 1;
    }
    assert(s@.take(lp as int) =~= prefix@);
    true
}

/// Whether the character `c` occurs in `s`.
pub fn contains_char(s: &str, c: char) -> (r: bool)
    ensures
        r == s@.contains(c),
{
    let ls = s.unicode_len();
    let mut i: usize = 0;
    while i < ls
        invariant
            ls == s@.len(),
            i <= ls,
            forall|j: int| 0 <= j < i ==> s@[j] != c,
        decreases ls - i,
    {
        if s.get_char(i) == c {
            return true;
        }
        i = i + 1;
    }
    false
}


/// `a` sorts strictly before `b` in the lexicographic order of scalar
/// values: `a` is a proper prefix of `b`, or at the first position where
/// they differ `a` has the smaller character.
pub open spec fn lexicographically_before(a: Seq<char>, b: Seq<char>) -> bool {
    ||| (a.len() < b.len() && b.take(a.len() as int) == a)
    ||| exists|i: int| 0 <= i < a.len() && i < b.len() && a.take(i) == b.take(i) && (#[trigger] a[i] as int) < (b[i] as int)
}

/// Single characters are ordered by their scalar values.
pub proof fn law_char_order_of_characters(x: char, y: char)
    ensures
        char_order(seq![x], seq![y]) < 0 <==> (x as int) < (y as int),
        char_order(seq![x], seq![y]) == 0 <==> x == y,
        char_order(seq![x], seq![y]) > 0 <==> (y as int) < (x as int),
{
    assert(seq![x].drop_first() =~= Seq::<char>::empty());
    assert(seq![y].drop_first() =~= Seq::<char>::empty());
    assert(seq![x][0] == x);
    assert(seq![y][0] == y);
    assert(char_order(Seq::<char>::empty(), Seq::<char>::empty()) == 0);
    if (x as int) == (y as int) {
        assert(x == y);
    }
}

/// The first differing character decides; equal first characters defer to
/// the rest.
pub proof fn law_char_order_first_character(x: char, y: char, a: Seq<char>, b: Seq<char>)
    ensures
        x != y ==> char_order(seq![x] + a, seq![y] + b) == char_order(seq![x], seq![y]),
        char_order(seq![x] + a, seq![x] + b) == char_order(a, b),
{
    assert((seq![x] + a)[0] == x);
    assert((seq![y] + b)[0] == y);
    assert((seq![x] + a).drop_first() =~= a);
    assert((seq![y] + b).drop_first() =~= b);
    assert((seq![x] + b).drop_first() =~= b);
    assert((seq![x] + b)[0] == x);
    law_char_order_of_characters(x, y);
    if x != y && (x as int) == (y as int) {
        assert(x == y);
    }
}

/// The comparison is the lexicographic order of scalar values, the order
/// of `str`: negative exactly when `a` sorts strictly before `b`.
pub proof fn law_char_order_is_lexicographic(a: Seq<char>, b: Seq<char>)
    ensures
        char_order(a, b) < 0 <==> lexicographically_before(a, b),
    decreases a.len(),
{
    if a.len() == 0 {
        assert(b.take(0) =~= a);
    } else if b.len() == 0 {
    } else if (a[0] as int) < (b[0] as int) {
        assert(a.take(0) =~= b.take(0));
        assert(0 <= 0 < a.len() && 0 < b.len() && a.take(0) == b.take(0) && (a[0] as int) < (b[0] as int));
    } else if (b[0] as int) < (a[0] as int) {
        if a.len() < b.len() && b.take(a.len() as int) == a {
            assert(b.take(a.len() as int)[0] == b[0]);
        }
        if exists|i: int| 0 <= i < a.len() && i < b.len() && a.take(i) == b.take(i) && (#[trigger] a[i] as int) < (b[i] as int) {
            let i = choose|i: int| 0 <= i < a.len() && i < b.len() && a.take(i) == b.take(i) && (#[trigger] a[i] as int) < (b[i] as int);
            if i > 0 {
                assert(a.take(i)[0] == a[0]);
                assert(b.take(i)[0] == b[0]);
            }
        }
    } else {
        assert(a[0] == b[0]);
        let a1 = a.drop_first();
        let b1 = b.drop_first();
        law_char_order_is_lexicographic(a1, b1);
        // The prefix case carries over.
        if a.len() < b.len() && b.take(a.len() as int) == a {
            assert(b1.take(a1.len() as int) =~= a1) by {
                assert forall|k: int| 0 <= k < a1.len() implies #[trigger] b1.take(a1.len() as int)[k] == a1[k] by {
                    assert(b.take(a.len() as int)[k + 1] == a[k + 1]);
                }
            }
        }
        if a1.len() < b1.len() && b1.take(a1.len() as int) == a1 {
            assert(b.take(a.len() as int) =~= a) by {
                assert forall|k: int| 0 <= k < a.len() implies #[trigger] b.take(a.len() as int)[k] == a[k] by {
                    if k > 0 {
                        assert(b1.take(a1.len() as int)[k - 1] == a1[k - 1]);
                    }
                }
            }
        }
        // A first difference carries over, one position further on.
        if exists|i: int| 0 <= i < a.len() && i < b.len() && a.take(i) == b.take(i) && (#[trigger] a[i] as int) < (b[i] as int) {
            let i = choose|i: int| 0 <= i < a.len() && i < b.len() && a.take(i) == b.take(i) && (#[trigger] a[i] as int) < (b[i] as int);
            assert(i > 0);
            assert(a1.take(i - 1) =~= b1.take(i - 1)) by {
                assert forall|k: int| 0 <= k < i - 1 implies #[trigger] a1.take(i - 1)[k] == b1.take(i - 1)[k] by {
                    assert(a.take(i)[k + 1] == b.take(i)[k + 1]);
                }
            }
            assert(a1[i - 1] == a[i]);
            assert(b1[i - 1] == b[i]);
            assert(0 <= i - 1 < a1.len() && i - 1 < b1.len() && a1.take(i - 1) == b1.take(i - 1) && (a1[i - 1] as int) < (b1[i - 1] as int));
        }
        if exists|i: int| 0 <= i < a1.len() && i < b1.len() && a1.take(i) == b1.take(i) && (#[trigger] a1[i] as int) < (b1[i] as int) {
            let i = choose|i: int| 0 <= i < a1.len() && i < b1.len() && a1.take(i) == b1.take(i) && (#[trigger] a1[i] as int) < (b1[i] as int);
            assert(a.take(i + 1) =~= b.take(i + 1)) by {
                assert forall|k: int| 0 <= k < i + 1 implies #[trigger] a.take(i + 1)[k] == b.take(i + 1)[k] by {
                    if k > 0 {
                        assert(a1.take(i)[k - 1] == b1.take(i)[k - 1]);
                    }
                }
            }
            assert(a[i + 1] == a1[i]);
            assert(b[i + 1] == b1[i]);
            assert(0 <= i + 1 < a.len() && i + 1 < b.len() && a.take(i + 1) == b.take(i + 1) && (a[i + 1] as int) < (b[i + 1] as int));
        }
    }
}

} // verus!
