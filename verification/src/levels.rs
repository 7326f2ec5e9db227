//! The list of playable levels: its order, and which level is selected.
use vstd::prelude::*;
use crate::text::{char_order, chars_le, compare_chars, lemma_char_order_antisym, lemma_char_order_eq, lemma_chars_le_trans, lemma_chars_lt_le_trans};

verus! {

/// One registered level: a stable identifier, a display label and the
/// scene that is loaded for it (`S` is whatever handle the engine uses).
pub struct LevelInfo<S> {
    pub id: String,
    pub label: String,
    pub scene: S,
}

/// All registered levels, in play order once `ensure_levels` has run.
pub struct LevelList<S>(pub Vec<LevelInfo<S>>);

/// The levels whose identifier is `id`.
pub open spec fn has_id<S>(id: Seq<char>) -> spec_fn(LevelInfo<S>) -> bool {
    |l: LevelInfo<S>| l.id@ == id
}

/// The levels are ordered by identifier.
pub open spec fn sorted_by_id<S>(levels: Seq<LevelInfo<S>>) -> bool {
    forall|i: int, j: int| 0 <= i < j < levels.len() ==> chars_le(#[trigger] levels[i].id@, #[trigger] levels[j].id@)
}

/// `after` holds, for every identifier, the same levels in the same
/// relative order as `before`: only levels of different identifiers moved
/// past each other.
pub open spec fn same_levels_per_id<S>(before: Seq<LevelInfo<S>>, after: Seq<LevelInfo<S>>) -> bool {
    forall|id: Seq<char>| #[trigger] after.filter(has_id::<S>(id)) == before.filter(has_id::<S>(id))
}

proof fn lemma_filter_push<S>(s: Seq<LevelInfo<S>>, x: LevelInfo<S>, id: Seq<char>)
    ensures
        s.push(x).filter(has_id::<S>(id)) == if x.id@ == id {
            s.filter(has_id::<S>(id)).push(x)
        } else {
            s.filter(has_id::<S>(id))
        },
{
    reveal(Seq::filter);
    assert(s.push(x).drop_last() =~= s);
}

proof fn lemma_filter_none<S>(s: Seq<LevelInfo<S>>, id: Seq<char>)
    requires
        forall|m: int| 0 <= m < s.len() ==> #[trigger] s[m].id@ != id,
    ensures
        s.filter(has_id::<S>(id)) =~= Seq::<LevelInfo<S>>::empty(),
    decreases s.len(),
{
    reveal(Seq::filter);
    if s.len() > 0 {
        let d = s.drop_last();
        assert forall|m: int| 0 <= m < d.len() implies #[trigger] d[m].id@ != id by {
            assert(d[m] == s[m]);
        }
        lemma_filter_none(d, id);
    }
}

/// Inserting `x` where every earlier level sorts no later than `x` and
/// every later one strictly after it appends `x` to its own identifier's
/// levels and leaves the others alone.
proof fn lemma_filter_insert<S>(s: Seq<LevelInfo<S>>, j: int, x: LevelInfo<S>, id: Seq<char>)
    requires
        0 <= j <= s.len(),
        forall|m: int| j <= m < s.len() ==> char_order(x.id@, #[trigger] s[m].id@) < 0,
    ensures
        s.insert(j, x).filter(has_id::<S>(id)) == if x.id@ == id {
            s.filter(has_id::<S>(id)).push(x)
        } else {
            s.filter(has_id::<S>(id))
        },
{
    let p = has_id::<S>(id);
    let a = s.take(j);
    let b = s.skip(j);
    assert(s =~= a + b);
    assert(s.insert(j, x) =~= a.push(x) + b);
    Seq::filter_distributes_over_add(a, b, p);
    Seq::filter_distributes_over_add(a.push(x), b, p);
    lemma_filter_push(a, x, id);
    if x.id@ == id {
        assert forall|m: int| 0 <= m < b.len() implies #[trigger] b[m].id@ != id by {
            assert(b[m] == s[j + m]);
            lemma_char_order_eq(x.id@, s[j + m].id@);
        }
        lemma_filter_none(b, id);
        assert(a.filter(p).push(x) + b.filter(p) =~= a.filter(p).push(x));
        assert(s.filter(p) =~= a.filter(p));
    }
}

/// Orders the levels by identifier, keeping levels with equal identifiers
/// in the order in which they were registered.
pub fn ensure_levels<S>(level_list: &mut LevelList<S>)
    ensures
        sorted_by_id(final(level_list).0@),
        same_levels_per_id(old(level_list).0@, final(level_list).0@),
        final(level_list).0@.len() == old(level_list).0@.len(),
{
    let ghost orig = level_list.0@;
    let mut input: Vec<LevelInfo<S>> = Vec::new();
    std::mem::swap(&mut input, &mut level_list.0);
    let n = input.len();
    let mut out: Vec<LevelInfo<S>> = Vec::new();
    let mut i: usize = 0;
    assert(orig.skip(0) =~= orig);
    assert forall|id: Seq<char>| #[trigger] out@.filter(has_id::<S>(id)) == orig.take(0).filter(has_id::<S>(id)) by {
        reveal(Seq::filter);
        assert(orig.take(0) =~= Seq::<LevelInfo<S>>::empty());
    }
    while i < n
        invariant
            n == orig.len(),
            i <= n,
            input@ =~= orig.skip(i as int),
            out@.len() == i,
            sorted_by_id(out@),
            forall|id: Seq<char>| #[trigger] out@.filter(has_id::<S>(id)) == orig.take(i as int).filter(has_id::<S>(id)),
        decreases n - i,
    {
        let x = input.remove(0);
        assert(x == orig[i as int]);
        let mut j: usize = 0;
        while j < out.len() && compare_chars(out[j].id.as_str(), x.id.as_str()) <= 0
            invariant
                j <= out@.len(),
                forall|m: int| 0 <= m < j ==> chars_le(#[trigger] out@[m].id@, x.id@),
            decreases out@.len() - j,
        {
            j = j + 1;
        }
        proof {
            if j < out@.len() {
                lemma_char_order_antisym(out@[j as int].id@, x.id@);
                assert forall|m: int| j <= m < out@.len() implies char_order(x.id@, #[trigger] out@[m].id@) < 0 by {
                    if m > j {
                        lemma_chars_lt_le_trans(x.id@, out@[j as int].id@, out@[m].id@);
                    }
                }
            }
            let old_out = out@;
            assert forall|id: Seq<char>| #[trigger] old_out.insert(j as int, x).filter(has_id::<S>(id)) == orig.take(i + 1).filter(has_id::<S>(id)) by {
                lemma_filter_insert(old_out, j as int, x, id);
                assert(orig.take(i + 1) =~= orig.take(i as int).push(x));
                lemma_filter_push(orig.take(i as int), x, id);
            }
        }
        let ghost before = out@;
        out.insert(j, x);
        proof {
            assert forall|a: int, b: int| 0 <= a < b < out@.len() implies chars_le(#[trigger] out@[a].id@, #[trigger] out@[b].id@) by {
                if b < j {
                    assert(out@[a] == before[a] && out@[b] == before[b]);
                } else if b == j {
                    assert(out@[a] == before[a]);
                } else if a == j {
                    assert(out@[b] == before[b - 1]);
                } else if a < j {
                    assert(out@[a] == before[a] && out@[b] == before[b - 1]);
                    lemma_chars_le_trans(before[a].id@, x.id@, before[b - 1].id@);
                } else {
                    assert(out@[a] == before[a - 1] && out@[b] == before[b - 1]);
                }
            }
            assert(input@ =~= orig.skip(i + 1));
        }
        i = i + 1;
    }
    assert(orig.take(n as int) =~= orig);
    level_list.0 = out;
}

impl<S> LevelList<S> {
    /// No levels registered yet.
    pub fn new() -> (l: Self)
        ensures
            l.0@ == Seq::<LevelInfo<S>>::empty(),
    {
        LevelList(Vec::new())
    }

    /// Registers a level at the end of the list.
    pub fn register_level(&mut self, id: String, label: String, scene: S)
        ensures
            final(self).0@ == old(self).0@.push(LevelInfo { id, label, scene }),
    {
        self.0.push(LevelInfo { id, label, scene });
    }

    /// How many levels are registered.
    pub fn len(&self) -> (n: usize)
        ensures
            n == self.0@.len(),
    {
        self.0.len()
    }
}

proof fn lemma_member_of_own_filter<S>(s: Seq<LevelInfo<S>>, k: int)
    requires
        0 <= k < s.len(),
    ensures
        s.filter(has_id::<S>(s[k].id@)).contains(s[k]),
{
    s.lemma_filter_contains(has_id::<S>(s[k].id@), k);
}

proof fn lemma_filter_member<S>(s: Seq<LevelInfo<S>>, id: Seq<char>, x: LevelInfo<S>)
    requires
        s.filter(has_id::<S>(id)).contains(x),
    ensures
        s.contains(x),
    decreases s.len(),
{
    reveal(Seq::filter);
    if s.len() > 0 {
        let d = s.drop_last();
        if has_id::<S>(id)(s.last()) && x == s.last() {
            assert(s[s.len() - 1] == x);
        } else {
            if has_id::<S>(id)(s.last()) {
                let f = d.filter(has_id::<S>(id));
                let i = choose|i: int| 0 <= i < f.push(s.last()).len() && f.push(s.last())[i] == x;
                assert(i < f.len());
                assert(f[i] == x);
            }
            lemma_filter_member(d, id, x);
            let j = choose|j: int| 0 <= j < d.len() && d[j] == x;
            assert(s[j] == x);
        }
    }
}

/// The level order is fully determined: two lists that are both ordered by
/// identifier, and that hold the same levels of each identifier in the same
/// relative order, are the same list.  So `ensure_levels` gives the one
/// stable ordering, and leaves an already ordered list as it is.
pub proof fn law_level_order_is_unique<S>(a: Seq<LevelInfo<S>>, b: Seq<LevelInfo<S>>)
    requires
        sorted_by_id(a),
        sorted_by_id(b),
        same_levels_per_id(a, b),
    ensures
        a == b,
    decreases a.len() + b.len(),
{
    if a.len() == 0 || b.len() == 0 {
        if b.len() > 0 {
            lemma_member_of_own_filter(b, 0);
            reveal(Seq::filter);
            assert(a.filter(has_id::<S>(b[0].id@)) =~= a);
            assert(b.filter(has_id::<S>(b[0].id@)) == a.filter(has_id::<S>(b[0].id@)));
        } else if a.len() > 0 {
            lemma_member_of_own_filter(a, 0);
            reveal(Seq::filter);
            assert(b.filter(has_id::<S>(a[0].id@)) =~= b);
            assert(b.filter(has_id::<S>(a[0].id@)) == a.filter(has_id::<S>(a[0].id@)));
        }
        assert(a =~= b);
    } else {
        let x = a.last();
        let y = b.last();
        // x occurs in b, so it sorts no later than b's last level; and back.
        lemma_member_of_own_filter(a, a.len() - 1);
        assert(b.filter(has_id::<S>(x.id@)) == a.filter(has_id::<S>(x.id@)));
        lemma_filter_member(b, x.id@, x);
        let kb = choose|k: int| 0 <= k < b.len() && b[k] == x;
        if kb < b.len() - 1 {
            assert(chars_le(b[kb].id@, b[b.len() - 1].id@));
        } else {
            lemma_char_order_eq(x.id@, y.id@);
        }
        lemma_member_of_own_filter(b, b.len() - 1);
        assert(a.filter(has_id::<S>(y.id@)) == b.filter(has_id::<S>(y.id@)));
        lemma_filter_member(a, y.id@, y);
        let ka = choose|k: int| 0 <= k < a.len() && a[k] == y;
        if ka < a.len() - 1 {
            assert(chars_le(a[ka].id@, a[a.len() - 1].id@));
        } else {
            lemma_char_order_eq(y.id@, x.id@);
        }
        lemma_char_order_antisym(x.id@, y.id@);
        lemma_char_order_eq(x.id@, y.id@);
        assert(x.id@ == y.id@);
        let ad = a.drop_last();
        let bd = b.drop_last();
        assert(a =~= ad.push(x));
        assert(b =~= bd.push(y));
        lemma_filter_push(ad, x, x.id@);
        lemma_filter_push(bd, y, x.id@);
        assert(a.filter(has_id::<S>(x.id@)) == b.filter(has_id::<S>(x.id@)));
        assert(x == a.filter(has_id::<S>(x.id@)).last());
        assert(y == b.filter(has_id::<S>(x.id@)).last());
        assert forall|id: Seq<char>| #[trigger] bd.filter(has_id::<S>(id)) == ad.filter(has_id::<S>(id)) by {
            lemma_filter_push(ad, x, id);
            lemma_filter_push(bd, y, id);
            assert(a.filter(has_id::<S>(id)) == b.filter(has_id::<S>(id)));
            if x.id@ == id {
                assert(ad.filter(has_id::<S>(id)) =~= a.filter(has_id::<S>(id)).drop_last());
                assert(bd.filter(has_id::<S>(id)) =~= b.filter(has_id::<S>(id)).drop_last());
            }
        }
        assert forall|i: int, j: int| 0 <= i < j < ad.len() implies chars_le(#[trigger] ad[i].id@, #[trigger] ad[j].id@) by {
            assert(ad[i] == a[i] && ad[j] == a[j]);
        }
        assert forall|i: int, j: int| 0 <= i < j < bd.len() implies chars_le(#[trigger] bd[i].id@, #[trigger] bd[j].id@) by {
            assert(bd[i] == b[i] && bd[j] == b[j]);
        }
        law_level_order_is_unique(ad, bd);
    }
}

/// The level that `level_index` selects, if there is one.
pub fn setup_level<S>(level_list: &LevelList<S>, level_index: usize) -> (r: Option<&LevelInfo<S>>)
    ensures
        level_index < level_list.0@.len() ==> r == Some(&level_list.0@[level_index as int]),
        level_index >= level_list.0@.len() ==> r is None,
{
    if level_index >= level_list.0.len() {
        None
    } else {
        Some(&level_list.0[level_index])
    }
}

} // verus!
