//! Bookkeeping for collision sounds: which sample to play next, and the
//! cache of time-stretched samples.
use vstd::prelude::*;
use std::collections::VecDeque;
use rustc_hash::FxHashMap;
use crate::random::choose_item;

verus! {

/// The hasher that `rustc_hash`'s maps use.
#[verifier::external_type_specification]
#[verifier::external_body]
pub struct ExFxBuildHasher(rustc_hash::FxBuildHasher);

/// What a table of sample sets holds: for each surface material (by its
/// number), the samples (by their asset number) that can be played.
pub uninterp spec fn sample_table(table: FxHashMap<u32, Vec<u64>>) -> Map<u32, Seq<u64>>;

/// Looks a surface up in a table of sample sets with `HashMap::get` (the
/// table is a `rustc_hash::FxHashMap`).  Claimed: the set stored for that
/// surface when there is one, `None` otherwise.
#[verifier::external_body]
fn sample_set(table: &FxHashMap<u32, Vec<u64>>, surface: u32) -> (r: Option<&Vec<u64>>)
    ensures
        r is Some <==> sample_table(*table).contains_key(surface),
        r matches Some(v) ==> v@ == sample_table(*table)[surface],
{
    table.get(&surface)
}

/// The kind of sound that is wanted.
#[derive(Debug, Clone, Copy, PartialEq, Eq, Hash, Structural)]
pub enum SampleSelectorType {
    SurfaceImpact,
    SurfaceSlide,
    FootstepImpact,
    FootstepSlide,
}

/// How many times a pick that repeats a recent sample is retried.
pub const PICK_RETRIES: u32 = 8;

/// Picks samples for surfaces, avoiding the ones played most recently.
pub struct SampleSelector {
    pub impact_samples: FxHashMap<u32, Vec<u64>>,
    pub slide_samples: FxHashMap<u32, Vec<u64>>,
    pub foot_impact_samples: FxHashMap<u32, Vec<u64>>,
    pub foot_slide_samples: FxHashMap<u32, Vec<u64>>,
    /// The recent picks, oldest first.
    pub lru: VecDeque<(SampleSelectorType, u64)>,
    /// How many recent picks are remembered before they are forgotten.
    pub limit: usize,
}

/// A recent history that has reached `limit` entries is forgotten by its
/// oldest `limit` entries.
pub open spec fn forget_if_full(history: Seq<(SampleSelectorType, u64)>, limit: nat) -> Seq<(SampleSelectorType, u64)> {
    if history.len() >= limit {
        history.skip(limit as int)
    } else {
        history
    }
}

/// The history after `times` attempts have each forgotten what was due.
pub open spec fn forget_times(history: Seq<(SampleSelectorType, u64)>, limit: nat, times: nat) -> Seq<(SampleSelectorType, u64)>
    decreases times,
{
    if times == 0 {
        history
    } else {
        forget_if_full(forget_times(history, limit, (times - 1) as nat), limit)
    }
}

/// Every one of `draws` repeated a recent pick at its own attempt: the
/// `i`-th draw was among the recent picks left after `i + 1` attempts had
/// each forgotten what was due.
pub open spec fn all_repeats(history: Seq<(SampleSelectorType, u64)>, limit: nat, ty: SampleSelectorType, draws: Seq<u64>) -> bool {
    forall|i: int| 0 <= i < draws.len() ==> forget_times(history, limit, (i + 1) as nat).contains((ty, #[trigger] draws[i]))
}

impl SampleSelector {
    /// The recently picked samples, oldest first.
    pub open spec fn history(&self) -> Seq<(SampleSelectorType, u64)> {
        self.lru@
    }

    /// How many recent picks are remembered before they are forgotten.
    pub open spec fn repeat_limit(&self) -> nat {
        self.limit as nat
    }

    /// The table consulted for a kind of sound.
    pub open spec fn table_for(&self, ty: SampleSelectorType) -> FxHashMap<u32, Vec<u64>> {
        match ty {
            SampleSelectorType::SurfaceImpact => self.impact_samples,
            SampleSelectorType::SurfaceSlide => self.slide_samples,
            SampleSelectorType::FootstepImpact => self.foot_impact_samples,
            SampleSelectorType::FootstepSlide => self.foot_slide_samples,
        }
    }

    /// The samples that can be played for a kind of sound on a surface;
    /// empty when the surface has none.
    pub open spec fn candidates(&self, ty: SampleSelectorType, surface: u32) -> Seq<u64> {
        let t = sample_table(self.table_for(ty));
        if t.contains_key(surface) {
            t[surface]
        } else {
            Seq::empty()
        }
    }

    /// A selector over the four tables, remembering the last four picks.
    pub fn new(
        impact_samples: FxHashMap<u32, Vec<u64>>,
        slide_samples: FxHashMap<u32, Vec<u64>>,
        foot_impact_samples: FxHashMap<u32, Vec<u64>>,
        foot_slide_samples: FxHashMap<u32, Vec<u64>>,
    ) -> (s: Self)
        ensures
            s.table_for(SampleSelectorType::SurfaceImpact) == impact_samples,
            s.table_for(SampleSelectorType::SurfaceSlide) == slide_samples,
            s.table_for(SampleSelectorType::FootstepImpact) == foot_impact_samples,
            s.table_for(SampleSelectorType::FootstepSlide) == foot_slide_samples,
            s.history() == Seq::<(SampleSelectorType, u64)>::empty(),
            s.repeat_limit() == 4,
    {
        SampleSelector {
            impact_samples,
            slide_samples,
            foot_impact_samples,
            foot_slide_samples,
            lru: VecDeque::new(),
            limit: 4,
        }
    }

    /// The same selector with another repeat limit.
    pub fn set_repeat_limit(self, limit: usize) -> (s: Self)
        ensures
            forall|ty: SampleSelectorType| #[trigger] s.table_for(ty) == self.table_for(ty),
            s.history() == self.history(),
            s.repeat_limit() == limit,
    {
        SampleSelector { limit, ..self }
    }

    /// Forgets the oldest `limit` entries when the history is full.
    fn forget_if_full(&mut self)
        ensures
            final(self).history() == forget_if_full(old(self).history(), old(self).repeat_limit()),
            final(self).limit == old(self).limit,
            final(self).impact_samples == old(self).impact_samples,
            final(self).slide_samples == old(self).slide_samples,
            final(self).foot_impact_samples == old(self).foot_impact_samples,
            final(self).foot_slide_samples == old(self).foot_slide_samples,
    {
        if self.lru.len() >= self.limit {
            let mut k: usize = 0;
            let ghost start = self.lru@;
            while k < self.limit
                invariant
                    k <= self.limit,
                    start.len() >= self.limit,
                    self.lru@ == start.skip(k as int),
                    self.limit == old(self).limit,
                    self.impact_samples == old(self).impact_samples,
                    self.slide_samples == old(self).slide_samples,
                    self.foot_impact_samples == old(self).foot_impact_samples,
                    self.foot_slide_samples == old(self).foot_slide_samples,
                decreases self.limit - k,
            {
                let _ = self.lru.pop_front();
                assert(start.skip(k as int).subrange(1, start.skip(k as int).len() as int) =~= start.skip(k + 1));
                k = k + 1;
            }
        }
    }

    /// Whether `key` is among the recent picks.
    fn recently_picked(&self, key: (SampleSelectorType, u64)) -> (r: bool)
        ensures
            r == self.history().contains(key),
    {
        let n = self.lru.len();
        let mut i: usize = 0;
        while i < n
            invariant
                n == self.lru@.len(),
                i <= n,
                forall|j: int| 0 <= j < i ==> self.lru@[j] != key,
            decreases n - i,
        {
            let e = self.lru[i];
            if e.0 == key.0 && e.1 == key.1 {
                assert(self.lru@[i as int] == key);
                return true;
            }
            i = i + 1;
        }
        false
    }

    /// One attempt at a pick, given the sample that was drawn: a full history
    /// is first forgotten; the draw is taken when it is not among the recent
    /// picks, or when no retries are left, and is then remembered.  A draw
    /// that is not taken is to be drawn again.
    pub fn take_draw(&mut self, ty: SampleSelectorType, sample: u64, retries_left: u32) -> (taken: bool)
        ensures
            taken == (!forget_if_full(old(self).history(), old(self).repeat_limit()).contains((ty, sample)) || retries_left == 0),
            final(self).history() == if taken {
                forget_if_full(old(self).history(), old(self).repeat_limit()).push((ty, sample))
            } else {
                forget_if_full(old(self).history(), old(self).repeat_limit())
            },
            final(self).limit == old(self).limit,
            final(self).impact_samples == old(self).impact_samples,
            final(self).slide_samples == old(self).slide_samples,
            final(self).foot_impact_samples == old(self).foot_impact_samples,
            final(self).foot_slide_samples == old(self).foot_slide_samples,
    {
        self.forget_if_full();
        let key = (ty, sample);
        if !self.recently_picked(key) || retries_left == 0 {
            self.lru.push_back(key);
            true
        } else {
            false
        }
    }

    /// Picks a random sample of the given kind for a surface, avoiding the
    /// recent picks: each random draw goes through `take_draw`, and a draw
    /// that repeats a recent pick is drawn again, up to `PICK_RETRIES` times,
    /// after which the last draw is taken anyway.  `None` when the surface
    /// has no samples.  The draws themselves are random; the contract holds
    /// for whichever came up.
    pub fn pick_sample(&mut self, ty: SampleSelectorType, phys_mat: u32) -> (r: Option<u64>)
        ensures
            final(self).repeat_limit() == old(self).repeat_limit(),
            forall|ty: SampleSelectorType| #[trigger] final(self).table_for(ty) == old(self).table_for(ty),
            r is None <==> old(self).candidates(ty, phys_mat).len() == 0,
            r is None ==> final(self).history() == old(self).history(),
            r matches Some(s) ==> {
                &&& old(self).candidates(ty, phys_mat).contains(s)
                &&& exists|rejected: Seq<u64>| #![trigger all_repeats(old(self).history(), old(self).repeat_limit(), ty, rejected)] {
                    let seen = forget_times(old(self).history(), old(self).repeat_limit(), (rejected.len() + 1) as nat);
                    &&& rejected.len() <= PICK_RETRIES
                    &&& (forall|i: int| 0 <= i < rejected.len() ==> old(self).candidates(ty, phys_mat).contains(#[trigger] rejected[i]))
                    &&& all_repeats(old(self).history(), old(self).repeat_limit(), ty, rejected)
                    &&& (!seen.contains((ty, s)) || rejected.len() == PICK_RETRIES)
                    &&& final(self).history() == seen.push((ty, s))
                }
            },
    {
        let samples = match ty {
            SampleSelectorType::SurfaceImpact => sample_set(&self.impact_samples, phys_mat),
            SampleSelectorType::SurfaceSlide => sample_set(&self.slide_samples, phys_mat),
            SampleSelectorType::FootstepImpact => sample_set(&self.foot_impact_samples, phys_mat),
            SampleSelectorType::FootstepSlide => sample_set(&self.foot_slide_samples, phys_mat),
        };
        let samples: Vec<u64> = match samples {
            Some(v) => v.clone(),
            None => return None,
        };
        assert(samples@ == old(self).candidates(ty, phys_mat));
        let ghost h0 = self.lru@;
        let ghost lim = self.limit as nat;
        let mut max_iters: u32 = PICK_RETRIES;
        let mut first = true;
        let ghost mut rejected: Seq<u64> = Seq::empty();
        loop
            invariant
                rejected.len() == PICK_RETRIES - max_iters,
                forall|i: int| 0 <= i < rejected.len() ==> samples@.contains(#[trigger] rejected[i]),
                all_repeats(h0, lim, ty, rejected),
                max_iters <= PICK_RETRIES,
                samples@ == old(self).candidates(ty, phys_mat),
                first ==> max_iters == PICK_RETRIES,
                first ==> self.lru@ == h0,
                !first ==> samples@.len() > 0,
                h0 == old(self).history(),
                lim == old(self).repeat_limit(),
                self.limit == lim,
                self.lru@ == forget_times(h0, lim, (PICK_RETRIES - max_iters) as nat),
                self.impact_samples == old(self).impact_samples,
                self.slide_samples == old(self).slide_samples,
                self.foot_impact_samples == old(self).foot_impact_samples,
                self.foot_slide_samples == old(self).foot_slide_samples,
            decreases max_iters,
        {
            let sample = match choose_item(&samples) {
                Some(s) => s,
                None => return None,
            };
            first = false;
            let ghost tries = (PICK_RETRIES - max_iters + 1) as nat;
            let ghost before = self.lru@;
            assert(forget_if_full(before, lim) == forget_times(h0, lim, tries));
            if self.take_draw(ty, sample, max_iters) {
                assert(all_repeats(h0, lim, ty, rejected));
                return Some(sample);
            }
            proof {
                let old_rejected = rejected;
                rejected = rejected.push(sample);
                assert forall|i: int| 0 <= i < rejected.len() implies forget_times(h0, lim, (i + 1) as nat).contains((ty, #[trigger] rejected[i])) by {
                    if i < old_rejected.len() {
                        assert(rejected[i] == old_rejected[i]);
                    }
                }
                assert forall|i: int| 0 <= i < rejected.len() implies samples@.contains(#[trigger] rejected[i]) by {
                    if i < old_rejected.len() {
                        assert(rejected[i] == old_rejected[i]);
                    }
                }
            }
            max_iters = max_iters - 1;
        }
    }
}

/// Remembered picks never outnumber the repeat limit: a history within the
/// limit is still within it after any pick (`pick_sample` leaves
/// `forget_times(history, limit, tries).push(key)` for some `tries >= 1`,
/// one more than the rejected draws).
pub proof fn law_history_stays_within_limit(history: Seq<(SampleSelectorType, u64)>, limit: nat, tries: nat, key: (SampleSelectorType, u64))
    requires
        history.len() <= limit,
        limit >= 1,
        tries >= 1,
    ensures
        forget_times(history, limit, tries).push(key).len() <= limit,
    decreases tries,
{
    if tries > 1 {
        law_history_stays_within_limit(history, limit, (tries - 1) as nat, key);
    }
    let prev = forget_times(history, limit, (tries - 1) as nat);
    assert(prev.len() <= limit);
}

} // verus!
