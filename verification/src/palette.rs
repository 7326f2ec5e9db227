//! The cache of palette materials made from standard materials.
use vstd::prelude::*;
use std::collections::HashMap;

verus! {

broadcast use vstd::std_specs::hash::group_hash_axioms;

/// Why a scene object could not be given its palette material.
#[derive(Debug, Clone, Copy, PartialEq, Eq, Structural)]
pub enum PaletteError {
    /// The object (by entity number) has no standard material to start from.
    NoStandardMaterial(u64),
}

/// How an object gets its palette material.
#[derive(Debug, Clone, Copy, PartialEq, Eq, Structural)]
pub enum PaletteResolution {
    /// Reuse the palette material (by asset number) made earlier.
    Cached(u64),
    /// Make a palette material from the standard one, then `remember` it.
    Create,
}

/// Palette materials (by asset number) keyed by the standard material (by
/// asset number) they were made from.
pub struct PaletteMaterialHandles {
    cache: HashMap<u64, u64>,
}

impl PaletteMaterialHandles {
    /// Standard material to palette material.
    pub closed spec fn view(&self) -> Map<u64, u64> {
        self.cache@
    }

    /// Nothing cached.
    pub fn new() -> (p: Self)
        ensures
            p.view() == Map::<u64, u64>::empty(),
    {
        PaletteMaterialHandles { cache: HashMap::new() }
    }

    /// What the object `entity`, showing standard material `std_mat` (if it
    /// has one), gets: the cached palette material, or a new one.  Without a
    /// standard material it is an error.
    pub fn resolve(&self, entity: u64, std_mat: Option<u64>) -> (r: Result<PaletteResolution, PaletteError>)
        ensures
            std_mat is None ==> r == Err::<PaletteResolution, PaletteError>(PaletteError::NoStandardMaterial(entity)),
            std_mat matches Some(m) ==> r == Ok::<PaletteResolution, PaletteError>(
                if self.view().contains_key(m) {
                    PaletteResolution::Cached(self.view()[m])
                } else {
                    PaletteResolution::Create
                },
            ),
    {
        match std_mat {
            None => Err(PaletteError::NoStandardMaterial(entity)),
            Some(m) => match self.cache.get(&m) {
                Some(p) => Ok(PaletteResolution::Cached(*p)),
                None => Ok(PaletteResolution::Create),
            },
        }
    }

    /// Remembers the palette material made from a standard material.
    pub fn remember(&mut self, std_mat: u64, palette_mat: u64)
        ensures
            final(self).view() == old(self).view().insert(std_mat, palette_mat),
    {
        self.cache.insert(std_mat, palette_mat);
    }

    /// Forgets every palette material, as when a level is left.
    pub fn clear(&mut self)
        ensures
            final(self).view() == Map::<u64, u64>::empty(),
    {
        self.cache.clear();
    }
}

/// A palette material is made once per standard material: once one has
/// been remembered, objects with that standard material reuse it.
pub proof fn law_made_once_then_reused(cache: Map<u64, u64>, std_mat: u64, palette_mat: u64)
    ensures
        cache.insert(std_mat, palette_mat).contains_key(std_mat),
        cache.insert(std_mat, palette_mat)[std_mat] == palette_mat,
{
}

} // verus!
