//! Which collisions make a sound, which kind of sound, and on which body.
//! Speeds, impulses and volumes are measured on the engine side; here each
//! contact gets the resulting facts and the sound is decided.
use vstd::prelude::*;
use crate::random::coin_flip;
use crate::sound::SampleSelectorType;

verus! {

/// At most this many collision sounds start per tick.
pub const MAX_NOISES_PER_TICK: usize = 4;

/// One of the two bodies of a contact.
#[derive(Debug, Clone, Copy, PartialEq, Eq, Structural)]
pub enum Side {
    First,
    Second,
}

/// The facts about a contact that are known before any measurement.
#[derive(Debug, Clone, Copy, PartialEq, Eq, Structural)]
pub struct ContactFacts {
    /// The contact began this tick.
    pub started: bool,
    /// The bodies are touching.
    pub touching: bool,
    /// The first body is the player.
    pub first_is_player: bool,
    /// The second body is the player.
    pub second_is_player: bool,
    /// The first body has a surface material of its own.
    pub first_has_material: bool,
    /// The second body has a surface material of its own.
    pub second_has_material: bool,
}

/// How a contact is heard.
#[derive(Debug, Clone, Copy, PartialEq, Eq, Structural)]
pub enum ContactRole {
    /// The player's feet.
    Footstep,
    /// Two objects, at least one with a surface material.
    Objects,
}

/// A contact that may make a sound: how it is heard, and which body is
/// measured against which.
#[derive(Debug, Clone, Copy, PartialEq, Eq, Structural)]
pub struct Contact {
    pub role: ContactRole,
    /// The body whose motion is measured relative to the other.
    pub target: Side,
}

/// Sorts a contact out before anything is measured: only contacts that
/// begin or touch, and that involve the player or a body with a surface
/// material, can be heard.  The measured body is the second when it has a
/// material or is the player, else the first.
pub fn classify_contact(f: ContactFacts) -> (r: Option<Contact>)
    ensures
        !(f.started || f.touching) ==> r is None,
        (f.started || f.touching) && !(f.first_has_material || f.first_is_player || f.second_has_material || f.second_is_player) ==> r is None,
        r matches Some(c) ==> {
            &&& f.started || f.touching
            &&& c.target == if f.second_has_material || f.second_is_player { Side::Second } else { Side::First }
            &&& c.role == if f.first_is_player || f.second_is_player { ContactRole::Footstep } else { ContactRole::Objects }
        },
        (f.started || f.touching) && (f.first_has_material || f.first_is_player || f.second_has_material || f.second_is_player) ==> r is Some,
{
    if !f.started && !f.touching {
        return None;
    }
    let target = if f.second_has_material || f.second_is_player {
        Side::Second
    } else if f.first_has_material || f.first_is_player {
        Side::First
    } else {
        return None;
    };
    let role = if f.first_is_player || f.second_is_player {
        ContactRole::Footstep
    } else {
        ContactRole::Objects
    };
    Some(Contact { role, target })
}

/// The surface material of a body: the first material found walking from
/// the body up through its ancestors (`chain[0]` is the body itself), or
/// `None` (the default material) when there is none.
pub fn resolve_surface(chain: &Vec<Option<u32>>) -> (r: Option<u32>)
    ensures
        r is None <==> forall|i: int| 0 <= i < chain@.len() ==> #[trigger] chain@[i] is None,
        r matches Some(m) ==> exists|i: int| 0 <= i < chain@.len() && chain@[i] == Some(m)
            && forall|j: int| 0 <= j < i ==> #[trigger] chain@[j] is None,
{
    let mut i: usize = 0;
    while i < chain.len()
        invariant
            i <= chain@.len(),
            forall|j: int| 0 <= j < i ==> #[trigger] chain@[j] is None,
        decreases chain@.len() - i,
    {
        if let Some(m) = chain[i] {
            assert(chain@[i as int] == Some(m));
            return Some(m);
        }
        i = i + 1;
    }
    None
}

/// The measurements of a contact that decide its sound.
#[derive(Debug, Clone, Copy, PartialEq, Eq, Structural)]
pub struct ContactMotion {
    /// The bodies move against each other fast enough to be heard.
    pub fast_enough: bool,
    /// The impulse is strong enough to be heard.
    pub audible: bool,
    /// The bodies slide along each other rather than hit.
    pub sliding: bool,
    /// Enough distance has been walked for the next footstep.
    pub footstep_due: bool,
    /// The speed that decides a slide is above its threshold: the combined
    /// linear and rolling speed for footsteps, the linear speed for objects.
    pub moving: bool,
    /// The expected loudness is above the silence threshold.
    pub loud_enough: bool,
    /// The rolling speed is below the sliding speed.
    pub rolling_slower: bool,
}

/// A sound to play: its kind, the body it is attached to, and the body
/// whose surface material chooses the sample.
#[derive(Debug, Clone, Copy, PartialEq, Eq, Structural)]
pub struct NoisePlan {
    pub kind: SampleSelectorType,
    pub attach_to: Side,
    pub material_of: Side,
}

/// The sound of a contact, given its measurements and, for two objects,
/// a coin that chooses the body the sound comes from.  Footsteps follow
/// the player: they are attached to the player's body (the first when
/// `first_is_player`, else the second) and sound like the other body's
/// material; a footfall when not sliding, a slide when sliding and moving.
/// Two objects sound from the body the coin picks: a slide when sliding
/// with the rolling speed below the sliding speed, else an impact when
/// moving.
pub open spec fn contact_noise(c: Contact, first_is_player: bool, m: ContactMotion, coin: bool) -> Option<NoisePlan> {
    if !m.fast_enough || !m.audible {
        None
    } else if c.role == ContactRole::Footstep {
        if !m.footstep_due {
            None
        } else {
            let player = if first_is_player { Side::First } else { Side::Second };
            let material_of = if first_is_player { Side::Second } else { Side::First };
            if !m.sliding {
                Some(NoisePlan { kind: SampleSelectorType::FootstepImpact, attach_to: player, material_of })
            } else if m.moving {
                Some(NoisePlan { kind: SampleSelectorType::FootstepSlide, attach_to: player, material_of })
            } else {
                None
            }
        }
    } else {
        let side = if coin { Side::First } else { Side::Second };
        if !m.loud_enough {
            None
        } else if m.sliding && m.rolling_slower {
            Some(NoisePlan { kind: SampleSelectorType::SurfaceSlide, attach_to: side, material_of: side })
        } else if m.moving {
            Some(NoisePlan { kind: SampleSelectorType::SurfaceImpact, attach_to: side, material_of: side })
        } else {
            None
        }
    }
}

/// The sound of a contact for a given coin (see `contact_noise`).
pub fn contact_noise_with(c: Contact, first_is_player: bool, m: ContactMotion, coin: bool) -> (r: Option<NoisePlan>)
    ensures
        r == contact_noise(c, first_is_player, m, coin),
{
    if !m.fast_enough || !m.audible {
        return None;
    }
    match c.role {
        ContactRole::Footstep => {
            if !m.footstep_due {
                return None;
            }
            let player = if first_is_player { Side::First } else { Side::Second };
            let material_of = if first_is_player { Side::Second } else { Side::First };
            if !m.sliding {
                Some(NoisePlan { kind: SampleSelectorType::FootstepImpact, attach_to: player, material_of })
            } else if m.moving {
                Some(NoisePlan { kind: SampleSelectorType::FootstepSlide, attach_to: player, material_of })
            } else {
                None
            }
        },
        ContactRole::Objects => {
            let side = if coin { Side::First } else { Side::Second };
            if !m.loud_enough {
                None
            } else if m.sliding && m.rolling_slower {
                Some(NoisePlan { kind: SampleSelectorType::SurfaceSlide, attach_to: side, material_of: side })
            } else if m.moving {
                Some(NoisePlan { kind: SampleSelectorType::SurfaceImpact, attach_to: side, material_of: side })
            } else {
                None
            }
        },
    }
}

/// The sound of a contact; for two objects a fair coin picks the body the
/// sound comes from.  Whatever the coin shows, the result is the sound for
/// one of its two faces.
pub fn contact_noise_for(c: Contact, first_is_player: bool, m: ContactMotion) -> (r: Option<NoisePlan>)
    ensures
        r == contact_noise(c, first_is_player, m, true) || r == contact_noise(c, first_is_player, m, false),
        c.role == ContactRole::Footstep ==> r == contact_noise(c, first_is_player, m, true),
{
    let coin = if c.role == ContactRole::Objects {
        coin_flip()
    } else {
        true
    };
    contact_noise_with(c, first_is_player, m, coin)
}

/// A sound of two objects comes from, and sounds like, the same body; a
/// footstep follows the player and sounds like the other body.
pub proof fn law_noise_sides(c: Contact, first_is_player: bool, m: ContactMotion, coin: bool)
    ensures
        contact_noise(c, first_is_player, m, coin) matches Some(p) ==> {
            &&& (c.role == ContactRole::Objects ==> p.attach_to == p.material_of)
            &&& (c.role == ContactRole::Footstep ==> {
                &&& p.attach_to == if first_is_player { Side::First } else { Side::Second }
                &&& p.material_of != p.attach_to
            })
        },
{
}

/// Nothing that is too slow or too weak is heard.
pub proof fn law_quiet_contacts_are_silent(c: Contact, first_is_player: bool, m: ContactMotion, coin: bool)
    requires
        !m.fast_enough || !m.audible,
    ensures
        contact_noise(c, first_is_player, m, coin) is None,
{
}


/// Two objects are heard exactly when they meet fast enough, with an
/// audible impulse and loud enough, and are either sliding with the rolling
/// speed below the sliding speed (a slide) or else moving (an impact); how
/// far the player has walked plays no part.
pub proof fn law_object_sounds(c: Contact, first_is_player: bool, m: ContactMotion, coin: bool)
    requires
        c.role == ContactRole::Objects,
    ensures
        contact_noise(c, first_is_player, m, coin) == contact_noise(c, first_is_player, ContactMotion { footstep_due: !m.footstep_due, ..m }, coin),
        contact_noise(c, first_is_player, m, coin) is Some <==> (m.fast_enough && m.audible && m.loud_enough && ((m.sliding && m.rolling_slower) || m.moving)),
        contact_noise(c, first_is_player, m, coin) matches Some(p) ==> {
            &&& p.kind == if m.sliding && m.rolling_slower { SampleSelectorType::SurfaceSlide } else { SampleSelectorType::SurfaceImpact }
            &&& p.attach_to == if coin { Side::First } else { Side::Second }
        },
{
}

/// The player's feet are heard exactly when they meet the ground fast
/// enough, with an audible impulse, once a footstep is due, and either not
/// sliding (a footfall) or sliding while moving (a slide); loudness and
/// the coin play no part.
pub proof fn law_footstep_sounds(c: Contact, first_is_player: bool, m: ContactMotion, coin: bool)
    requires
        c.role == ContactRole::Footstep,
    ensures
        contact_noise(c, first_is_player, m, coin) == contact_noise(c, first_is_player, ContactMotion { loud_enough: !m.loud_enough, rolling_slower: !m.rolling_slower, ..m }, !coin),
        contact_noise(c, first_is_player, m, coin) is Some <==> (m.fast_enough && m.audible && m.footstep_due && (!m.sliding || m.moving)),
        contact_noise(c, first_is_player, m, coin) matches Some(p) ==>
            p.kind == if m.sliding { SampleSelectorType::FootstepSlide } else { SampleSelectorType::FootstepImpact },
{
}

} // verus!
