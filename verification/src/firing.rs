//! The decisions behind firing a projectile: what happens when the fire
//! button is pressed, held, released or cancelled.  The physics (power
//! curve, positions, velocities) is computed by the engine side; here each
//! step gets the facts it depends on and says what is to be done.
use vstd::prelude::*;

verus! {

/// What is launched when firing.
#[derive(Debug, Clone, Copy, PartialEq, Eq, Structural)]
pub enum FiredItem {
    /// The item the player is holding.
    Grabbed,
    /// The translucent preview projectile ("ghost").
    Preview,
    /// A projectile made on the spot.
    New,
}

/// One step of a firing, in the order in which it is carried out.
#[derive(Debug, Clone, Copy, PartialEq, Eq, Structural)]
pub enum FireEffect {
    /// Reset the accumulated firing power (after reading it).
    ClearPower,
    /// Remove the preview projectile.
    DespawnGhost,
    /// Play the "cannot fire here" sound.
    PlayCannotSound,
    /// Fire from where the held item is, keeping the aim's rotation.
    UseGrabbedTransform,
    /// Push the player back.
    ApplyRecoil,
    /// Let go of the held item, handing it the projectile's velocity.
    ReleaseGrabbed,
    /// The held item is gone: abandon the grab.
    CancelGrab,
    /// Turn the preview projectile into the real one.
    PromoteGhost,
    /// Make a projectile at the firing position.
    SpawnProjectile,
    /// Put the projectile into the world as a physical body, with a light.
    MakePhysical,
    /// Give the fired item its linear and angular velocity.
    Launch(FiredItem),
    /// Play the release sound.
    PlayReleaseSound,
}

/// The facts that firing depends on.
#[derive(Debug, Clone, Copy, PartialEq, Eq, Structural)]
pub struct FireSituation {
    /// The player's firing position and aim can be found.
    pub has_fire_transform: bool,
    /// A preview projectile exists.
    pub has_ghost: bool,
    /// Nothing is in the way at the firing position.
    pub ghost_is_free: bool,
    /// The player holds an item.
    pub has_grabbed: bool,
    /// The player's body can be pushed.
    pub player_forces_available: bool,
    /// The held item still is a rigid body.
    pub grabbed_is_rigid: bool,
}

/// The steps of a firing, from the situation at release time.
pub open spec fn fire_plan(s: FireSituation) -> Seq<FireEffect> {
    if !s.has_fire_transform {
        // No player to fire from.
        if s.has_ghost {
            seq![FireEffect::ClearPower, FireEffect::DespawnGhost]
        } else {
            seq![FireEffect::ClearPower]
        }
    } else if s.has_ghost && !s.ghost_is_free {
        // Blocked: refuse, and remove the preview.
        seq![FireEffect::ClearPower, FireEffect::PlayCannotSound, FireEffect::DespawnGhost]
    } else {
        let aim = if !s.has_ghost && s.has_grabbed {
            seq![FireEffect::ClearPower, FireEffect::UseGrabbedTransform]
        } else {
            seq![FireEffect::ClearPower]
        };
        if !s.player_forces_available {
            aim
        } else if s.has_grabbed {
            if s.grabbed_is_rigid {
                aim + seq![
                    FireEffect::ApplyRecoil,
                    FireEffect::ReleaseGrabbed,
                    FireEffect::PlayReleaseSound,
                    FireEffect::Launch(FiredItem::Grabbed),
                    FireEffect::PlayReleaseSound,
                ]
            } else {
                aim + seq![FireEffect::ApplyRecoil, FireEffect::CancelGrab]
            }
        } else if s.has_ghost {
            aim + seq![
                FireEffect::ApplyRecoil,
                FireEffect::PromoteGhost,
                FireEffect::MakePhysical,
                FireEffect::Launch(FiredItem::Preview),
                FireEffect::PlayReleaseSound,
            ]
        } else {
            aim + seq![
                FireEffect::ApplyRecoil,
                FireEffect::SpawnProjectile,
                FireEffect::MakePhysical,
                FireEffect::Launch(FiredItem::New),
                FireEffect::PlayReleaseSound,
            ]
        }
    }
}

/// Firing on release of the fire button: what is launched, and how.
/// The accumulated power is always cleared; without a player nothing is
/// fired; a blocked preview is refused; a held item takes precedence over
/// the preview, which takes precedence over a projectile made on the spot.
pub fn fire_projectile(s: FireSituation) -> (effects: Vec<FireEffect>)
    ensures
        effects@ == fire_plan(s),
{
    let mut effects: Vec<FireEffect> = Vec::new();
    effects.push(FireEffect::ClearPower);
    if !s.has_fire_transform {
        if s.has_ghost {
            effects.push(FireEffect::DespawnGhost);
        }
        return effects;
    }
    if s.has_ghost {
        if !s.ghost_is_free {
            effects.push(FireEffect::PlayCannotSound);
            effects.push(FireEffect::DespawnGhost);
            return effects;
        }
    } else if s.has_grabbed {
        effects.push(FireEffect::UseGrabbedTransform);
    }
    let ghost aim = effects@;
    if !s.player_forces_available {
        return effects;
    }
    effects.push(FireEffect::ApplyRecoil);
    let item;
    if s.has_grabbed {
        if s.grabbed_is_rigid {
            effects.push(FireEffect::ReleaseGrabbed);
            effects.push(FireEffect::PlayReleaseSound);
            item = FiredItem::Grabbed;
        } else {
            effects.push(FireEffect::CancelGrab);
            assert(effects@ =~= aim + seq![FireEffect::ApplyRecoil, FireEffect::CancelGrab]);
            return effects;
        }
    } else if s.has_ghost {
        effects.push(FireEffect::PromoteGhost);
        item = FiredItem::Preview;
    } else {
        effects.push(FireEffect::SpawnProjectile);
        item = FiredItem::New;
    }
    if !s.has_grabbed {
        effects.push(FireEffect::MakePhysical);
    }
    effects.push(FireEffect::Launch(item));
    effects.push(FireEffect::PlayReleaseSound);
    proof {
        if s.has_grabbed {
            assert(effects@ =~= aim + seq![
                FireEffect::ApplyRecoil,
                FireEffect::ReleaseGrabbed,
                FireEffect::PlayReleaseSound,
                FireEffect::Launch(FiredItem::Grabbed),
                FireEffect::PlayReleaseSound,
            ]);
        } else if s.has_ghost {
            assert(effects@ =~= aim + seq![
                FireEffect::ApplyRecoil,
                FireEffect::PromoteGhost,
                FireEffect::MakePhysical,
                FireEffect::Launch(FiredItem::Preview),
                FireEffect::PlayReleaseSound,
            ]);
        } else {
            assert(effects@ =~= aim + seq![
                FireEffect::ApplyRecoil,
                FireEffect::SpawnProjectile,
                FireEffect::MakePhysical,
                FireEffect::Launch(FiredItem::New),
                FireEffect::PlayReleaseSound,
            ]);
        }
    }
    effects
}

/// How the preview projectile is shown while power builds up.
#[derive(Debug, Clone, Copy, PartialEq, Eq, Structural)]
pub enum GhostStyle {
    /// Firing from here is possible: no warning outline.
    Legal,
    /// Something is in the way: show the warning outline.
    Blocked,
}

/// Per-tick update of the preview projectile: nothing unless firing is
/// under way, the preview exists and the firing position is known; then
/// the preview is styled by whether it is free, and moved towards the
/// firing position.
pub fn update_queued_projectile(firing_active: bool, has_ghost: bool, has_fire_transform: bool, is_free: bool) -> (r: Option<GhostStyle>)
    ensures
        !(firing_active && has_ghost && has_fire_transform) ==> r is None,
        firing_active && has_ghost && has_fire_transform ==> r == Some(if is_free { GhostStyle::Legal } else { GhostStyle::Blocked }),
{
    if !firing_active || !has_ghost || !has_fire_transform {
        return None;
    }
    if is_free {
        Some(GhostStyle::Legal)
    } else {
        Some(GhostStyle::Blocked)
    }
}

/// Preparing the preview projectile when firing starts.
#[derive(Debug, Clone, Copy, PartialEq, Eq, Structural)]
pub struct PreparePlan {
    /// Remove the previous preview first.
    pub despawn_old_ghost: bool,
    /// Make a new preview at the firing position.
    pub spawn_ghost: bool,
}

/// An existing preview is replaced; a new one is made only where the
/// firing position is known.
pub fn prepare_projectile(has_ghost: bool, has_fire_transform: bool) -> (p: PreparePlan)
    ensures
        p.despawn_old_ghost == has_ghost,
        p.spawn_ghost == has_fire_transform,
{
    PreparePlan { despawn_old_ghost: has_ghost, spawn_ghost: has_fire_transform }
}

/// What becomes of the preview when firing is cancelled.
#[derive(Debug, Clone, Copy, PartialEq, Eq, Structural)]
pub enum CancelAction {
    /// There is no preview.
    Nothing,
    /// Let it drop and shrink away, then remove it.
    ShrinkAway,
    /// Remove it at once.
    Despawn,
}

/// A preview with a known position is animated away; one without is
/// removed at once.
pub fn cancel_projectile(has_ghost: bool, has_transform: bool) -> (a: CancelAction)
    ensures
        !has_ghost ==> a == CancelAction::Nothing,
        has_ghost && has_transform ==> a == CancelAction::ShrinkAway,
        has_ghost && !has_transform ==> a == CancelAction::Despawn,
{
    if !has_ghost {
        CancelAction::Nothing
    } else if has_transform {
        CancelAction::ShrinkAway
    } else {
        CancelAction::Despawn
    }
}

/// Pressing the fire button.
#[derive(Debug, Clone, Copy, PartialEq, Eq, Structural)]
pub struct StartPlan {
    /// Start accumulating power.
    pub start_power: bool,
    /// Prepare the preview projectile.
    pub prepare_ghost: bool,
}

/// Firing starts only while the alternate fire button is idle; the
/// preview is prepared only when the player holds nothing.
pub fn on_firing_start(alt_fire_idle: bool, has_grabbed: bool) -> (p: StartPlan)
    ensures
        p.start_power == alt_fire_idle,
        p.prepare_ghost == (alt_fire_idle && !has_grabbed),
{
    StartPlan { start_power: alt_fire_idle, prepare_ghost: alt_fire_idle && !has_grabbed }
}

/// Every firing clears the accumulated power first.
pub proof fn law_firing_always_clears_power(s: FireSituation)
    ensures
        fire_plan(s).len() >= 1,
        fire_plan(s)[0] == FireEffect::ClearPower,
{
}

/// At most one item is launched, and only when firing was possible: from
/// a known position, with a free firing spot, and a pushable player.
pub proof fn law_launch_only_when_possible(s: FireSituation, item: FiredItem)
    ensures
        fire_plan(s).contains(FireEffect::Launch(item)) ==> {
            &&& s.has_fire_transform
            &&& s.player_forces_available
            &&& (s.has_ghost ==> s.ghost_is_free)
            &&& (item == FiredItem::Grabbed <==> s.has_grabbed)
            &&& (item == FiredItem::Preview ==> s.has_ghost)
        },
{
    let p = fire_plan(s);
    if p.contains(FireEffect::Launch(item)) {
        let i = choose|i: int| 0 <= i < p.len() && p[i] == FireEffect::Launch(item);
        assert(p[i] == FireEffect::Launch(item));
    }
}


/// Whether a held item is still a rigid body matters only when an item is
/// held: with nothing held, the plan is the same either way.
pub proof fn law_rigidity_matters_only_when_holding(s: FireSituation, rigid: bool)
    requires
        !s.has_grabbed,
    ensures
        fire_plan(s) == fire_plan(FireSituation { grabbed_is_rigid: rigid, ..s }),
{
}

/// A firing that is possible launches something: from a known position,
/// with a free firing spot (or no preview), a pushable player, and a held
/// item (if any) that is still rigid, the held item is launched, else the
/// preview, else a new projectile; the release sound plays, the player is
/// pushed back, and the grab is never abandoned.
pub proof fn law_possible_firing_launches(s: FireSituation)
    requires
        s.has_fire_transform,
        s.has_ghost ==> s.ghost_is_free,
        s.player_forces_available,
        s.has_grabbed ==> s.grabbed_is_rigid,
    ensures
        ({
            let item = if s.has_grabbed {
                FiredItem::Grabbed
            } else if s.has_ghost {
                FiredItem::Preview
            } else {
                FiredItem::New
            };
            let p = fire_plan(s);
            &&& p.contains(FireEffect::Launch(item))
            &&& p.contains(FireEffect::ApplyRecoil)
            &&& p.contains(FireEffect::PlayReleaseSound)
            &&& !p.contains(FireEffect::CancelGrab)
            &&& !p.contains(FireEffect::DespawnGhost)
            &&& !p.contains(FireEffect::PlayCannotSound)
            &&& (item == FiredItem::Preview ==> p.contains(FireEffect::PromoteGhost) && p.contains(FireEffect::MakePhysical))
            &&& (item == FiredItem::New ==> p.contains(FireEffect::SpawnProjectile) && p.contains(FireEffect::MakePhysical))
            &&& (item == FiredItem::Grabbed ==> p.contains(FireEffect::ReleaseGrabbed))
        }),
{
    let p = fire_plan(s);
    let aim = if !s.has_ghost && s.has_grabbed {
        seq![FireEffect::ClearPower, FireEffect::UseGrabbedTransform]
    } else {
        seq![FireEffect::ClearPower]
    };
    let k = aim.len() as int;
    assert(p[k] == FireEffect::ApplyRecoil);
    if s.has_grabbed {
        assert(p[k + 1] == FireEffect::ReleaseGrabbed);
        assert(p[k + 2] == FireEffect::PlayReleaseSound);
        assert(p[k + 3] == FireEffect::Launch(FiredItem::Grabbed));
    } else {
        assert(p[k + 1] == if s.has_ghost { FireEffect::PromoteGhost } else { FireEffect::SpawnProjectile });
        assert(p[k + 2] == FireEffect::MakePhysical);
        assert(p[k + 3] == FireEffect::Launch(if s.has_ghost { FiredItem::Preview } else { FiredItem::New }));
        assert(p[k + 4] == FireEffect::PlayReleaseSound);
    }
    assert(!p.contains(FireEffect::CancelGrab));
    assert(!p.contains(FireEffect::DespawnGhost));
    assert(!p.contains(FireEffect::PlayCannotSound));
}

/// The grab is abandoned, and nothing launched, exactly when firing is
/// otherwise possible but the held item is no longer a rigid body.
pub proof fn law_grab_abandoned_only_for_lost_item(s: FireSituation, item: FiredItem)
    ensures
        fire_plan(s).contains(FireEffect::CancelGrab) <==> {
            &&& s.has_fire_transform
            &&& (s.has_ghost ==> s.ghost_is_free)
            &&& s.player_forces_available
            &&& s.has_grabbed
            &&& !s.grabbed_is_rigid
        },
        fire_plan(s).contains(FireEffect::CancelGrab) ==> !fire_plan(s).contains(FireEffect::Launch(item)),
{
    let p = fire_plan(s);
    if s.has_fire_transform && (s.has_ghost ==> s.ghost_is_free) && s.player_forces_available && s.has_grabbed && !s.grabbed_is_rigid {
        let aim = if !s.has_ghost && s.has_grabbed {
            seq![FireEffect::ClearPower, FireEffect::UseGrabbedTransform]
        } else {
            seq![FireEffect::ClearPower]
        };
        assert(p[aim.len() as int + 1] == FireEffect::CancelGrab);
        assert(!p.contains(FireEffect::Launch(item)));
    } else {
        assert(!p.contains(FireEffect::CancelGrab));
    }
}

} // verus!
