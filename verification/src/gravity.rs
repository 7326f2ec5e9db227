//! Switching gravity with the player's shortcut keys.
use vstd::prelude::*;

verus! {

/// The gravity settings the player can switch between.
#[derive(Debug, Clone, Copy, PartialEq, Eq, Structural)]
pub enum GravityPreset {
    /// No gravity.
    Off,
    /// A faint pull.
    Tiny,
    /// Half of normal gravity.
    Half,
    /// Earth gravity.
    Normal,
}

/// How the player moves.
#[derive(Debug, Clone, Copy, PartialEq, Eq, Structural)]
pub enum PlayerMode {
    /// Walking, as in a first-person shooter.
    Fps,
    /// Floating freely.
    Space,
}

/// Downward acceleration of a preset, in tenths of a metre per second
/// squared.
pub open spec fn preset_tenths(p: GravityPreset) -> u32 {
    match p {
        GravityPreset::Off => 0,
        GravityPreset::Tiny => 10,
        GravityPreset::Half => 50,
        GravityPreset::Normal => 98,
    }
}

/// The way of moving that goes with a preset: floating when gravity is
/// off or faint, walking otherwise.
pub open spec fn preset_mode(p: GravityPreset) -> PlayerMode {
    match p {
        GravityPreset::Off | GravityPreset::Tiny => PlayerMode::Space,
        GravityPreset::Half | GravityPreset::Normal => PlayerMode::Fps,
    }
}

impl GravityPreset {
    /// Downward acceleration in tenths of a metre per second squared.
    pub fn downward_tenths(&self) -> (t: u32)
        ensures
            t == preset_tenths(*self),
    {
        match self {
            GravityPreset::Off => 0,
            GravityPreset::Tiny => 10,
            GravityPreset::Half => 50,
            GravityPreset::Normal => 98,
        }
    }

    /// The way of moving that goes with this preset.
    pub fn player_mode(&self) -> (m: PlayerMode)
        ensures
            m == preset_mode(*self),
    {
        match self {
            GravityPreset::Off | GravityPreset::Tiny => PlayerMode::Space,
            GravityPreset::Half | GravityPreset::Normal => PlayerMode::Fps,
        }
    }
}

/// The state of one shortcut this tick: `None` when its action is not set
/// up, `Some(started)` otherwise.
pub type ShortcutState = Option<bool>;

/// Applies one shortcut after the earlier ones: a started shortcut selects
/// its preset.
pub open spec fn apply_shortcut(chosen: Option<GravityPreset>, started: bool, preset: GravityPreset) -> Option<GravityPreset> {
    if started {
        Some(preset)
    } else {
        chosen
    }
}

/// The preset that the shortcuts select this tick, checked in the order
/// off, tiny, half, normal; a later started shortcut overrides an earlier
/// one.  Checking stops at the first shortcut that is not set up.
pub open spec fn chosen_preset(off: ShortcutState, tiny: ShortcutState, half: ShortcutState, normal: ShortcutState) -> Option<GravityPreset> {
    match off {
        None => None,
        Some(s0) => {
            let c0 = apply_shortcut(None, s0, GravityPreset::Off);
            match tiny {
                None => c0,
                Some(s1) => {
                    let c1 = apply_shortcut(c0, s1, GravityPreset::Tiny);
                    match half {
                        None => c1,
                        Some(s2) => {
                            let c2 = apply_shortcut(c1, s2, GravityPreset::Half);
                            match normal {
                                None => c2,
                                Some(s3) => apply_shortcut(c2, s3, GravityPreset::Normal),
                            }
                        },
                    }
                },
            }
        },
    }
}

/// The gravity preset selected by the shortcut keys this tick, if any.
/// Nothing changes when there is no gravity setting to change.
pub fn check_actions(
    gravity_present: bool,
    off: ShortcutState,
    tiny: ShortcutState,
    half: ShortcutState,
    normal: ShortcutState,
) -> (r: Option<GravityPreset>)
    ensures
        !gravity_present ==> r is None,
        gravity_present ==> r == chosen_preset(off, tiny, half, normal),
{
    if !gravity_present {
        return None;
    }
    let mut chosen: Option<GravityPreset> = None;
    match off {
        None => return chosen,
        Some(started) => if started {
            chosen = Some(GravityPreset::Off);
        },
    }
    match tiny {
        None => return chosen,
        Some(started) => if started {
            chosen = Some(GravityPreset::Tiny);
        },
    }
    match half {
        None => return chosen,
        Some(started) => if started {
            chosen = Some(GravityPreset::Half);
        },
    }
    match normal {
        None => return chosen,
        Some(started) => if started {
            chosen = Some(GravityPreset::Normal);
        },
    }
    chosen
}

/// Whether the resting-body helper is switched on; off by default.
#[derive(Debug, Clone, Copy, PartialEq, Eq, Structural)]
pub struct ApplySleepHelper(pub bool);

impl Default for ApplySleepHelper {
    fn default() -> (h: Self)
        ensures
            !h.0,
    {
        ApplySleepHelper(false)
    }
}

/// The last started shortcut wins: when the normal-gravity shortcut
/// started (and all four are set up), normal gravity is chosen whatever the
/// others did.
pub proof fn law_last_started_shortcut_wins(s0: bool, s1: bool, s2: bool)
    ensures
        chosen_preset(Some(s0), Some(s1), Some(s2), Some(true)) == Some(GravityPreset::Normal),
        chosen_preset(Some(s0), Some(s1), Some(true), Some(false)) == Some(GravityPreset::Half),
        chosen_preset(Some(s0), Some(true), Some(false), Some(false)) == Some(GravityPreset::Tiny),
{
}

/// Without any started shortcut, gravity is left alone.
pub proof fn law_no_shortcut_no_change(off: ShortcutState, tiny: ShortcutState, half: ShortcutState, normal: ShortcutState)
    requires
        off != Some(true),
        tiny != Some(true),
        half != Some(true),
        normal != Some(true),
    ensures
        chosen_preset(off, tiny, half, normal) is None,
{
}

/// A preset is chosen only through its own started shortcut, with every
/// shortcut checked before it set up, and no later set-up shortcut started.
pub proof fn law_chosen_preset_was_started(off: ShortcutState, tiny: ShortcutState, half: ShortcutState, normal: ShortcutState)
    ensures
        chosen_preset(off, tiny, half, normal) == Some(GravityPreset::Normal) <==> (off is Some && tiny is Some && half is Some && normal == Some(true)),
        chosen_preset(off, tiny, half, normal) == Some(GravityPreset::Half) <==> (off is Some && tiny is Some && half == Some(true) && normal != Some(true)),
        chosen_preset(off, tiny, half, normal) == Some(GravityPreset::Tiny) <==> (off is Some && tiny == Some(true) && (half is None || (half == Some(false) && normal != Some(true)))),
        chosen_preset(off, tiny, half, normal) == Some(GravityPreset::Off) <==> (off == Some(true) && (tiny is None || (tiny == Some(false) && (half is None || (half == Some(false) && normal != Some(true)))))),
{
}

/// Whether the resting-body helper runs: only when it is present and
/// switched on (it is off by default).
pub fn sleep_helper_applies(helper: Option<ApplySleepHelper>) -> (r: bool)
    ensures
        r == (helper matches Some(h) && h.0),
{
    match helper {
        Some(h) => h.0,
        None => false,
    }
}

/// What is known about a body on one tick of the resting-body helper.
/// The measurements behind these facts are made on the engine side.
#[derive(Debug, Clone, Copy, PartialEq, Eq, Structural)]
pub struct RestFacts {
    /// The body's wanted gravity scale (its saved original one, else its
    /// current one) is not zero.
    pub gravity_wanted: bool,
    /// The current scale is smaller in size than the wanted one: the helper
    /// has lowered it.
    pub scale_reduced: bool,
    /// The current scale is zero: the body is fully at rest.
    pub scale_zero: bool,
    /// The body touches something below it that gravity would push it into.
    pub resting_below: bool,
    /// Whether an original scale has been saved, and if so whether gravity
    /// is to come back on the next unsupported tick.
    pub saved: Option<bool>,
}

/// What the helper does to a body.
#[derive(Debug, Clone, Copy, PartialEq, Eq, Structural)]
pub enum RestAction {
    /// Nothing.
    Keep,
    /// Save the wanted scale (the saved one if any, else the current one),
    /// with gravity not yet due back, and lower the current scale.
    Rest,
    /// Nothing is below any more: gravity comes back on the next such tick.
    ArmRestore,
    /// Nothing is below for the second tick: put the saved scale back and
    /// forget it.
    Restore,
}

/// The helper's rule.  Bodies that want no gravity are left alone.  A body
/// resting on something is put to rest, unless it already is.  A body the
/// helper has lowered that rests on nothing gets its gravity back, but only
/// on the second such tick in a row.
pub open spec fn rest_rule(f: RestFacts) -> RestAction {
    if !f.gravity_wanted {
        RestAction::Keep
    } else if f.resting_below {
        if f.scale_zero {
            RestAction::Keep
        } else {
            RestAction::Rest
        }
    } else if f.scale_reduced {
        match f.saved {
            None => RestAction::Keep,
            Some(false) => RestAction::ArmRestore,
            Some(true) => RestAction::Restore,
        }
    } else {
        RestAction::Keep
    }
}

/// One tick of the resting-body helper for one body.
pub fn sleep_step(f: RestFacts) -> (a: RestAction)
    ensures
        a == rest_rule(f),
{
    if !f.gravity_wanted {
        return RestAction::Keep;
    }
    if f.resting_below {
        if f.scale_zero {
            RestAction::Keep
        } else {
            RestAction::Rest
        }
    } else if f.scale_reduced {
        match f.saved {
            None => RestAction::Keep,
            Some(restore_next_time) => if restore_next_time {
                RestAction::Restore
            } else {
                RestAction::ArmRestore
            },
        }
    } else {
        RestAction::Keep
    }
}

/// A body's saved original gravity scale (`T` is the engine's scale type).
#[derive(Debug, Clone, Copy, PartialEq, Eq)]
pub struct SavedScale<T> {
    pub orig_scale: T,
    /// Gravity comes back on the next tick without support.
    pub restore_next_time: bool,
}

/// What is saved after an action, given what was saved before and the
/// body's current scale.
pub open spec fn saved_after<T>(a: RestAction, saved: Option<SavedScale<T>>, current: T) -> Option<SavedScale<T>> {
    match a {
        RestAction::Keep => saved,
        RestAction::Rest => Some(SavedScale {
            orig_scale: match saved {
                Some(s) => s.orig_scale,
                None => current,
            },
            restore_next_time: false,
        }),
        RestAction::ArmRestore => match saved {
            Some(s) => Some(SavedScale { orig_scale: s.orig_scale, restore_next_time: true }),
            None => None,
        },
        RestAction::Restore => None,
    }
}

/// The scale that an action sets the body to, when it is not computed by
/// the engine (resting lowers the scale there): a restore puts the saved
/// scale back.
pub open spec fn restored_scale<T>(a: RestAction, saved: Option<SavedScale<T>>) -> Option<T> {
    match (a, saved) {
        (RestAction::Restore, Some(s)) => Some(s.orig_scale),
        _ => None,
    }
}

/// Applies an action to what is saved: the new saved scale, and the scale
/// to put back if the action restores one.
pub fn apply_rest<T: Copy>(a: RestAction, saved: Option<SavedScale<T>>, current: T) -> (r: (Option<SavedScale<T>>, Option<T>))
    ensures
        r.0 == saved_after(a, saved, current),
        r.1 == restored_scale(a, saved),
{
    match a {
        RestAction::Keep => (saved, None),
        RestAction::Rest => {
            let orig_scale = match saved {
                Some(s) => s.orig_scale,
                None => current,
            };
            (Some(SavedScale { orig_scale, restore_next_time: false }), None)
        },
        RestAction::ArmRestore => match saved {
            Some(s) => (Some(SavedScale { orig_scale: s.orig_scale, restore_next_time: true }), None),
            None => (None, None),
        },
        RestAction::Restore => match saved {
            Some(s) => (None, Some(s.orig_scale)),
            None => (None, None),
        },
    }
}

/// What clearing the helper's overrides does to a body.
#[derive(Debug, Clone, Copy, PartialEq, Eq, Structural)]
pub enum ResetAction {
    /// Nothing was saved: leave the body alone.
    Keep,
    /// Set the body's scale to the saved one.
    SetSaved,
    /// The saved scale is the default one: drop both the saved and the
    /// current scale.
    ClearBoth,
}

/// When the helper is switched on or off, each body with a saved scale gets
/// it back: as an explicit scale, or, when it is the default of one, by
/// dropping the overrides.
pub fn reset_step(saved: bool, saved_is_one: bool) -> (a: ResetAction)
    ensures
        !saved ==> a == ResetAction::Keep,
        saved && !saved_is_one ==> a == ResetAction::SetSaved,
        saved && saved_is_one ==> a == ResetAction::ClearBoth,
{
    if !saved {
        ResetAction::Keep
    } else if saved_is_one {
        ResetAction::ClearBoth
    } else {
        ResetAction::SetSaved
    }
}

/// Gravity comes back on the second unsupported tick, not the first: a
/// lowered body with a saved scale that rests on nothing is first armed,
/// and on the next such tick gets its saved scale back and forgets it.
pub proof fn law_gravity_returns_on_second_unsupported_step<T>(f: RestFacts, s: SavedScale<T>, current: T, later: T)
    requires
        f.gravity_wanted,
        !f.resting_below,
        f.scale_reduced,
        !s.restore_next_time,
        f.saved == Some(false),
    ensures
        rest_rule(f) == RestAction::ArmRestore,
        restored_scale(RestAction::ArmRestore, Some(s)) is None,
        ({
            let armed = saved_after(RestAction::ArmRestore, Some(s), current);
            let f2 = RestFacts { saved: Some(true), ..f };
            &&& armed == Some(SavedScale { orig_scale: s.orig_scale, restore_next_time: true })
            &&& rest_rule(f2) == RestAction::Restore
            &&& restored_scale(RestAction::Restore, armed) == Some(s.orig_scale)
            &&& saved_after(RestAction::Restore, armed, later) is None
        }),
{
}

/// The saved scale is never a lowered one: once a scale is saved, every
/// action keeps it (resting again does not overwrite it with the current,
/// lowered scale) until it is restored and forgotten.
pub proof fn law_saved_scale_is_never_a_reduced_one<T>(a: RestAction, s: SavedScale<T>, current: T)
    ensures
        saved_after(a, Some(s), current) is None || saved_after(a, Some(s), current).unwrap().orig_scale == s.orig_scale,
        saved_after(a, Some(s), current) is None ==> a == RestAction::Restore,
{
}

/// A body that wants no gravity is never touched.
pub proof fn law_weightless_bodies_are_left_alone(f: RestFacts)
    requires
        !f.gravity_wanted,
    ensures
        rest_rule(f) == RestAction::Keep,
{
}


/// A body that wants gravity and rests on something is lowered again on
/// every tick until its scale reaches zero, whether or not it was lowered
/// before; a supported body never gets its gravity back, and one at zero
/// scale is left as it is.
pub proof fn law_supported_bodies_keep_sinking(f: RestFacts)
    requires
        f.gravity_wanted,
        f.resting_below,
    ensures
        rest_rule(f) == if f.scale_zero { RestAction::Keep } else { RestAction::Rest },
        rest_rule(f) != RestAction::ArmRestore,
        rest_rule(f) != RestAction::Restore,
        rest_rule(f) == rest_rule(RestFacts { scale_reduced: !f.scale_reduced, saved: None, ..f }),
{
}

/// Gravity is given back, or armed to come back, only to a body the helper
/// has lowered, that wants gravity, rests on nothing and has a saved scale:
/// armed when it was not yet armed, restored when it was.
pub proof fn law_only_lowered_unsupported_bodies_wake(f: RestFacts)
    ensures
        rest_rule(f) == RestAction::Restore <==> (f.gravity_wanted && !f.resting_below && f.scale_reduced && f.saved == Some(true)),
        rest_rule(f) == RestAction::ArmRestore <==> (f.gravity_wanted && !f.resting_below && f.scale_reduced && f.saved == Some(false)),
        rest_rule(f) == RestAction::Rest <==> (f.gravity_wanted && f.resting_below && !f.scale_zero),
{
}

/// Resting always disarms: whatever was saved before, a resting tick
/// leaves the wanted scale (the saved one if any, else the current one)
/// saved with gravity not due back, and puts no scale back.
pub proof fn law_resting_disarms<T>(saved: Option<SavedScale<T>>, current: T)
    ensures
        saved_after(RestAction::Rest, saved, current) == Some(SavedScale {
            orig_scale: if saved is Some { saved.unwrap().orig_scale } else { current },
            restore_next_time: false,
        }),
        restored_scale(RestAction::Rest, saved) is None,
{
}

/// After a resting tick, a single tick without support never gives gravity
/// back: it only arms the restore, and the saved scale stays.
pub proof fn law_one_unsupported_tick_after_rest_only_arms<T>(saved: Option<SavedScale<T>>, current: T, later: T, f: RestFacts)
    requires
        f.gravity_wanted,
        !f.resting_below,
        f.scale_reduced,
        f.saved == Some(saved_after(RestAction::Rest, saved, current).unwrap().restore_next_time),
    ensures
        rest_rule(f) == RestAction::ArmRestore,
        restored_scale(rest_rule(f), saved_after(RestAction::Rest, saved, current)) is None,
        saved_after(rest_rule(f), saved_after(RestAction::Rest, saved, current), later) is Some,
{
}

} // verus!
