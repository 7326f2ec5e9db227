use boom_cubes::firing::{
    cancel_projectile, fire_projectile, on_firing_start, prepare_projectile, update_queued_projectile,
    CancelAction, FireEffect, FireSituation, FiredItem, GhostStyle,
};
use boom_cubes::game::{CurrentScore, Difficulty, LevelDifficulty};
use boom_cubes::gravity::{
    apply_rest, check_actions, reset_step, sleep_helper_applies, sleep_step, ApplySleepHelper, GravityPreset, PlayerMode,
    ResetAction, RestAction, RestFacts, SavedScale,
};
use boom_cubes::layout::{box_cells, cube_stack_cells, floor_cells, is_loose_furniture, MakeDynamic, MakeDynamicStep};
use boom_cubes::levels::{ensure_levels, setup_level, LevelList};
use boom_cubes::noise::{
    classify_contact, contact_noise_for, contact_noise_with, resolve_surface, Contact, ContactFacts, ContactMotion,
    ContactRole, NoisePlan, Side,
};
use boom_cubes::palette::{PaletteError, PaletteMaterialHandles, PaletteResolution};
use boom_cubes::progress::{
    advance_level, check_lost_level, level_loaded, level_spawn_finished, level_spawn_started, lost_level_message,
    update_current_score, won_level_message, FlowCommand, GameplayState, LevelProgress, LevelState, OverlayState,
    ProgramState, ScoreDisplay, END_LEVEL_DELAY_SECS,
};
use boom_cubes::retime::{RetimeStep, RetimedSamples};
use boom_cubes::sound::{SampleSelector, SampleSelectorType};
use boom_cubes::text::{compare_chars, contains_char, starts_with_chars};
use rustc_hash::FxHashMap;

// ---- game ----

#[test]
fn difficulty_defaults_to_normal() {
    assert_eq!(Difficulty::default(), Difficulty::Normal);
    assert_eq!(LevelDifficulty::default(), LevelDifficulty(Difficulty::Normal));
    assert_eq!(CurrentScore::default().score, 0);
}

#[test]
fn difficulty_labels_and_variants() {
    assert_eq!(Difficulty::variants(), vec![Difficulty::Easy, Difficulty::Normal, Difficulty::Hard]);
    assert_eq!(Difficulty::Easy.label(), "Easy");
    assert_eq!(Difficulty::Normal.label(), "Normal");
    assert_eq!(Difficulty::Hard.label(), "Hard");
}

// ---- text ----

#[test]
fn compare_chars_orders_lexicographically() {
    assert_eq!(compare_chars("level0", "level1"), -1);
    assert_eq!(compare_chars("level1", "level0"), 1);
    assert_eq!(compare_chars("level1", "level1"), 0);
    assert_eq!(compare_chars("level", "level1"), -1);
    assert_eq!(compare_chars("level10", "level2"), -1);
    assert_eq!(compare_chars("", ""), 0);
    assert_eq!(compare_chars("é", "z"), 1);
}

#[test]
fn prefix_and_char_search() {
    assert!(starts_with_chars("SchoolChair_1", "SchoolChair"));
    assert!(!starts_with_chars("School", "SchoolChair"));
    assert!(contains_char("a_b", '_'));
    assert!(!contains_char("ab", '_'));
}

// ---- levels ----

fn list_of(ids: &[(&str, u32)]) -> LevelList<u32> {
    let mut l = LevelList::new();
    for (id, scene) in ids {
        l.register_level(id.to_string(), format!("Label {id}"), *scene);
    }
    l
}

fn ids_scenes(l: &LevelList<u32>) -> Vec<(String, u32)> {
    l.0.iter().map(|i| (i.id.clone(), i.scene)).collect()
}

#[test]
fn ensure_levels_sorts_by_id() {
    let mut l = list_of(&[("level2", 2), ("level0", 0), ("level6", 6), ("level1", 1), ("level5", 5)]);
    ensure_levels(&mut l);
    let ids: Vec<String> = l.0.iter().map(|i| i.id.clone()).collect();
    assert_eq!(ids, vec!["level0", "level1", "level2", "level5", "level6"]);
    assert_eq!(l.0[0].label, "Label level0");
}

#[test]
fn ensure_levels_is_stable() {
    let mut l = list_of(&[("b", 1), ("a", 2), ("b", 3), ("a", 4)]);
    ensure_levels(&mut l);
    assert_eq!(
        ids_scenes(&l),
        vec![("a".to_string(), 2), ("a".to_string(), 4), ("b".to_string(), 1), ("b".to_string(), 3)]
    );
}

#[test]
fn ensure_levels_keeps_sorted_list() {
    let mut l = list_of(&[("level0", 0), ("level1", 1), ("level2", 2)]);
    ensure_levels(&mut l);
    assert_eq!(ids_scenes(&l), vec![("level0".to_string(), 0), ("level1".to_string(), 1), ("level2".to_string(), 2)]);
    let mut e: LevelList<u32> = LevelList::new();
    ensure_levels(&mut e);
    assert_eq!(e.len(), 0);
}

#[test]
fn setup_level_selects_by_index() {
    let l = list_of(&[("level0", 10), ("level1", 11)]);
    assert_eq!(setup_level(&l, 1).map(|i| i.scene), Some(11));
    assert!(setup_level(&l, 2).is_none());
}

// ---- progress ----

#[test]
fn spawn_commands() {
    assert_eq!(
        level_spawn_started(),
        vec![
            FlowCommand::Level(LevelState::Initializing),
            FlowCommand::Overlay(OverlayState::Loading),
            FlowCommand::MenuPaused(true)
        ]
    );
    assert_eq!(
        level_spawn_finished(),
        vec![
            FlowCommand::Overlay(OverlayState::Hidden),
            FlowCommand::Level(LevelState::LevelLoaded),
            FlowCommand::MenuPaused(false)
        ]
    );
    assert_eq!(level_loaded(), vec![FlowCommand::Level(LevelState::Configuring)]);
    assert_eq!(
        advance_level(),
        vec![FlowCommand::Overlay(OverlayState::Loading), FlowCommand::Gameplay(GameplayState::Setup)]
    );
}

#[test]
fn end_level_messages() {
    assert_eq!(won_level_message(), "Passed!");
    assert_eq!(lost_level_message(), "Failed...\nTry again!");
    assert_eq!(END_LEVEL_DELAY_SECS, 3);
}

#[test]
fn lost_level_restarts_after_countdown() {
    assert!(check_lost_level(false).is_empty());
    assert_eq!(check_lost_level(true), vec![FlowCommand::Level(LevelState::Advance)]);
}

#[test]
fn winning_moves_to_next_level() {
    let mut p = LevelProgress::new();
    assert!(p.check_won_level(false, 3).is_empty());
    assert_eq!(p, LevelProgress::new());
    assert_eq!(p.check_won_level(true, 3), vec![FlowCommand::Level(LevelState::Advance)]);
    assert_eq!(p.next_level_index, Some(1));
    assert_eq!(p.level_index, 0);
    assert_eq!(p.check_next_level(), vec![FlowCommand::Program(ProgramState::InGame)]);
    assert_eq!(p, LevelProgress { level_index: 1, next_level_index: None });
    assert!(p.check_next_level().is_empty());
}

#[test]
fn winning_last_level_completes_game() {
    let mut p = LevelProgress { level_index: 2, next_level_index: None };
    assert_eq!(
        p.check_won_level(true, 3),
        vec![
            FlowCommand::Program(ProgramState::Completed),
            FlowCommand::Level(LevelState::Initializing),
            FlowCommand::Gameplay(GameplayState::Done),
            FlowCommand::Overlay(OverlayState::GameOverScreen)
        ]
    );
    assert_eq!(p.level_index, 0);
}

#[test]
fn winning_streak_visits_each_level() {
    let mut p = LevelProgress::new();
    let mut seen = vec![p.level_index];
    for _ in 0..3 {
        p.check_won_level(true, 3);
        p.check_next_level();
        seen.push(p.level_index);
    }
    assert_eq!(seen, vec![0, 1, 2, 0]);
}

#[test]
fn score_display() {
    assert_eq!(update_current_score(false, true), ScoreDisplay::Clear);
    assert_eq!(update_current_score(true, true), ScoreDisplay::ClearNeutral);
    assert_eq!(update_current_score(true, false), ScoreDisplay::Unchanged);
}

// ---- sound ----

fn table(entries: &[(u32, Vec<u64>)]) -> FxHashMap<u32, Vec<u64>> {
    let mut m = FxHashMap::default();
    for (k, v) in entries {
        m.insert(*k, v.clone());
    }
    m
}

#[test]
fn pick_sample_from_single_candidate() {
    let mut s = SampleSelector::new(
        table(&[(1, vec![7])]),
        table(&[]),
        table(&[(2, vec![])]),
        table(&[(1, vec![9])]),
    );
    assert_eq!(s.pick_sample(SampleSelectorType::SurfaceImpact, 1), Some(7));
    // A repeat is allowed once every retry has landed on it.
    assert_eq!(s.pick_sample(SampleSelectorType::SurfaceImpact, 1), Some(7));
    assert_eq!(s.pick_sample(SampleSelectorType::FootstepSlide, 1), Some(9));
    assert_eq!(s.pick_sample(SampleSelectorType::SurfaceSlide, 1), None);
    assert_eq!(s.pick_sample(SampleSelectorType::FootstepImpact, 2), None);
    assert_eq!(s.pick_sample(SampleSelectorType::SurfaceImpact, 3), None);
}

#[test]
fn pick_sample_avoids_recent_repeat_when_possible() {
    // With many candidates, a repeat would need nine draws in a row among
    // the few recent picks, which is practically impossible.
    let candidates: Vec<u64> = (0..1000).collect();
    let mut s = SampleSelector::new(table(&[(4, candidates)]), table(&[]), table(&[]), table(&[]))
        .set_repeat_limit(100);
    let mut picks = vec![];
    for _ in 0..10 {
        let p = s.pick_sample(SampleSelectorType::SurfaceImpact, 4).unwrap();
        assert!(!picks.contains(&p));
        picks.push(p);
    }
    assert_eq!(s.lru.len(), 10);
    assert!(s.lru.iter().map(|k| k.1).eq(picks.iter().copied()));
}

#[test]
fn take_draw_retries_recent_picks() {
    let ty = SampleSelectorType::SurfaceImpact;
    let mut s = SampleSelector::new(table(&[]), table(&[]), table(&[]), table(&[]));
    // A fresh draw is taken and remembered.
    assert!(s.take_draw(ty, 5, 8));
    assert!(s.lru.iter().copied().eq([(ty, 5)]));
    // The same draw again is refused while retries are left, and nothing is remembered.
    assert!(!s.take_draw(ty, 5, 8));
    assert!(s.lru.iter().copied().eq([(ty, 5)]));
    // The same sample for another kind of sound is no repeat.
    assert!(s.take_draw(SampleSelectorType::FootstepSlide, 5, 8));
    // With no retries left, a repeat is taken anyway.
    assert!(s.take_draw(ty, 5, 0));
    assert!(s.lru.iter().copied().eq([(ty, 5), (SampleSelectorType::FootstepSlide, 5), (ty, 5)]));
    // A full history (four picks) is forgotten before the draw is judged.
    assert!(s.take_draw(ty, 6, 8));
    assert_eq!(s.lru.len(), 4);
    assert!(s.take_draw(ty, 5, 8));
    assert!(s.lru.iter().copied().eq([(ty, 5)]));
}

#[test]
fn pick_sample_stays_within_candidates() {
    let mut s = SampleSelector::new(table(&[(4, vec![1, 2, 3])]), table(&[]), table(&[]), table(&[]))
        .set_repeat_limit(2);
    for _ in 0..50 {
        let p = s.pick_sample(SampleSelectorType::SurfaceImpact, 4).unwrap();
        assert!([1, 2, 3].contains(&p));
    }
}

#[test]
fn retimed_cache_flow() {
    let mut c = RetimedSamples::new(2).with_save_files(false);
    assert!(!c.save_files);
    // A factor of one needs no stretching: the source is used and remembered.
    assert_eq!(c.begin_fetch(5, 0x3f80_0000, true), RetimeStep::Ready(5));
    assert_eq!(c.begin_fetch(5, 0x3f80_0000, false), RetimeStep::Ready(5));
    // Another factor has to be stretched.
    assert_eq!(c.begin_fetch(5, 0x3f00_0000, false), RetimeStep::NeedsRetime);
    assert_eq!(c.finish_fetch(5, 0x3f00_0000, None), None);
    assert_eq!(c.begin_fetch(5, 0x3f00_0000, false), RetimeStep::NeedsRetime);
    assert_eq!(c.finish_fetch(5, 0x3f00_0000, Some(42)), Some(42));
    assert_eq!(c.begin_fetch(5, 0x3f00_0000, false), RetimeStep::Ready(42));
}

#[test]
fn retimed_cache_evicts_least_recent() {
    let mut c = RetimedSamples::new(0);
    assert_eq!(c.finish_fetch(1, 10, Some(100)), Some(100));
    assert_eq!(c.finish_fetch(2, 10, Some(200)), Some(200));
    assert_eq!(c.begin_fetch(1, 10, false), RetimeStep::NeedsRetime);
    assert_eq!(c.begin_fetch(2, 10, false), RetimeStep::Ready(200));

    let mut d = RetimedSamples::new(2);
    d.finish_fetch(1, 1, Some(11));
    d.finish_fetch(2, 1, Some(22));
    // Using the first makes the second the least recent.
    assert_eq!(d.begin_fetch(1, 1, false), RetimeStep::Ready(11));
    d.finish_fetch(3, 1, Some(33));
    assert_eq!(d.begin_fetch(2, 1, false), RetimeStep::NeedsRetime);
    assert_eq!(d.begin_fetch(1, 1, false), RetimeStep::Ready(11));
    assert_eq!(d.begin_fetch(3, 1, false), RetimeStep::Ready(33));
    let e = RetimedSamples::default();
    assert!(!e.save_files);
}

// ---- firing ----

fn situation() -> FireSituation {
    FireSituation {
        has_fire_transform: true,
        has_ghost: true,
        ghost_is_free: true,
        has_grabbed: false,
        player_forces_available: true,
        grabbed_is_rigid: true,
    }
}

#[test]
fn fire_preview_projectile() {
    assert_eq!(
        fire_projectile(situation()),
        vec![
            FireEffect::ClearPower,
            FireEffect::ApplyRecoil,
            FireEffect::PromoteGhost,
            FireEffect::MakePhysical,
            FireEffect::Launch(FiredItem::Preview),
            FireEffect::PlayReleaseSound
        ]
    );
}

#[test]
fn fire_blocked_preview_is_refused() {
    let s = FireSituation { ghost_is_free: false, ..situation() };
    assert_eq!(
        fire_projectile(s),
        vec![FireEffect::ClearPower, FireEffect::PlayCannotSound, FireEffect::DespawnGhost]
    );
}

#[test]
fn fire_without_player() {
    let s = FireSituation { has_fire_transform: false, ..situation() };
    assert_eq!(fire_projectile(s), vec![FireEffect::ClearPower, FireEffect::DespawnGhost]);
    let s = FireSituation { has_fire_transform: false, has_ghost: false, ..situation() };
    assert_eq!(fire_projectile(s), vec![FireEffect::ClearPower]);
    let s = FireSituation { player_forces_available: false, ..situation() };
    assert_eq!(fire_projectile(s), vec![FireEffect::ClearPower]);
}

#[test]
fn fire_held_item() {
    let s = FireSituation { has_ghost: false, has_grabbed: true, ..situation() };
    assert_eq!(
        fire_projectile(s),
        vec![
            FireEffect::ClearPower,
            FireEffect::UseGrabbedTransform,
            FireEffect::ApplyRecoil,
            FireEffect::ReleaseGrabbed,
            FireEffect::PlayReleaseSound,
            FireEffect::Launch(FiredItem::Grabbed),
            FireEffect::PlayReleaseSound
        ]
    );
    let s = FireSituation { has_ghost: false, has_grabbed: true, grabbed_is_rigid: false, ..situation() };
    assert_eq!(
        fire_projectile(s),
        vec![FireEffect::ClearPower, FireEffect::UseGrabbedTransform, FireEffect::ApplyRecoil, FireEffect::CancelGrab]
    );
}

#[test]
fn fire_new_projectile() {
    let s = FireSituation { has_ghost: false, ..situation() };
    assert_eq!(
        fire_projectile(s),
        vec![
            FireEffect::ClearPower,
            FireEffect::ApplyRecoil,
            FireEffect::SpawnProjectile,
            FireEffect::MakePhysical,
            FireEffect::Launch(FiredItem::New),
            FireEffect::PlayReleaseSound
        ]
    );
}

#[test]
fn preview_handling() {
    assert_eq!(update_queued_projectile(false, true, true, true), None);
    assert_eq!(update_queued_projectile(true, false, true, true), None);
    assert_eq!(update_queued_projectile(true, true, false, true), None);
    assert_eq!(update_queued_projectile(true, true, true, true), Some(GhostStyle::Legal));
    assert_eq!(update_queued_projectile(true, true, true, false), Some(GhostStyle::Blocked));
    let p = prepare_projectile(true, false);
    assert!(p.despawn_old_ghost && !p.spawn_ghost);
    assert_eq!(cancel_projectile(false, true), CancelAction::Nothing);
    assert_eq!(cancel_projectile(true, true), CancelAction::ShrinkAway);
    assert_eq!(cancel_projectile(true, false), CancelAction::Despawn);
    let st = on_firing_start(true, true);
    assert!(st.start_power && !st.prepare_ghost);
    let st = on_firing_start(false, false);
    assert!(!st.start_power && !st.prepare_ghost);
    let st = on_firing_start(true, false);
    assert!(st.start_power && st.prepare_ghost);
}

// ---- gravity ----

#[test]
fn gravity_shortcuts() {
    assert_eq!(check_actions(false, Some(true), Some(false), Some(false), Some(false)), None);
    assert_eq!(check_actions(true, Some(true), Some(false), Some(false), Some(false)), Some(GravityPreset::Off));
    assert_eq!(check_actions(true, Some(true), Some(true), Some(false), Some(false)), Some(GravityPreset::Tiny));
    assert_eq!(check_actions(true, Some(false), Some(false), Some(true), Some(true)), Some(GravityPreset::Normal));
    // Checking stops at the first shortcut that is not set up.
    assert_eq!(check_actions(true, Some(false), None, Some(true), Some(true)), None);
    assert_eq!(check_actions(true, None, Some(true), Some(true), Some(true)), None);
    assert_eq!(check_actions(true, Some(false), Some(false), Some(false), Some(false)), None);
}

#[test]
fn gravity_presets() {
    assert_eq!(GravityPreset::Off.downward_tenths(), 0);
    assert_eq!(GravityPreset::Tiny.downward_tenths(), 10);
    assert_eq!(GravityPreset::Half.downward_tenths(), 50);
    assert_eq!(GravityPreset::Normal.downward_tenths(), 98);
    assert_eq!(GravityPreset::Off.player_mode(), PlayerMode::Space);
    assert_eq!(GravityPreset::Tiny.player_mode(), PlayerMode::Space);
    assert_eq!(GravityPreset::Half.player_mode(), PlayerMode::Fps);
    assert_eq!(GravityPreset::Normal.player_mode(), PlayerMode::Fps);
    assert!(!ApplySleepHelper::default().0);
}

// ---- layout ----

#[test]
fn cube_stack_of_half_size_one() {
    let cells = cube_stack_cells(1);
    assert_eq!(
        cells,
        vec![
            (-1, 0, -1),
            (-1, 0, 0),
            (-1, 1, -1),
            (-1, 1, 0),
            (0, 0, -1),
            (0, 0, 0),
            (0, 1, -1),
            (0, 1, 0)
        ]
    );
    assert_eq!(cube_stack_cells(6).len(), 1728);
    assert!(cube_stack_cells(0).is_empty());
    assert!(cube_stack_cells(-3).is_empty());
}

#[test]
fn floor_layer() {
    assert_eq!(floor_cells(2), vec![(0, 0, 0), (0, 0, 1), (1, 0, 0), (1, 0, 1)]);
    assert_eq!(floor_cells(6).len(), 36);
    assert!(floor_cells(-1).is_empty());
    assert_eq!(box_cells((1, 2, 3), (2, 3, 5)), vec![(1, 2, 3), (1, 2, 4)]);
}

#[test]
fn furniture_names() {
    assert!(is_loose_furniture("SchoolChair_01", true, true, false));
    assert!(is_loose_furniture("LibraryChair_x", true, true, false));
    assert!(is_loose_furniture("PlasticChair_2", true, true, false));
    assert!(is_loose_furniture("SchoolDesk_a", true, true, false));
    assert!(!is_loose_furniture("SchoolChair", true, true, false));
    assert!(!is_loose_furniture("Table_1", true, true, false));
    assert!(!is_loose_furniture("SchoolChair_01", false, true, false));
    assert!(!is_loose_furniture("SchoolChair_01", true, false, false));
    assert!(!is_loose_furniture("SchoolChair_01", true, true, true));
}

#[test]
fn make_dynamic_queue() {
    let mut q = MakeDynamic(vec![4, 5]);
    assert_eq!(q.first(), Some(4));
    assert_eq!(q.step(false), MakeDynamicStep::Wait);
    assert_eq!(q.step(true), MakeDynamicStep::Activate(4));
    assert_eq!(q.step(true), MakeDynamicStep::Activate(5));
    assert_eq!(q.first(), None);
    assert_eq!(q.step(true), MakeDynamicStep::Finished);
}

// ---- noise ----

fn facts() -> ContactFacts {
    ContactFacts {
        started: true,
        touching: false,
        first_is_player: false,
        second_is_player: false,
        first_has_material: false,
        second_has_material: false,
    }
}

#[test]
fn contacts_are_classified() {
    assert_eq!(classify_contact(facts()), None);
    assert_eq!(classify_contact(ContactFacts { started: false, first_has_material: true, ..facts() }), None);
    assert_eq!(
        classify_contact(ContactFacts { first_has_material: true, ..facts() }),
        Some(Contact { role: ContactRole::Objects, target: Side::First })
    );
    assert_eq!(
        classify_contact(ContactFacts { first_has_material: true, second_has_material: true, ..facts() }),
        Some(Contact { role: ContactRole::Objects, target: Side::Second })
    );
    assert_eq!(
        classify_contact(ContactFacts { started: false, touching: true, first_is_player: true, ..facts() }),
        Some(Contact { role: ContactRole::Footstep, target: Side::First })
    );
}

#[test]
fn surface_resolution() {
    assert_eq!(resolve_surface(&vec![None, Some(3), Some(4)]), Some(3));
    assert_eq!(resolve_surface(&vec![Some(1)]), Some(1));
    assert_eq!(resolve_surface(&vec![None, None]), None);
    assert_eq!(resolve_surface(&vec![]), None);
}

fn motion() -> ContactMotion {
    ContactMotion {
        fast_enough: true,
        audible: true,
        sliding: false,
        footstep_due: true,
        moving: true,
        loud_enough: true,
        rolling_slower: false,
    }
}

#[test]
fn footstep_sounds() {
    let c = Contact { role: ContactRole::Footstep, target: Side::Second };
    assert_eq!(
        contact_noise_with(c, true, motion(), false),
        Some(NoisePlan { kind: SampleSelectorType::FootstepImpact, attach_to: Side::First, material_of: Side::Second })
    );
    assert_eq!(
        contact_noise_with(c, false, ContactMotion { sliding: true, ..motion() }, false),
        Some(NoisePlan { kind: SampleSelectorType::FootstepSlide, attach_to: Side::Second, material_of: Side::First })
    );
    assert_eq!(contact_noise_with(c, true, ContactMotion { sliding: true, moving: false, ..motion() }, true), None);
    assert_eq!(contact_noise_with(c, true, ContactMotion { footstep_due: false, ..motion() }, true), None);
    assert_eq!(contact_noise_with(c, true, ContactMotion { audible: false, ..motion() }, true), None);
    assert_eq!(contact_noise_for(c, true, motion()), contact_noise_with(c, true, motion(), true));
}

#[test]
fn object_sounds() {
    let c = Contact { role: ContactRole::Objects, target: Side::First };
    let slide_roll = ContactMotion { sliding: true, rolling_slower: true, ..motion() };
    assert_eq!(
        contact_noise_with(c, false, slide_roll, true),
        Some(NoisePlan { kind: SampleSelectorType::SurfaceSlide, attach_to: Side::First, material_of: Side::First })
    );
    assert_eq!(
        contact_noise_with(c, false, motion(), false),
        Some(NoisePlan { kind: SampleSelectorType::SurfaceImpact, attach_to: Side::Second, material_of: Side::Second })
    );
    assert_eq!(contact_noise_with(c, false, ContactMotion { moving: false, ..motion() }, true), None);
    assert_eq!(contact_noise_with(c, false, ContactMotion { loud_enough: false, ..motion() }, true), None);
    let r = contact_noise_for(c, false, motion());
    assert!(r == contact_noise_with(c, false, motion(), true) || r == contact_noise_with(c, false, motion(), false));
}

// ---- palette ----

#[test]
fn palette_cache() {
    let mut p = PaletteMaterialHandles::new();
    assert_eq!(p.resolve(9, None), Err(PaletteError::NoStandardMaterial(9)));
    assert_eq!(p.resolve(9, Some(1)), Ok(PaletteResolution::Create));
    p.remember(1, 100);
    assert_eq!(p.resolve(9, Some(1)), Ok(PaletteResolution::Cached(100)));
    assert_eq!(p.resolve(9, Some(2)), Ok(PaletteResolution::Create));
    p.clear();
    assert_eq!(p.resolve(9, Some(1)), Ok(PaletteResolution::Create));
}

// ---- resting-body helper ----

fn rest_facts() -> RestFacts {
    RestFacts { gravity_wanted: true, scale_reduced: false, scale_zero: false, resting_below: true, saved: None }
}

#[test]
fn sleep_helper_switch() {
    assert!(!sleep_helper_applies(None));
    assert!(!sleep_helper_applies(Some(ApplySleepHelper::default())));
    assert!(sleep_helper_applies(Some(ApplySleepHelper(true))));
}

#[test]
fn resting_body_cycle() {
    // A body landing on something is put to rest, saving its scale.
    let f = rest_facts();
    assert_eq!(sleep_step(f), RestAction::Rest);
    let (saved, restored) = apply_rest(RestAction::Rest, None, 2.0f32);
    assert_eq!(saved, Some(SavedScale { orig_scale: 2.0f32, restore_next_time: false }));
    assert_eq!(restored, None);
    // Resting again keeps the original scale, not the lowered one.
    let (saved, _) = apply_rest(RestAction::Rest, saved, 1.0f32);
    assert_eq!(saved, Some(SavedScale { orig_scale: 2.0f32, restore_next_time: false }));
    // Fully at rest: nothing more to do.
    assert_eq!(sleep_step(RestFacts { scale_zero: true, saved: Some(false), ..f }), RestAction::Keep);
    // Support gone: first armed, then restored.
    let free = RestFacts { resting_below: false, scale_reduced: true, scale_zero: true, saved: Some(false), ..f };
    assert_eq!(sleep_step(free), RestAction::ArmRestore);
    let (saved, restored) = apply_rest(RestAction::ArmRestore, saved, 0.0f32);
    assert_eq!(saved, Some(SavedScale { orig_scale: 2.0f32, restore_next_time: true }));
    assert_eq!(restored, None);
    assert_eq!(sleep_step(RestFacts { saved: Some(true), ..free }), RestAction::Restore);
    let (saved, restored) = apply_rest(RestAction::Restore, saved, 0.0f32);
    assert_eq!(saved, None);
    assert_eq!(restored, Some(2.0f32));
}

#[test]
fn resting_helper_leaves_others_alone() {
    assert_eq!(sleep_step(RestFacts { gravity_wanted: false, ..rest_facts() }), RestAction::Keep);
    let free = RestFacts { resting_below: false, ..rest_facts() };
    assert_eq!(sleep_step(free), RestAction::Keep);
    assert_eq!(sleep_step(RestFacts { scale_reduced: true, saved: None, ..free }), RestAction::Keep);
    assert_eq!(apply_rest(RestAction::Keep, None, 1.0f32), (None, None));
}

#[test]
fn resetting_overrides() {
    assert_eq!(reset_step(false, true), ResetAction::Keep);
    assert_eq!(reset_step(true, false), ResetAction::SetSaved);
    assert_eq!(reset_step(true, true), ResetAction::ClearBoth);
}
