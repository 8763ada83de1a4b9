//! Unit checks: stat computation, the damage formula, the type chart, both
//! randomness sources, status conditions and the overworld helpers.

use pokemon_rust::backend::BattleBackend;
use pokemon_rust::common::{Direction, get_direction_offset};
use pokemon_rust::coordinates::{
    MapConnection, MapCoordinates, WorldCoordinates, get_new_map_reference_point,
    get_reference_point_from_tile, map_to_world_coordinates, world_to_map_coordinates,
};
use pokemon_rust::damage::compute_damage;
use pokemon_rust::events::{BattleEvent, FailReason, FrontendEvent, FrontendEventKind, Team};
use pokemon_rust::game_events::{GameEventStep, ParallelEvents, WarpEvent};
use pokemon_rust::moves::{
    HitCount, MoveCategory, MoveData, PokemonType, type_eff2, type_eff4, has_stab,
};
use pokemon_rust::pokemon::{Flag, Ivs, Nature, NonVolatileStatus, Pokemon, SpeciesData, Stat};
use pokemon_rust::rng::{BattleRng, StandardBattleRng, TestBattleRng};

fn rattata() -> SpeciesData {
    SpeciesData {
        national_number: 19,
        name: "Rattata".to_string(),
        first_type: PokemonType::Normal,
        second_type: None,
        base_hp: 30,
        base_attack: 56,
        base_defense: 35,
        base_special_attack: 25,
        base_special_defense: 35,
        base_speed: 72,
    }
}

fn pidgey() -> SpeciesData {
    SpeciesData {
        national_number: 16,
        name: "Pidgey".to_string(),
        first_type: PokemonType::Normal,
        second_type: Some(PokemonType::Flying),
        base_hp: 40,
        base_attack: 45,
        base_defense: 40,
        base_special_attack: 35,
        base_special_defense: 35,
        base_speed: 56,
    }
}

fn tackle() -> MoveData {
    MoveData {
        name: "Tackle".to_string(),
        move_type: PokemonType::Normal,
        category: MoveCategory::Physical,
        power: 40,
        accuracy: 100,
        priority: 0,
        hit_count: HitCount::Single,
        always_crits: false,
        secondary: None,
        user_stat_change: None,
    }
}

fn combatant(species: SpeciesData, level: u8, nature: Nature) -> Pokemon {
    Pokemon::new(species, level, nature, Ivs::max(), vec![Some("Tackle".to_string())])
}

#[test]
fn stats_follow_the_formulas() {
    let p = combatant(rattata(), 50, Nature::Adamant);
    // (2 * 30 + 31) * 50 / 100 + 50 + 10
    assert_eq!(p.max_hp, 105);
    assert_eq!(p.current_hp, 105);
    // ((2 * 56 + 31) * 50 / 100 + 5) boosted by 10%
    assert_eq!(p.attack, 83);
    // ((2 * 25 + 31) * 50 / 100 + 5) hindered by 10%
    assert_eq!(p.special_attack, 40);
    // Neutral stats keep the raw value.
    assert_eq!(p.defense, 55);
    assert_eq!(p.speed, 92);

    let d = combatant(pidgey(), 50, Nature::Adamant);
    assert_eq!(d.max_hp, 115);
    assert_eq!(d.attack, 71);
    assert_eq!(d.defense, 60);
}

#[test]
fn damage_formula_matches_the_documented_example() {
    // Level 50, power 40, attack 83 against defense 60, no critical hit, the
    // modifier pinned to 100%, with the same-type bonus and neutral type
    // effectiveness: the documented amount is 39.
    assert_eq!(compute_damage(50, 40, 83, 60, false, 100, true, 4), 39);
    assert_eq!(compute_damage(50, 40, 71, 55, false, 100, true, 4), 36);
    // A critical hit doubles the pre-modifier amount.
    assert_eq!(compute_damage(50, 40, 83, 60, true, 100, true, 4), 78);
    // The random modifier scales the amount down.
    assert_eq!(compute_damage(50, 40, 83, 60, false, 85, true, 4), 33);
}

#[test]
fn type_chart_holds_the_classic_matchups() {
    assert_eq!(type_eff2(PokemonType::Fighting, PokemonType::Bug), 1);
    assert_eq!(type_eff2(PokemonType::Normal, PokemonType::Bug), 2);
    assert_eq!(type_eff2(PokemonType::Water, PokemonType::Fire), 4);
    assert_eq!(type_eff2(PokemonType::Electric, PokemonType::Ground), 0);
    // Dual types multiply: Electric against Pidgey's Normal/Flying is
    // neutral times super effective.
    assert_eq!(
        type_eff4(PokemonType::Electric, PokemonType::Normal, Some(PokemonType::Flying)),
        8
    );
    assert_eq!(type_eff4(PokemonType::Normal, PokemonType::Bug, None), 4);
    assert!(has_stab(PokemonType::Flying, PokemonType::Normal, Some(PokemonType::Flying)));
    assert!(!has_stab(PokemonType::Fire, PokemonType::Normal, Some(PokemonType::Flying)));
}

#[test]
fn scripted_source_records_and_forces_outcomes() {
    let mut rng = TestBattleRng::new();
    assert_eq!(rng.get_last_miss_check_chance(), None);
    assert_eq!(rng.get_last_secondary_effect_check_chance(), None);
    // Unforced checks fail and still record the exact requested chance.
    assert!(!rng.check_miss(70));
    assert_eq!(rng.get_last_miss_check_chance(), Some(70));
    assert!(!rng.check_secondary_effect(30));
    assert_eq!(rng.get_last_secondary_effect_check_chance(), Some(30));
    // Forced runs hold for exactly the requested number of checks.
    rng.force_miss(2);
    assert!(rng.check_miss(95));
    assert!(rng.check_miss(10));
    assert!(!rng.check_miss(10));
    assert_eq!(rng.get_last_miss_check_chance(), Some(10));
    // The remaining draws are deterministic.
    assert_eq!(rng.get_damage_modifier(), 100);
    assert_eq!(rng.get_confusion_duration(), 1);
    assert_eq!(rng.check_uniform_multi_hit(2, 5), 2);
    assert_eq!(rng.check_custom_multi_hit(-3, 7), -3);
    assert!(!rng.check_confusion_miss());
    assert!(!rng.check_paralysis_move_prevention());
    assert!(!rng.check_freeze_thaw());
}

#[test]
fn duplicate_preserves_the_scripted_schedule() {
    let mut rng = TestBattleRng::new();
    rng.force_miss(1);
    rng.force_secondary_effect(2);
    let mut copy = rng.duplicate();
    assert!(copy.check_miss(50));
    assert!(!copy.check_miss(50));
    assert!(copy.check_secondary_effect(10));
    assert!(copy.check_secondary_effect(10));
    assert!(!copy.check_secondary_effect(10));
    // The source that was copied keeps its own schedule untouched.
    assert!(rng.check_miss(50));
}

#[test]
fn live_source_stays_inside_its_ranges() {
    let mut rng = StandardBattleRng::new();
    for _ in 0..50 {
        let m = rng.get_damage_modifier();
        assert!((85..=100).contains(&m));
        let hits = rng.check_uniform_multi_hit(2, 5);
        assert!((2..=5).contains(&hits));
        let custom = rng.check_custom_multi_hit(-2, 3);
        assert!((-2..=3).contains(&custom));
        let turns = rng.get_confusion_duration();
        assert!((1..=4).contains(&turns));
        // Accuracy 100 can never miss; accuracy 0 always misses.
        assert!(!rng.check_miss(100));
        assert!(rng.check_miss(0));
        assert!(rng.check_secondary_effect(100));
        assert!(!rng.check_secondary_effect(0));
    }
}

#[test]
fn paralysis_halves_speed_and_freeze_blocks_the_action() {
    let mut p = combatant(rattata(), 50, Nature::Adamant);
    assert_eq!(p.effective_speed(), 92);
    p.set_non_volatile_status(NonVolatileStatus::Paralysis);
    assert_eq!(p.effective_speed(), 46);
    // The status slot is exclusive: a second status is a silent no-op.
    p.set_non_volatile_status(NonVolatileStatus::Freeze);
    assert_eq!(p.non_volatile, Some(NonVolatileStatus::Paralysis));

    // A frozen combatant loses its action (the scripted source never thaws).
    let mut backend = BattleBackend::new(
        vec![combatant(rattata(), 50, Nature::Adamant)],
        vec![combatant(pidgey(), 50, Nature::Adamant)],
        vec![tackle()],
        TestBattleRng::new(),
    );
    backend.pokemon_repository[0].non_volatile = Some(NonVolatileStatus::Freeze);
    backend
        .push_frontend_event(FrontendEvent { team: Team::P1, event: FrontendEventKind::UseMove(0) })
        .unwrap();
    backend
        .push_frontend_event(FrontendEvent { team: Team::P2, event: FrontendEventKind::UseMove(0) })
        .unwrap();
    let events = backend.tick().unwrap();
    assert_eq!(events[0], BattleEvent::MoveFailed { move_user: 0, reason: FailReason::Frozen });
    assert!(matches!(events[1], BattleEvent::UseMove { move_user: 1 }));
}

#[test]
fn stat_stages_clamp_and_scale() {
    let mut p = combatant(rattata(), 50, Nature::Adamant);
    assert_eq!(p.effective_stat(Stat::Defense), 55);
    p.change_stat_stage(Stat::Defense, 1);
    // One stage up multiplies by 3/2.
    assert_eq!(p.effective_stat(Stat::Defense), 82);
    p.change_stat_stage(Stat::Defense, 6);
    // The stage is clamped at +6: times 4.
    assert_eq!(p.effective_stat(Stat::Defense), 220);
    p.change_stat_stage(Stat::Defense, -6);
    p.change_stat_stage(Stat::Defense, -6);
    // Clamped at -6: times 2/8.
    assert_eq!(p.effective_stat(Stat::Defense), 13);
}

#[test]
fn confusion_counts_down_and_expires() {
    let mut backend = BattleBackend::new(
        vec![combatant(rattata(), 50, Nature::Adamant)],
        vec![combatant(pidgey(), 50, Nature::Adamant)],
        vec![tackle()],
        TestBattleRng::new(),
    );
    backend.pokemon_repository[0].confusion = Some(2);
    for turn in 0..2 {
        backend
            .push_frontend_event(FrontendEvent {
                team: Team::P1,
                event: FrontendEventKind::UseMove(0),
            })
            .unwrap();
        backend
            .push_frontend_event(FrontendEvent {
                team: Team::P2,
                event: FrontendEventKind::UseMove(0),
            })
            .unwrap();
        let events = backend.tick().unwrap();
        // The scripted source never triggers the confusion self-hit, so the
        // move still goes through.
        assert!(matches!(events[0], BattleEvent::UseMove { move_user: 0 }));
        if turn == 0 {
            assert_eq!(backend.pokemon_repository[0].confusion, Some(1));
        } else {
            assert_eq!(backend.pokemon_repository[0].confusion, None);
            assert!(events.contains(&BattleEvent::ConditionExpired {
                target: 0,
                flag: Flag::Confusion,
            }));
        }
    }
}

#[test]
fn direction_offsets_are_unit_steps() {
    assert_eq!(get_direction_offset::<i32>(&Direction::Up), (0, 1));
    assert_eq!(get_direction_offset::<i32>(&Direction::Down), (0, -1));
    assert_eq!(get_direction_offset::<i64>(&Direction::Left), (-1, 0));
    assert_eq!(get_direction_offset::<i64>(&Direction::Right), (1, 0));
}

#[test]
fn map_and_world_coordinates_round_trip() {
    let reference = WorldCoordinates::new(1_000_000, 0);
    let tile = MapCoordinates::new(5, 10);
    let world = map_to_world_coordinates(&tile, &reference);
    assert_eq!((world.x, world.y), (1_000_176, 336));
    let back = world_to_map_coordinates(&world, &reference);
    assert_eq!(back, tile);
    let anchor = get_reference_point_from_tile(&tile, &world);
    assert_eq!((anchor.x, anchor.y), (reference.x, reference.y));
}

#[test]
fn connected_maps_anchor_one_step_away() {
    let reference = WorldCoordinates::new(0, 0);
    let tile = MapCoordinates::new(3, 7);
    let connection = MapConnection {
        map: "east_field".to_string(),
        directions: vec![(Direction::Right, MapCoordinates::new(0, 7))],
    };
    let anchored = get_new_map_reference_point(&tile, &connection, &reference).unwrap();
    // One tile to the right of tile (3, 7): world x = 3*32+16+32, and the
    // neighbour's tile (0, 7) must land there.
    assert_eq!((anchored.x, anchored.y), (128, 0));
    let empty = MapConnection { map: "void".to_string(), directions: vec![] };
    assert!(get_new_map_reference_point(&tile, &empty, &reference).is_none());
}

#[test]
fn warp_events_chain_fade_switch_fade() {
    let warp = WarpEvent::new("test_map3".to_string(), MapCoordinates::new(5, 10));
    assert_eq!(warp.steps.len(), 3);
    assert!(matches!(warp.steps[0], GameEventStep::FadeOut));
    assert!(matches!(
        &warp.steps[1],
        GameEventStep::SwitchMap(map, tile)
            if map == "test_map3" && *tile == MapCoordinates::new(5, 10)
    ));
    assert!(matches!(warp.steps[2], GameEventStep::FadeIn));
}

#[test]
fn parallel_events_run_until_each_completes() {
    let mut group = ParallelEvents::new();
    assert!(group.is_complete());
    let first = WarpEvent::new("a".to_string(), MapCoordinates::new(0, 0));
    let second = WarpEvent::new("b".to_string(), MapCoordinates::new(1, 1));
    let third = WarpEvent::new("c".to_string(), MapCoordinates::new(2, 2));
    group.add_events(vec![first, second, third]);
    assert!(!group.is_complete());
    assert_eq!(group.events.len(), 3);
    // The middle event completes; the others stay, in order.
    group.remove_completed(&vec![false, true, false]);
    assert_eq!(group.events.len(), 2);
    assert!(matches!(&group.events[0].steps[1], GameEventStep::SwitchMap(m, _) if m == "a"));
    assert!(matches!(&group.events[1].steps[1], GameEventStep::SwitchMap(m, _) if m == "c"));
    group.remove_completed(&vec![true, true]);
    assert!(group.is_complete());
}

#[test]
fn double_faint_is_reported_after_the_turn() {
    let mut backend = BattleBackend::new(
        vec![combatant(rattata(), 50, Nature::Adamant)],
        vec![combatant(pidgey(), 50, Nature::Adamant)],
        vec![tackle()],
        TestBattleRng::new(),
    );
    assert!(!backend.is_double_faint());
    backend.pokemon_repository[0].current_hp = 0;
    assert!(!backend.is_double_faint());
    backend.pokemon_repository[1].current_hp = 0;
    assert!(backend.is_double_faint());
}

#[test]
fn species_lookup_serves_the_presentation_layer() {
    let backend = BattleBackend::new(
        vec![combatant(rattata(), 50, Nature::Adamant)],
        vec![combatant(pidgey(), 50, Nature::Adamant)],
        vec![tackle()],
        TestBattleRng::new(),
    );
    assert_eq!(backend.get_species(0).national_number, 19);
    assert_eq!(backend.get_species(1).name, "Pidgey");
}
