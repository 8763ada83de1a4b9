//! Battles driven by the scripted randomness source: damage amounts,
//! accuracy checks and secondary effects.

use pokemon_rust::backend::BattleBackend;
use pokemon_rust::events::{BattleEvent, FrontendEvent, FrontendEventKind, Team};
use pokemon_rust::moves::{
    HitCount, MoveCategory, MoveData, PokemonType, SecondaryEffect, SecondaryEffectKind,
};
use pokemon_rust::pokemon::{Flag, Ivs, Nature, Pokemon, SpeciesData, Stat};
use pokemon_rust::rng::TestBattleRng;

fn species(
    national_number: usize,
    name: &str,
    first_type: PokemonType,
    second_type: Option<PokemonType>,
    stats: [u16; 6],
) -> SpeciesData {
    SpeciesData {
        national_number,
        name: name.to_string(),
        first_type,
        second_type,
        base_hp: stats[0],
        base_attack: stats[1],
        base_defense: stats[2],
        base_special_attack: stats[3],
        base_special_defense: stats[4],
        base_speed: stats[5],
    }
}

fn rattata() -> SpeciesData {
    species(19, "Rattata", PokemonType::Normal, None, [30, 56, 35, 25, 35, 72])
}

fn pidgey() -> SpeciesData {
    species(
        16,
        "Pidgey",
        PokemonType::Normal,
        Some(PokemonType::Flying),
        [40, 45, 40, 35, 35, 56],
    )
}

fn hitmonlee() -> SpeciesData {
    species(106, "Hitmonlee", PokemonType::Fighting, None, [50, 120, 53, 35, 110, 87])
}

fn metapod() -> SpeciesData {
    species(11, "Metapod", PokemonType::Bug, None, [50, 20, 55, 25, 25, 30])
}

fn exeggcutor() -> SpeciesData {
    species(
        103,
        "Exeggcutor",
        PokemonType::Grass,
        Some(PokemonType::Psychic),
        [95, 95, 85, 125, 75, 55],
    )
}

fn plain_move(name: &str, move_type: PokemonType, power: u16, accuracy: u8) -> MoveData {
    MoveData {
        name: name.to_string(),
        move_type,
        category: MoveCategory::Physical,
        power,
        accuracy,
        priority: 0,
        hit_count: HitCount::Single,
        always_crits: false,
        secondary: None,
        user_stat_change: None,
    }
}

fn movedex() -> Vec<MoveData> {
    let tackle = plain_move("Tackle", PokemonType::Normal, 40, 100);
    let egg_bomb = plain_move("EggBomb", PokemonType::Normal, 100, 75);
    let mut rolling_kick = plain_move("RollingKick", PokemonType::Fighting, 60, 85);
    rolling_kick.secondary = Some(SecondaryEffect {
        chance: 30,
        kind: SecondaryEffectKind::AddFlag(Flag::Flinch),
    });
    let mut harden = plain_move("Harden", PokemonType::Normal, 0, 100);
    harden.category = MoveCategory::Status;
    harden.user_stat_change = Some((Stat::Defense, 1));
    vec![tackle, egg_bomb, rolling_kick, harden]
}

fn combatant(species: SpeciesData, level: u8, nature: Nature, moves: &[&str]) -> Pokemon {
    let slots: Vec<Option<String>> = moves.iter().map(|m| Some(m.to_string())).collect();
    Pokemon::new(species, level, nature, Ivs::max(), slots)
}

fn battle(p1: Pokemon, p2: Pokemon) -> BattleBackend<TestBattleRng> {
    BattleBackend::new(vec![p1], vec![p2], movedex(), TestBattleRng::new())
}

fn move_slot(backend: &BattleBackend<TestBattleRng>, team: Team, name: &str) -> usize {
    let active = match team {
        Team::P1 => backend.p1.active_pokemon.unwrap(),
        Team::P2 => backend.p2.active_pokemon.unwrap(),
    };
    backend.pokemon_repository[active]
        .moves
        .iter()
        .enumerate()
        .filter_map(|(i, mov)| mov.as_ref().map(|m| (i, m)))
        .find(|(_, m)| m.as_str() == name)
        .map(|(i, _)| i)
        .unwrap()
}

fn process_turn(
    backend: &mut BattleBackend<TestBattleRng>,
    p1_move: &str,
    p2_move: &str,
) -> Vec<BattleEvent> {
    let p1_index = move_slot(backend, Team::P1, p1_move);
    let p2_index = move_slot(backend, Team::P2, p2_move);
    backend
        .push_frontend_event(FrontendEvent {
            team: Team::P1,
            event: FrontendEventKind::UseMove(p1_index),
        })
        .unwrap();
    backend
        .push_frontend_event(FrontendEvent {
            team: Team::P2,
            event: FrontendEventKind::UseMove(p2_index),
        })
        .unwrap();
    backend.tick().unwrap()
}

#[test]
fn tackle_deals_damage() {
    let mut backend = battle(
        combatant(rattata(), 50, Nature::Adamant, &["Tackle"]),
        combatant(pidgey(), 50, Nature::Adamant, &["Tackle"]),
    );

    let events = process_turn(&mut backend, "Tackle", "Tackle");

    assert!(matches!(
        events[1],
        BattleEvent::Damage { target: 1, amount: 39, is_critical_hit: false }
    ));
    assert!(matches!(
        events[3],
        BattleEvent::Damage { target: 0, amount: 36, is_critical_hit: false }
    ));
}

#[test]
fn tackle_does_accuracy_checks() {
    let mut backend = battle(
        combatant(rattata(), 3, Nature::Serious, &["Tackle"]),
        combatant(pidgey(), 3, Nature::Serious, &["Tackle"]),
    );

    backend.rng.force_miss(3);
    let turn1 = process_turn(&mut backend, "Tackle", "Tackle");
    let turn2 = process_turn(&mut backend, "Tackle", "Tackle");

    assert_eq!(turn1[1], BattleEvent::Miss(0));
    assert_eq!(turn1[3], BattleEvent::Miss(1));
    assert_eq!(turn2[1], BattleEvent::Miss(0));
    assert!(matches!(turn2[3], BattleEvent::Damage { target: 0, .. }));
    assert_eq!(backend.rng.get_last_miss_check_chance(), Some(100));
}

#[test]
fn egg_bomb_deals_damage() {
    let mut backend = battle(
        combatant(exeggcutor(), 3, Nature::Serious, &["EggBomb"]),
        combatant(metapod(), 3, Nature::Serious, &["Harden"]),
    );

    let events = process_turn(&mut backend, "EggBomb", "Harden");

    assert!(matches!(events[1], BattleEvent::Damage { target: 1, is_critical_hit: false, .. }));
}

#[test]
fn rolling_kick_deals_damage_and_might_flinch() {
    let mut backend = battle(
        combatant(hitmonlee(), 9, Nature::Serious, &["RollingKick"]),
        combatant(metapod(), 9, Nature::Serious, &["Harden"]),
    );

    backend.rng.force_secondary_effect(1);
    let turn1 = process_turn(&mut backend, "RollingKick", "Harden");
    assert!(matches!(turn1[1], BattleEvent::Damage { target: 1, is_critical_hit: false, .. }));
    assert!(matches!(
        turn1[2],
        BattleEvent::VolatileStatusCondition { target: 1, added_flag: Flag::Flinch }
    ));
    assert_eq!(backend.rng.get_last_secondary_effect_check_chance(), Some(30));

    let turn2 = process_turn(&mut backend, "RollingKick", "Harden");
    assert!(matches!(turn2[1], BattleEvent::Damage { target: 1, is_critical_hit: false, .. }));
    assert!(matches!(turn2[2], BattleEvent::UseMove { move_user: 1 }));
}
