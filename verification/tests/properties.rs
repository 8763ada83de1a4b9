//! End-to-end turn scenarios: determinism, ordering, atomicity, fainting and
//! the audit of requested probabilities.

use pokemon_rust::backend::{BattleBackend, BattleError, order_actions};
use pokemon_rust::events::{BattleEvent, FrontendEvent, FrontendEventKind, Team, UsedMove};
use pokemon_rust::moves::{HitCount, MoveCategory, MoveData, PokemonType};
use pokemon_rust::pokemon::{Ivs, Nature, Pokemon, SpeciesData, Stat};
use pokemon_rust::rng::TestBattleRng;

fn species(
    national_number: usize,
    name: &str,
    first_type: PokemonType,
    second_type: Option<PokemonType>,
    stats: [u16; 6],
) -> SpeciesData {
    SpeciesData {
        national_number,
        name: name.to_string(),
        first_type,
        second_type,
        base_hp: stats[0],
        base_attack: stats[1],
        base_defense: stats[2],
        base_special_attack: stats[3],
        base_special_defense: stats[4],
        base_speed: stats[5],
    }
}

fn rattata() -> SpeciesData {
    species(19, "Rattata", PokemonType::Normal, None, [30, 56, 35, 25, 35, 72])
}

fn pidgey() -> SpeciesData {
    species(
        16,
        "Pidgey",
        PokemonType::Normal,
        Some(PokemonType::Flying),
        [40, 45, 40, 35, 35, 56],
    )
}

fn metapod() -> SpeciesData {
    species(11, "Metapod", PokemonType::Bug, None, [50, 20, 55, 25, 25, 30])
}

fn plain_move(name: &str, move_type: PokemonType, power: u16, accuracy: u8) -> MoveData {
    MoveData {
        name: name.to_string(),
        move_type,
        category: MoveCategory::Physical,
        power,
        accuracy,
        priority: 0,
        hit_count: HitCount::Single,
        always_crits: false,
        secondary: None,
        user_stat_change: None,
    }
}

fn movedex() -> Vec<MoveData> {
    let tackle = plain_move("Tackle", PokemonType::Normal, 40, 100);
    let mut quick_attack = plain_move("QuickAttack", PokemonType::Normal, 40, 100);
    quick_attack.priority = 1;
    let mut harden = plain_move("Harden", PokemonType::Normal, 0, 100);
    harden.category = MoveCategory::Status;
    harden.user_stat_change = Some((Stat::Defense, 1));
    let mut fury_swipes = plain_move("FurySwipes", PokemonType::Normal, 18, 80);
    fury_swipes.hit_count = HitCount::Uniform(2, 5);
    vec![tackle, quick_attack, harden, fury_swipes]
}

fn combatant(species: SpeciesData, level: u8, nature: Nature, moves: &[&str]) -> Pokemon {
    let slots: Vec<Option<String>> = moves.iter().map(|m| Some(m.to_string())).collect();
    Pokemon::new(species, level, nature, Ivs::max(), slots)
}

fn battle(p1: Pokemon, p2: Pokemon) -> BattleBackend<TestBattleRng> {
    BattleBackend::new(vec![p1], vec![p2], movedex(), TestBattleRng::new())
}

fn queue_moves(backend: &mut BattleBackend<TestBattleRng>, p1_slot: usize, p2_slot: usize) {
    backend
        .push_frontend_event(FrontendEvent {
            team: Team::P1,
            event: FrontendEventKind::UseMove(p1_slot),
        })
        .unwrap();
    backend
        .push_frontend_event(FrontendEvent {
            team: Team::P2,
            event: FrontendEventKind::UseMove(p2_slot),
        })
        .unwrap();
}

fn count_damage(events: &[BattleEvent]) -> usize {
    events.iter().filter(|e| matches!(e, BattleEvent::Damage { .. })).count()
}

#[test]
fn second_tick_without_commands_is_a_caller_error() {
    let mut backend = battle(
        combatant(rattata(), 50, Nature::Adamant, &["Tackle"]),
        combatant(pidgey(), 50, Nature::Adamant, &["Tackle"]),
    );
    queue_moves(&mut backend, 0, 0);
    let first = backend.tick();
    assert!(first.is_ok());
    assert_eq!(backend.tick(), Err(BattleError::MissingCommand));
    // A half-filled queue is not enough either, and the command survives.
    backend
        .push_frontend_event(FrontendEvent { team: Team::P1, event: FrontendEventKind::UseMove(0) })
        .unwrap();
    assert_eq!(backend.tick(), Err(BattleError::MissingCommand));
}

#[test]
fn queueing_twice_for_one_side_fails() {
    let mut backend = battle(
        combatant(rattata(), 50, Nature::Adamant, &["Tackle"]),
        combatant(pidgey(), 50, Nature::Adamant, &["Tackle"]),
    );
    backend
        .push_frontend_event(FrontendEvent { team: Team::P1, event: FrontendEventKind::UseMove(0) })
        .unwrap();
    let second = backend.push_frontend_event(FrontendEvent {
        team: Team::P1,
        event: FrontendEventKind::UseMove(0),
    });
    assert_eq!(second, Err(BattleError::CommandAlreadyQueued));
}

#[test]
fn identical_turns_deal_identical_damage() {
    // The damage modifier is pinned to 100% and the critical outcome fixed,
    // so repeated identical turns from identical state produce identical
    // amounts.
    let make = || {
        battle(
            combatant(rattata(), 50, Nature::Adamant, &["Tackle"]),
            combatant(pidgey(), 50, Nature::Adamant, &["Tackle"]),
        )
    };
    let mut first = make();
    let mut second = make();
    queue_moves(&mut first, 0, 0);
    queue_moves(&mut second, 0, 0);
    let a = first.tick().unwrap();
    let b = second.tick().unwrap();
    assert_eq!(a, b);
    assert!(matches!(a[1], BattleEvent::Damage { target: 1, amount: 39, is_critical_hit: false }));
}

#[test]
fn three_missed_turns_then_a_hit() {
    let mut backend = battle(
        combatant(rattata(), 50, Nature::Adamant, &["Tackle"]),
        combatant(pidgey(), 50, Nature::Adamant, &["Tackle"]),
    );
    backend.rng.force_miss(6);
    for _ in 0..3 {
        queue_moves(&mut backend, 0, 0);
        let events = backend.tick().unwrap();
        assert_eq!(count_damage(&events), 0);
        assert_eq!(events.iter().filter(|e| matches!(e, BattleEvent::Miss(_))).count(), 2);
        // Every miss check asked for the move's declared accuracy.
        assert_eq!(backend.rng.get_last_miss_check_chance(), Some(100));
    }
    queue_moves(&mut backend, 0, 0);
    let events = backend.tick().unwrap();
    assert_eq!(count_damage(&events), 2);
    assert_eq!(backend.rng.get_last_miss_check_chance(), Some(100));
}

#[test]
fn faint_follows_damage_and_skips_the_fainted_action() {
    // A strong attacker against a frail low-level target: the target faints
    // on the first hit, the `Faint` event comes immediately after the
    // `Damage` event, and the target's own queued action is skipped without
    // a `UseMove` event.
    let mut backend = battle(
        combatant(rattata(), 50, Nature::Adamant, &["Tackle"]),
        combatant(metapod(), 3, Nature::Serious, &["Harden"]),
    );
    queue_moves(&mut backend, 0, 0);
    let events = backend.tick().unwrap();
    assert_eq!(
        events,
        vec![
            BattleEvent::UseMove { move_user: 0 },
            BattleEvent::Damage { target: 1, amount: 246, is_critical_hit: false },
            BattleEvent::Faint { target: 1 },
        ]
    );
    assert_eq!(backend.pokemon_repository[1].current_hp, 0);
}

#[test]
fn priority_beats_speed_and_speed_breaks_level_ties() {
    // Slow Metapod with the higher-priority move acts before fast Rattata.
    let mut backend = battle(
        combatant(rattata(), 50, Nature::Adamant, &["Tackle"]),
        combatant(metapod(), 50, Nature::Serious, &["QuickAttack"]),
    );
    queue_moves(&mut backend, 0, 0);
    let events = backend.tick().unwrap();
    assert!(matches!(events[0], BattleEvent::UseMove { move_user: 1 }));
    // With equal priority the faster side acts first, whatever the source of
    // randomness: Rattata outspeeds Pidgey.
    let mut plain = battle(
        combatant(rattata(), 50, Nature::Adamant, &["Tackle"]),
        combatant(pidgey(), 50, Nature::Adamant, &["Tackle"]),
    );
    queue_moves(&mut plain, 0, 0);
    let plain_events = plain.tick().unwrap();
    assert!(matches!(plain_events[0], BattleEvent::UseMove { move_user: 0 }));
}

#[test]
fn tied_actions_pass_through_one_shuffle() {
    // Two actions with equal priority and equal effective speed go through
    // the random source's shuffle; the scripted double keeps the order, so
    // the pair comes back intact and nothing else is reordered.
    let a = UsedMove { user: 0, target: 1, move_index: 0, priority: 0, speed: 10 };
    let b = UsedMove { user: 1, target: 0, move_index: 0, priority: 0, speed: 10 };
    let mut rng = TestBattleRng::new();
    let ordered = order_actions(&mut rng, vec![a, b]);
    assert_eq!(ordered, vec![a, b]);
    // Unequal keys: the order is fully determined by the keys.
    let fast = UsedMove { user: 1, target: 0, move_index: 0, priority: 0, speed: 50 };
    let ordered = order_actions(&mut rng, vec![a, fast]);
    assert_eq!(ordered, vec![fast, a]);
    let priority = UsedMove { user: 1, target: 0, move_index: 1, priority: 1, speed: 1 };
    let ordered = order_actions(&mut rng, vec![a, priority]);
    assert_eq!(ordered, vec![priority, a]);
}

#[test]
fn multi_hit_moves_strike_per_drawn_count() {
    // The scripted double draws the lowest value of the table: two strikes.
    let mut backend = battle(
        combatant(rattata(), 50, Nature::Adamant, &["FurySwipes"]),
        combatant(pidgey(), 50, Nature::Adamant, &["Harden"]),
    );
    queue_moves(&mut backend, 0, 0);
    let events = backend.tick().unwrap();
    assert_eq!(count_damage(&events), 2);
}

#[test]
fn malformed_commands_are_rejected_without_effect() {
    let mut backend = battle(
        combatant(rattata(), 50, Nature::Adamant, &["Tackle"]),
        combatant(pidgey(), 50, Nature::Adamant, &["Tackle"]),
    );
    // Out-of-range move slot.
    queue_moves(&mut backend, 3, 0);
    assert_eq!(backend.tick(), Err(BattleError::InvalidMoveSlot));
    assert_eq!(backend.pokemon_repository[0].current_hp, backend.pokemon_repository[0].max_hp);
    assert_eq!(backend.pokemon_repository[1].current_hp, backend.pokemon_repository[1].max_hp);
    // The queues survive a failed tick untouched; clear them by mutating
    // the command into a valid pair through fresh state.
    let mut unknown = battle(
        combatant(rattata(), 50, Nature::Adamant, &["Growl"]),
        combatant(pidgey(), 50, Nature::Adamant, &["Tackle"]),
    );
    queue_moves(&mut unknown, 0, 0);
    assert_eq!(unknown.tick(), Err(BattleError::UnknownMove));
    // Switching to a roster position that does not exist.
    let mut switcher = battle(
        combatant(rattata(), 50, Nature::Adamant, &["Tackle"]),
        combatant(pidgey(), 50, Nature::Adamant, &["Tackle"]),
    );
    switcher
        .push_frontend_event(FrontendEvent { team: Team::P1, event: FrontendEventKind::Switch(5) })
        .unwrap();
    switcher
        .push_frontend_event(FrontendEvent { team: Team::P2, event: FrontendEventKind::UseMove(0) })
        .unwrap();
    assert_eq!(switcher.tick(), Err(BattleError::InvalidSwitchTarget));
    // Switching to the combatant already on the field.
    let mut same = battle(
        combatant(rattata(), 50, Nature::Adamant, &["Tackle"]),
        combatant(pidgey(), 50, Nature::Adamant, &["Tackle"]),
    );
    same.push_frontend_event(FrontendEvent { team: Team::P1, event: FrontendEventKind::Switch(0) })
        .unwrap();
    same.push_frontend_event(FrontendEvent { team: Team::P2, event: FrontendEventKind::UseMove(0) })
        .unwrap();
    assert_eq!(same.tick(), Err(BattleError::SwitchTargetAlreadyActive));
}

#[test]
fn fainted_side_must_switch_before_moving() {
    let mut backend = BattleBackend::new(
        vec![combatant(rattata(), 50, Nature::Adamant, &["Tackle"])],
        vec![
            combatant(metapod(), 3, Nature::Serious, &["Harden"]),
            combatant(pidgey(), 50, Nature::Adamant, &["Tackle"]),
        ],
        movedex(),
        TestBattleRng::new(),
    );
    queue_moves(&mut backend, 0, 0);
    backend.tick().unwrap();
    assert_eq!(backend.pokemon_repository[1].current_hp, 0);
    // Moving with the fainted combatant is a caller error.
    queue_moves(&mut backend, 0, 0);
    assert_eq!(backend.tick(), Err(BattleError::FaintedActive));
    // Switching to the fainted entry from the healthy one is also an error,
    // but the replacement switch is accepted and emits a switch-in.
    let mut replace = BattleBackend::new(
        vec![combatant(rattata(), 50, Nature::Adamant, &["Tackle"])],
        vec![
            combatant(metapod(), 3, Nature::Serious, &["Harden"]),
            combatant(pidgey(), 50, Nature::Adamant, &["Tackle"]),
        ],
        movedex(),
        TestBattleRng::new(),
    );
    queue_moves(&mut replace, 0, 0);
    replace.tick().unwrap();
    replace
        .push_frontend_event(FrontendEvent { team: Team::P1, event: FrontendEventKind::UseMove(0) })
        .unwrap();
    replace
        .push_frontend_event(FrontendEvent { team: Team::P2, event: FrontendEventKind::Switch(1) })
        .unwrap();
    let events = replace.tick().unwrap();
    assert!(events.contains(&BattleEvent::SwitchIn { team: Team::P2, pokemon: 2 }));
    assert_eq!(replace.p2.active_pokemon, Some(2));
}

#[test]
fn switching_into_a_fainted_entry_is_rejected() {
    let mut backend = BattleBackend::new(
        vec![combatant(rattata(), 50, Nature::Adamant, &["Tackle"])],
        vec![
            combatant(metapod(), 3, Nature::Serious, &["Harden"]),
            combatant(pidgey(), 50, Nature::Adamant, &["Tackle"]),
        ],
        movedex(),
        TestBattleRng::new(),
    );
    queue_moves(&mut backend, 0, 0);
    backend.tick().unwrap();
    // Replace the fainted Metapod, then try to switch back into it.
    backend
        .push_frontend_event(FrontendEvent { team: Team::P1, event: FrontendEventKind::UseMove(0) })
        .unwrap();
    backend
        .push_frontend_event(FrontendEvent { team: Team::P2, event: FrontendEventKind::Switch(1) })
        .unwrap();
    backend.tick().unwrap();
    backend
        .push_frontend_event(FrontendEvent { team: Team::P1, event: FrontendEventKind::UseMove(0) })
        .unwrap();
    backend
        .push_frontend_event(FrontendEvent { team: Team::P2, event: FrontendEventKind::Switch(0) })
        .unwrap();
    assert_eq!(backend.tick(), Err(BattleError::SwitchTargetFainted));
}
