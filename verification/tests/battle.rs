use pvp_mechanics::battle::{
    Battle, BattleState, ChargedMoveParams, CombatantMeta, CombatantParams, FastMoveParams,
    MoveStateMachine, PokemonState, Shields, StateMachine, TurnAction, TurnStateDTO,
};

fn meta(name: &str) -> CombatantMeta {
    CombatantMeta {
        pokemon_id: String::from(name),
        fast_uid: String::from("FAST"),
        charged1_uid: String::from("CHARGED_MAIN"),
        charged2_uid: String::from("CHARGED_OTHER"),
    }
}

fn combatant(
    fast: (i32, i32, i32),
    charged1: (i32, i32),
    charged2: (i32, i32),
    health: i32,
) -> CombatantParams {
    CombatantParams {
        fast: FastMoveParams { damage: fast.0, energy_gain: fast.1, turns: fast.2 },
        charged1: ChargedMoveParams { damage: charged1.0, energy: charged1.1 },
        charged2: ChargedMoveParams { damage: charged2.0, energy: charged2.1 },
        start_health: health,
    }
}

fn drain(battle: &mut Battle) -> Vec<TurnStateDTO> {
    let mut turns = Vec::new();
    while let Some(t) = battle.next() {
        turns.push(t);
        assert!(turns.len() < 100000);
    }
    turns
}

#[test]
fn test_fast_only_loss() {
    // Both sides can only ever afford the fast move; both hit for one
    // every turn, so the side with less health falls first.
    let a = combatant((1, 0, 0), (50, -100), (50, -100), 3);
    let b = combatant((1, 0, 0), (50, -100), (50, -100), 5);
    let mut battle = Battle::new(a, meta("A"), Shields::Zero, b, meta("B"), Shields::Zero, true);
    let turns = drain(&mut battle);
    assert_eq!(turns.len(), 3);
    // Reports show the health each turn started from.
    assert_eq!(turns[0].attacker.health, 3);
    assert_eq!(turns[0].defender.health, 5);
    assert_eq!(turns[1].attacker.health, 2);
    assert_eq!(turns[1].defender.health, 4);
    assert_eq!(turns[2].attacker.health, 1);
    assert_eq!(turns[2].defender.health, 3);
    assert!(matches!(battle.core.state, BattleState::Loss));
}

#[test]
fn test_simultaneous_draw() {
    let a = combatant((1, 0, 0), (50, -100), (50, -100), 3);
    let b = combatant((1, 0, 0), (50, -100), (50, -100), 3);
    let mut battle = Battle::new(a, meta("A"), Shields::Zero, b, meta("B"), Shields::Zero, true);
    let turns = drain(&mut battle);
    assert_eq!(turns.len(), 3);
    assert!(matches!(battle.core.state, BattleState::Draw));
}

#[test]
fn test_cooldown_pacing() {
    // A three-turn fast move fires on every third tick: wait, wait, hit.
    let a = combatant((1, 0, 2), (50, -100), (50, -100), 4);
    let b = combatant((1, 0, 0), (50, -100), (50, -100), 2);
    let mut battle = Battle::new(a, meta("A"), Shields::Zero, b, meta("B"), Shields::Zero, true);
    let turns = drain(&mut battle);
    // B chips A every tick; A lands on tick 3; A falls on tick 4.
    assert_eq!(turns.len(), 4);
    assert!(matches!(turns[0].attacker.action, TurnAction::Wait));
    assert!(matches!(turns[1].attacker.action, TurnAction::Wait));
    assert!(matches!(turns[2].attacker.action, TurnAction::FastAttack(_)));
    assert!(matches!(turns[3].attacker.action, TurnAction::Wait));
    assert_eq!(turns[2].defender.health, 2);
    assert!(matches!(battle.core.state, BattleState::Loss));
}

#[test]
fn test_charged_cycle_and_shields() {
    // A gains ten energy per fast move and spends twenty on its better
    // charged move; B holds two shields, so the first two charged moves
    // are absorbed, and the third one lands for twenty.
    let a = combatant((1, 10, 0), (30, -30), (20, -20), 50);
    let b = combatant((1, 0, 0), (50, -100), (50, -100), 10);
    let mut battle = Battle::new(a, meta("A"), Shields::Zero, b, meta("B"), Shields::Two, true);
    let turns = drain(&mut battle);
    assert_eq!(turns.len(), 9);
    // Energy as reported at the start of each turn.
    assert_eq!(turns[0].attacker.energy, 0);
    assert_eq!(turns[1].attacker.energy, 10);
    assert_eq!(turns[2].attacker.energy, 20);
    assert!(matches!(turns[2].attacker.action, TurnAction::ChargedAttack(_)));
    assert_eq!(turns[3].attacker.energy, 0);
    // The two shields go down on the two charged turns; the third charged
    // turn hits health.
    assert_eq!(turns[2].defender.shields, 2);
    assert_eq!(turns[3].defender.shields, 1);
    assert_eq!(turns[5].defender.shields, 1);
    assert_eq!(turns[6].defender.shields, 0);
    assert_eq!(turns[8].defender.health, 4);
    assert!(matches!(battle.core.state, BattleState::Win));
}

#[test]
fn test_shield_baiting() {
    // The better charged move is also the dearer one, and the opponent
    // holds a shield: the engine registers the cheaper alternate to bait
    // it. Main: damage 30 for 30 energy; alternate: damage 10 for 20.
    let a = combatant((1, 10, 0), (30, -30), (10, -20), 50);
    let b = combatant((1, 0, 0), (50, -100), (50, -100), 50);
    let mut battle = Battle::new(a, meta("A"), Shields::Zero, b, meta("B"), Shields::One, true);
    let turns = drain(&mut battle);
    let mut saw_bait = false;
    let mut saw_main = false;
    for t in turns.iter() {
        match &t.attacker.action {
            TurnAction::ChargedAttack(uid) => {
                if t.defender.shields > 0 {
                    assert_eq!(uid, "CHARGED_OTHER");
                    saw_bait = true;
                } else {
                    assert_eq!(uid, "CHARGED_MAIN");
                    saw_main = true;
                }
            }
            _ => {}
        }
    }
    assert!(saw_bait);
    assert!(saw_main);
}

#[test]
fn test_charged_order_by_attack_stat() {
    // Both sides register a charged move on the same tick with one point
    // of health each and no shields: only the resolution order decides.
    // The parameters are symmetric; the side with the higher attack stat
    // (passed as the order flag) strikes first, yet the slower side still
    // swings back: both fall, a draw.
    let a = combatant((1, 100, 0), (30, -30), (5, -100), 2);
    let b = combatant((1, 100, 0), (30, -30), (5, -100), 2);
    let mut battle = Battle::new(a, meta("A"), Shields::Zero, b, meta("B"), Shields::Zero, true);
    let turns = drain(&mut battle);
    // Tick 1: both fast (health 2 -> 1, energy 100). Tick 2: both charged;
    // A resolves first and fells B, and B's move still resolves.
    assert_eq!(turns.len(), 2);
    assert!(matches!(battle.core.state, BattleState::Draw));
}

#[test]
fn test_battle_deterministic() {
    let run = || {
        let mut battle = Battle::new(
            combatant((2, 7, 1), (35, -45), (18, -33), 61),
            meta("A"),
            Shields::Two,
            combatant((3, 9, 2), (50, -60), (25, -35), 47),
            meta("B"),
            Shields::One,
            false,
        );
        let mut log: Vec<(i32, i32, i32, i32, i32, i32)> = Vec::new();
        while let Some(t) = battle.next() {
            log.push((
                t.attacker.health,
                t.attacker.energy,
                t.attacker.shields,
                t.defender.health,
                t.defender.energy,
                t.defender.shields,
            ));
            assert!(log.len() < 100000);
        }
        (log, matches!(battle.core.state, BattleState::Win), matches!(battle.core.state, BattleState::Loss))
    };
    let first = run();
    let second = run();
    assert_eq!(first, second);
}

#[test]
fn test_battle_terminates_quickly() {
    // Any pair with positive health and damaging fast moves reaches an
    // outcome; this one within a small bound.
    let a = combatant((1, 1, 3), (9, -5), (4, -3), 40);
    let b = combatant((2, 2, 1), (11, -7), (6, -4), 35);
    let mut battle = Battle::new(a, meta("A"), Shields::Two, b, meta("B"), Shields::Two, true);
    let mut ticks = 0usize;
    while let Some(_) = battle.next() {
        ticks += 1;
        assert!(ticks < 10000);
    }
    assert!(!matches!(battle.core.state, BattleState::Continue(..)));
}

#[test]
fn test_shields_transitions() {
    assert!(Shields::Two.available());
    assert!(Shields::One.available());
    assert!(!Shields::Zero.available());
    assert_eq!(Shields::Two.count(), 2);
    assert_eq!(Shields::One.count(), 1);
    assert_eq!(Shields::Zero.count(), 0);
    assert_eq!(Shields::Two.spend(), Shields::One);
    assert_eq!(Shields::One.spend(), Shields::Zero);
    assert_eq!(Shields::Zero.spend(), Shields::Zero);
    assert_eq!(Shields::Two.transition(()), Shields::One);
}

#[test]
fn test_initial_state() {
    let p = combatant((1, 2, 0), (10, -20), (10, -30), 42);
    let s = PokemonState::new(&p, Shields::One);
    assert_eq!(s.health, 42);
    assert_eq!(s.energy, 0);
    assert_eq!(s.shields, Shields::One);
    assert_eq!(s.state, MoveStateMachine::Neutral);
}
