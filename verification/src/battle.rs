use vstd::prelude::*;

verus! {

/// A state machine that steps under an environment `D`.
pub trait StateMachine<D>: Sized {
    fn transition(&self, env: D) -> Self;
}

/// Which of the two charged moves a combatant registers.
#[derive(Debug, Copy, Clone, PartialEq, Eq, Structural)]
pub enum ChargedChoice {
    Main,
    Other,
}

/// The per-combatant move-decision state: deciding, waiting out a fast
/// move's cooldown, or registering a move for this turn.
#[derive(Debug, Copy, Clone, PartialEq, Eq, Structural)]
pub enum MoveStateMachine {
    Neutral,
    Idle(i32),
    RegisterFast,
    RegisterCharged(ChargedChoice),
}

/// The shields a combatant still holds.
#[derive(Debug, Copy, Clone, PartialEq, Eq, Structural)]
pub enum Shields {
    Two,
    One,
    Zero,
}

impl Shields {
    pub open spec fn spec_available(self) -> bool {
        self != Shields::Zero
    }

    /// Whether a shield is left to block a charged move.
    pub fn available(&self) -> (r: bool)
        ensures
            r == self.spec_available(),
    {
        match self {
            Shields::Zero => false,
            _ => true,
        }
    }

    /// The shield count after blocking one charged move.
    pub open spec fn spec_transition(self) -> Shields {
        match self {
            Shields::Two => Shields::One,
            Shields::One => Shields::Zero,
            Shields::Zero => Shields::Zero,
        }
    }

    /// How many shields are held.
    pub open spec fn spec_count(self) -> int {
        match self {
            Shields::Two => 2,
            Shields::One => 1,
            Shields::Zero => 0,
        }
    }

    pub fn count(&self) -> (r: i32)
        ensures
            r == self.spec_count(),
    {
        match self {
            Shields::Two => 2,
            Shields::One => 1,
            Shields::Zero => 0,
        }
    }

    pub fn spend(&self) -> (r: Shields)
        ensures
            r == self.spec_transition(),
    {
        match self {
            Shields::Two => Shields::One,
            Shields::One => Shields::Zero,
            Shields::Zero => Shields::Zero,
        }
    }
}

impl StateMachine<()> for Shields {
    fn transition(&self, _env: ()) -> Self {
        self.spend()
    }
}

/// Upper bound accepted for every battle parameter; keeps all battle
/// arithmetic far from the integer limits.
pub const MAX_PARAM: i32 = 1048576;

/// One combatant's fast move, as integers against the fixed opponent:
/// the damage it deals, the energy it grants, and how many turns it
/// waits in excess of the turn it lands on.
#[derive(Debug, Copy, Clone, PartialEq, Eq, Structural)]
pub struct FastMoveParams {
    pub damage: i32,
    pub energy_gain: i32,
    pub turns: i32,
}

/// One combatant's charged move against the fixed opponent: the damage it
/// deals and its negative energy delta.
#[derive(Debug, Copy, Clone, PartialEq, Eq, Structural)]
pub struct ChargedMoveParams {
    pub damage: i32,
    pub energy: i32,
}

/// Everything the engine needs of one combatant, as plain integers: move
/// damages are computed once against the fixed opponent, and the starting
/// health is the combatant's stamina rounded to an integer.
#[derive(Debug, Copy, Clone, PartialEq, Eq, Structural)]
pub struct CombatantParams {
    pub fast: FastMoveParams,
    pub charged1: ChargedMoveParams,
    pub charged2: ChargedMoveParams,
    pub start_health: i32,
}

impl CombatantParams {
    pub open spec fn wf(self) -> bool {
        &&& 0 <= self.fast.damage <= MAX_PARAM
        &&& 0 <= self.fast.energy_gain <= MAX_PARAM
        &&& 0 <= self.fast.turns <= MAX_PARAM
        &&& 0 <= self.charged1.damage <= MAX_PARAM
        &&& 0 <= self.charged2.damage <= MAX_PARAM
        &&& -MAX_PARAM <= self.charged1.energy < 0
        &&& -MAX_PARAM <= self.charged2.energy < 0
        &&& 0 <= self.start_health <= MAX_PARAM
    }

    /// The larger of the two charged-move energy costs.
    pub open spec fn max_cost(self) -> int {
        if -self.charged1.energy >= -self.charged2.energy {
            -self.charged1.energy
        } else {
            -self.charged2.energy
        }
    }

    pub open spec fn charged(self, choice: ChargedChoice) -> ChargedMoveParams {
        match choice {
            ChargedChoice::Main => self.charged1,
            ChargedChoice::Other => self.charged2,
        }
    }
}

/// One combatant's mutable battle state.
#[derive(Debug, Copy, Clone, PartialEq, Eq, Structural)]
pub struct PokemonState {
    pub health: i32,
    pub energy: i32,
    pub shields: Shields,
    pub state: MoveStateMachine,
}

impl PokemonState {
    /// The state a combatant starts the battle in: full health, no energy,
    /// the given shields, and a pending decision.
    pub fn new(params: &CombatantParams, shields: Shields) -> (s: PokemonState)
        ensures
            s == (PokemonState {
                health: params.start_health,
                energy: 0,
                shields,
                state: MoveStateMachine::Neutral,
            }),
    {
        PokemonState { health: params.start_health, energy: 0, shields, state: MoveStateMachine::Neutral }
    }
}

/// The battle-state invariant of one combatant: health and energy stay in
/// range, energy never outruns one fast move past the dearest charged
/// cost, and a cooldown counter lies inside the fast move's cooldown.
pub open spec fn state_wf(p: CombatantParams, s: PokemonState) -> bool {
    &&& 0 <= s.health <= MAX_PARAM
    &&& 0 <= s.energy <= p.max_cost() + p.fast.energy_gain
    &&& (s.state matches MoveStateMachine::Idle(n) ==> 0 <= n < p.fast.turns && s.energy
        <= p.max_cost() - 1)
}

/// The decision taken from `Neutral`: pick the charged move with the
/// higher damage-per-energy ratio as "best"; if it is affordable, register
/// it — unless it costs at least as much as the alternate and the opponent
/// still holds a shield, in which case register the alternate to bait the
/// shield; otherwise start the fast move, waiting out its cooldown first.
pub open spec fn spec_eval(p: CombatantParams, energy: int, opp_has_shield: bool) -> MoveStateMachine {
    let best_is_main = p.charged1.damage * (-p.charged2.energy) > p.charged2.damage * (
    -p.charged1.energy);
    let best = if best_is_main {
        p.charged1
    } else {
        p.charged2
    };
    let other = if best_is_main {
        p.charged2
    } else {
        p.charged1
    };
    let best_choice = if best_is_main {
        ChargedChoice::Main
    } else {
        ChargedChoice::Other
    };
    let other_choice = if best_is_main {
        ChargedChoice::Other
    } else {
        ChargedChoice::Main
    };
    if energy + best.energy >= 0 {
        if -best.energy >= -other.energy && opp_has_shield {
            MoveStateMachine::RegisterCharged(other_choice)
        } else {
            MoveStateMachine::RegisterCharged(best_choice)
        }
    } else {
        if p.fast.turns == 0 {
            MoveStateMachine::RegisterFast
        } else {
            MoveStateMachine::Idle((p.fast.turns - 1) as i32)
        }
    }
}

/// One tick of the move-decision machine: `Neutral` and the two register
/// states re-evaluate the decision, a cooldown counts down and fires the
/// fast move when it reaches zero.
pub open spec fn spec_transition(p: CombatantParams, s: PokemonState, opp_has_shield: bool) -> MoveStateMachine {
    match s.state {
        MoveStateMachine::Neutral => spec_eval(p, s.energy as int, opp_has_shield),
        MoveStateMachine::Idle(n) => if n == 0 {
            MoveStateMachine::RegisterFast
        } else {
            MoveStateMachine::Idle((n - 1) as i32)
        },
        MoveStateMachine::RegisterFast => spec_eval(p, s.energy as int, opp_has_shield),
        MoveStateMachine::RegisterCharged(_) => spec_eval(p, s.energy as int, opp_has_shield),
    }
}

/// The attacker's side of using the fast move: energy grows by the gain.
pub open spec fn spec_register_fast(p: CombatantParams, s: PokemonState) -> PokemonState
    recommends
        p.wf(),
        state_wf(p, s),
{
    PokemonState { energy: (s.energy + p.fast.energy_gain) as i32, ..s }
}

/// The defender's side of a fast move: damage applies directly to health,
/// floored at zero; shields never block it.
pub open spec fn spec_defend_fast(s: PokemonState, damage: int) -> PokemonState {
    PokemonState {
        health: if s.health - damage >= 0 {
            (s.health - damage) as i32
        } else {
            0
        },
        ..s
    }
}

/// The attacker's side of a charged move: energy takes the (negative)
/// cost, floored at zero.
pub open spec fn spec_register_charged(
    p: CombatantParams,
    s: PokemonState,
    choice: ChargedChoice,
) -> PokemonState {
    PokemonState {
        energy: if s.energy + p.charged(choice).energy >= 0 {
            (s.energy + p.charged(choice).energy) as i32
        } else {
            0
        },
        ..s
    }
}

/// The defender's side of a charged move: a held shield absorbs it whole
/// and is spent; otherwise the damage applies to health, floored at zero.
pub open spec fn spec_defend_charged(s: PokemonState, damage: int) -> PokemonState {
    if s.shields.spec_available() {
        PokemonState { shields: s.shields.spec_transition(), ..s }
    } else {
        PokemonState {
            health: if s.health - damage >= 0 {
                (s.health - damage) as i32
            } else {
                0
            },
            ..s
        }
    }
}


/// The outcome seen from the first combatant after a tick: the battle
/// goes on, is won (the opponent fell), lost, or drawn (both fell at
/// once). `Continue` carries both combatants' states and their decisions
/// of the tick just resolved.
#[derive(Debug, Copy, Clone, PartialEq, Eq, Structural)]
pub enum BattleState {
    Win,
    Loss,
    Draw,
    Continue(PokemonState, MoveStateMachine, PokemonState, MoveStateMachine),
}

/// The whole integer core of a battle: both combatants' parameters, which
/// of them resolves simultaneous charged moves first (the one with the
/// higher attack stat), and the current state.
#[derive(Debug, Copy, Clone, PartialEq, Eq, Structural)]
pub struct BattleCore {
    pub p1: CombatantParams,
    pub p2: CombatantParams,
    pub p1_acts_first: bool,
    pub state: BattleState,
}

/// Both combatants' states after their registered actions resolve, per
/// the resolution table: charged moves resolve before fast moves, two
/// charged moves resolve in the order given by `p1_first`, fast moves are
/// independent, and an idle combatant does nothing.
pub open spec fn spec_duel(
    p1: CombatantParams,
    p2: CombatantParams,
    p1_first: bool,
    s1: PokemonState,
    s2: PokemonState,
    n1: MoveStateMachine,
    n2: MoveStateMachine,
) -> (PokemonState, PokemonState) {
    match (n1, n2) {
        (MoveStateMachine::RegisterCharged(c1), MoveStateMachine::RegisterCharged(c2)) => {
            if p1_first {
                let a1 = spec_register_charged(p1, s1, c1);
                let d2 = spec_defend_charged(s2, p1.charged(c1).damage as int);
                let a2 = spec_register_charged(p2, d2, c2);
                let d1 = spec_defend_charged(a1, p2.charged(c2).damage as int);
                (d1, a2)
            } else {
                let a2 = spec_register_charged(p2, s2, c2);
                let d1 = spec_defend_charged(s1, p2.charged(c2).damage as int);
                let a1 = spec_register_charged(p1, d1, c1);
                let d2 = spec_defend_charged(a2, p1.charged(c1).damage as int);
                (a1, d2)
            }
        },
        (MoveStateMachine::RegisterCharged(c1), MoveStateMachine::RegisterFast) => {
            let a1 = spec_register_charged(p1, s1, c1);
            let d2 = spec_defend_charged(s2, p1.charged(c1).damage as int);
            let a2 = spec_register_fast(p2, d2);
            let d1 = spec_defend_fast(a1, p2.fast.damage as int);
            (d1, a2)
        },
        (MoveStateMachine::RegisterCharged(c1), _) => {
            let a1 = spec_register_charged(p1, s1, c1);
            let d2 = spec_defend_charged(s2, p1.charged(c1).damage as int);
            (a1, d2)
        },
        (MoveStateMachine::RegisterFast, MoveStateMachine::RegisterCharged(c2)) => {
            let a2 = spec_register_charged(p2, s2, c2);
            let d1 = spec_defend_charged(s1, p2.charged(c2).damage as int);
            let a1 = spec_register_fast(p1, d1);
            let d2 = spec_defend_fast(a2, p1.fast.damage as int);
            (a1, d2)
        },
        (_, MoveStateMachine::RegisterCharged(c2)) => {
            let a2 = spec_register_charged(p2, s2, c2);
            let d1 = spec_defend_charged(s1, p2.charged(c2).damage as int);
            (d1, a2)
        },
        (MoveStateMachine::RegisterFast, MoveStateMachine::RegisterFast) => {
            let a1 = spec_register_fast(p1, s1);
            let a2 = spec_register_fast(p2, s2);
            let d1 = spec_defend_fast(a1, p2.fast.damage as int);
            let d2 = spec_defend_fast(a2, p1.fast.damage as int);
            (d1, d2)
        },
        (MoveStateMachine::RegisterFast, _) => {
            let a1 = spec_register_fast(p1, s1);
            let d2 = spec_defend_fast(s2, p1.fast.damage as int);
            (a1, d2)
        },
        (_, MoveStateMachine::RegisterFast) => {
            let a2 = spec_register_fast(p2, s2);
            let d1 = spec_defend_fast(s1, p2.fast.damage as int);
            (d1, a2)
        },
        (_, _) => (s1, s2),
    }
}

/// One full tick: both decisions are taken simultaneously from the old
/// states, the registered actions resolve, and the outcome is read off
/// the new healths — a draw when both reach zero at once.
pub open spec fn spec_step(c: BattleCore) -> BattleCore {
    match c.state {
        BattleState::Continue(s1, _m1, s2, _m2) => {
            let n1 = spec_transition(c.p1, s1, s2.shields.spec_available());
            let n2 = spec_transition(c.p2, s2, s1.shields.spec_available());
            let (t1, t2) = spec_duel(c.p1, c.p2, c.p1_acts_first, s1, s2, n1, n2);
            let u1 = PokemonState { state: n1, ..t1 };
            let u2 = PokemonState { state: n2, ..t2 };
            let state = if t1.health == 0 && t2.health == 0 {
                BattleState::Draw
            } else if t1.health == 0 {
                BattleState::Loss
            } else if t2.health == 0 {
                BattleState::Win
            } else {
                BattleState::Continue(u1, n1, u2, n2)
            };
            BattleCore { state, ..c }
        },
        _ => c,
    }
}

/// The core after `n` ticks.
pub open spec fn spec_run(c: BattleCore, n: nat) -> BattleCore
    decreases n,
{
    if n == 0 {
        c
    } else {
        spec_run(spec_step(c), (n - 1) as nat)
    }
}

/// The battle invariant: both parameter sets are in range and, while the
/// battle goes on, both combatants' states are well formed and agree with
/// the recorded decisions.
pub open spec fn core_wf(c: BattleCore) -> bool {
    &&& c.p1.wf()
    &&& c.p2.wf()
    &&& (c.state matches BattleState::Continue(s1, m1, s2, m2) ==> state_wf(c.p1, s1) && state_wf(
        c.p2,
        s2,
    ) && s1.state == m1 && s2.state == m2)
}


/// The decision from `Neutral`, executed: the damage-per-energy ratios
/// are compared exactly, by cross-multiplication of the integer damages
/// and costs.
fn eval_move(p: &CombatantParams, energy: i32, opp_has_shield: bool) -> (m: MoveStateMachine)
    requires
        p.wf(),
        0 <= energy <= p.max_cost() + p.fast.energy_gain,
    ensures
        m == spec_eval(*p, energy as int, opp_has_shield),
{
    let d1 = p.charged1.damage as i64;
    let d2 = p.charged2.damage as i64;
    let c1 = -(p.charged1.energy as i64);
    let c2 = -(p.charged2.energy as i64);
    proof {
        assert(d1 * c2 <= 1048576 * 1048576 && d1 * c2 >= 0) by (nonlinear_arith)
            requires
                0 <= d1 <= 1048576,
                0 <= c2 <= 1048576,
        ;
        assert(d2 * c1 <= 1048576 * 1048576 && d2 * c1 >= 0) by (nonlinear_arith)
            requires
                0 <= d2 <= 1048576,
                0 <= c1 <= 1048576,
        ;
    }
    let best_is_main = d1 * c2 > d2 * c1;
    let (best_energy, other_energy) = if best_is_main {
        (p.charged1.energy, p.charged2.energy)
    } else {
        (p.charged2.energy, p.charged1.energy)
    };
    let (best_choice, other_choice) = if best_is_main {
        (ChargedChoice::Main, ChargedChoice::Other)
    } else {
        (ChargedChoice::Other, ChargedChoice::Main)
    };
    if energy + best_energy >= 0 {
        if -best_energy >= -other_energy && opp_has_shield {
            MoveStateMachine::RegisterCharged(other_choice)
        } else {
            MoveStateMachine::RegisterCharged(best_choice)
        }
    } else {
        if p.fast.turns == 0 {
            MoveStateMachine::RegisterFast
        } else {
            MoveStateMachine::Idle(p.fast.turns - 1)
        }
    }
}

/// One tick of the move-decision machine, executed.
fn step_move(p: &CombatantParams, s: &PokemonState, opp_has_shield: bool) -> (m: MoveStateMachine)
    requires
        p.wf(),
        state_wf(*p, *s),
    ensures
        m == spec_transition(*p, *s, opp_has_shield),
{
    match s.state {
        MoveStateMachine::Neutral => eval_move(p, s.energy, opp_has_shield),
        MoveStateMachine::Idle(n) => {
            if n == 0 {
                MoveStateMachine::RegisterFast
            } else {
                MoveStateMachine::Idle(n - 1)
            }
        },
        MoveStateMachine::RegisterFast => eval_move(p, s.energy, opp_has_shield),
        MoveStateMachine::RegisterCharged(_) => eval_move(p, s.energy, opp_has_shield),
    }
}

/// The attacker's side of the fast move, executed.
fn apply_register_fast(p: &CombatantParams, s: PokemonState) -> (r: PokemonState)
    requires
        p.wf(),
        0 <= s.energy <= p.max_cost() + p.fast.energy_gain,
    ensures
        r == spec_register_fast(*p, s),
{
    PokemonState { energy: s.energy + p.fast.energy_gain, ..s }
}

/// The defender's side of a fast move, executed.
fn apply_defend_fast(s: PokemonState, damage: i32) -> (r: PokemonState)
    requires
        0 <= damage,
        0 <= s.health,
    ensures
        r == spec_defend_fast(s, damage as int),
{
    PokemonState {
        health: if damage >= s.health {
            0
        } else {
            s.health - damage
        },
        ..s
    }
}

/// The attacker's side of a charged move, executed.
fn apply_register_charged(p: &CombatantParams, s: PokemonState, choice: ChargedChoice) -> (r:
    PokemonState)
    requires
        p.wf(),
        0 <= s.energy <= p.max_cost() + p.fast.energy_gain,
    ensures
        r == spec_register_charged(*p, s, choice),
{
    let cost = match choice {
        ChargedChoice::Main => p.charged1.energy,
        ChargedChoice::Other => p.charged2.energy,
    };
    PokemonState {
        energy: if s.energy + cost >= 0 {
            s.energy + cost
        } else {
            0
        },
        ..s
    }
}

/// The defender's side of a charged move, executed.
fn apply_defend_charged(s: PokemonState, damage: i32) -> (r: PokemonState)
    requires
        0 <= damage,
        0 <= s.health,
    ensures
        r == spec_defend_charged(s, damage as int),
{
    if s.shields.available() {
        PokemonState { shields: s.shields.spend(), ..s }
    } else {
        PokemonState {
            health: if damage >= s.health {
                0
            } else {
                s.health - damage
            },
            ..s
        }
    }
}

/// One tick keeps the battle invariant.
pub proof fn lemma_step_wf(c: BattleCore)
    requires
        core_wf(c),
    ensures
        core_wf(spec_step(c)),
{
    match c.state {
        BattleState::Continue(s1, _m1, s2, _m2) => {
            lemma_transition_keeps_bounds(c.p1, s1, s2.shields.spec_available());
            lemma_transition_keeps_bounds(c.p2, s2, s1.shields.spec_available());
        },
        _ => {},
    }
}

/// What each decision implies about the energy it starts from: a fast
/// registration or a cooldown only happens while energy is below the
/// dearest charged cost, and a charged registration is affordable.
pub proof fn lemma_transition_keeps_bounds(p: CombatantParams, s: PokemonState, opp: bool)
    requires
        p.wf(),
        state_wf(p, s),
    ensures
        spec_transition(p, s, opp) matches MoveStateMachine::Idle(n) ==> 0 <= n < p.fast.turns
            && s.energy <= p.max_cost() - 1,
        spec_transition(p, s, opp) is RegisterFast ==> s.energy <= p.max_cost() - 1,
        spec_transition(p, s, opp) matches MoveStateMachine::RegisterCharged(ch) ==> s.energy
            + p.charged(ch).energy >= 0,
        spec_transition(p, s, opp) != MoveStateMachine::Neutral,
{
}


/// The identifying strings of one combatant, carried along for the
/// per-turn reports.
#[derive(Debug)]
pub struct CombatantMeta {
    pub pokemon_id: String,
    pub fast_uid: String,
    pub charged1_uid: String,
    pub charged2_uid: String,
}

/// The action a combatant took on a turn, for reporting.
#[derive(Debug)]
pub enum TurnAction {
    FastAttack(String),
    ChargedAttack(String),
    Wait,
}

/// One combatant's snapshot in a turn report: the state the turn started
/// from and the action chosen on it.
#[derive(Debug)]
pub struct PokemonStateDTO {
    pub pokemon_id: String,
    pub action: TurnAction,
    pub health: i32,
    pub energy: i32,
    pub shields: i32,
}

/// One turn's report, both sides.
#[derive(Debug)]
pub struct TurnStateDTO {
    pub attacker: PokemonStateDTO,
    pub defender: PokemonStateDTO,
}

/// Whether a reported action names the move that the decision `m`
/// registered.
pub open spec fn action_matches(a: TurnAction, m: MoveStateMachine, meta: CombatantMeta) -> bool {
    match m {
        MoveStateMachine::RegisterFast => a matches TurnAction::FastAttack(u) && u@
            == meta.fast_uid@,
        MoveStateMachine::RegisterCharged(ChargedChoice::Main) => a matches TurnAction::ChargedAttack(
            u,
        ) && u@ == meta.charged1_uid@,
        MoveStateMachine::RegisterCharged(ChargedChoice::Other) => a matches TurnAction::ChargedAttack(
            u,
        ) && u@ == meta.charged2_uid@,
        MoveStateMachine::Idle(_) => a is Wait,
        MoveStateMachine::Neutral => a is Wait,
    }
}

/// Whether one side of a turn report shows the state the turn started
/// from and the decision taken on it.
pub open spec fn dto_matches(
    d: PokemonStateDTO,
    meta: CombatantMeta,
    s_old: PokemonState,
    m_new: MoveStateMachine,
) -> bool {
    &&& d.pokemon_id@ == meta.pokemon_id@
    &&& action_matches(d.action, m_new, meta)
    &&& d.health == s_old.health
    &&& d.energy == s_old.energy
    &&& d.shields == s_old.shields.spec_count()
}

/// The core a battle starts from.
pub open spec fn spec_init(
    p1: CombatantParams,
    p2: CombatantParams,
    p1_acts_first: bool,
    shields1: Shields,
    shields2: Shields,
) -> BattleCore {
    BattleCore {
        p1,
        p2,
        p1_acts_first,
        state: BattleState::Continue(
            PokemonState { health: p1.start_health, energy: 0, shields: shields1, state: MoveStateMachine::Neutral },
            MoveStateMachine::Neutral,
            PokemonState { health: p2.start_health, energy: 0, shields: shields2, state: MoveStateMachine::Neutral },
            MoveStateMachine::Neutral,
        ),
    }
}

/// A battle between two fully specified combatants: a finite,
/// forward-only sequence of turn reports, deterministic in its starting
/// core.
#[derive(Debug)]
pub struct Battle {
    pub core: BattleCore,
    pub meta1: CombatantMeta,
    pub meta2: CombatantMeta,
}

impl Battle {
    /// Starts a battle. `p1_acts_first` says which combatant resolves
    /// simultaneous charged moves first — the one with the higher attack
    /// stat.
    pub fn new(
        p1: CombatantParams,
        meta1: CombatantMeta,
        shields1: Shields,
        p2: CombatantParams,
        meta2: CombatantMeta,
        shields2: Shields,
        p1_acts_first: bool,
    ) -> (b: Battle)
        requires
            p1.wf(),
            p2.wf(),
        ensures
            b.core == spec_init(p1, p2, p1_acts_first, shields1, shields2),
            core_wf(b.core),
            b.meta1 == meta1,
            b.meta2 == meta2,
    {
        let s1 = PokemonState::new(&p1, shields1);
        let s2 = PokemonState::new(&p2, shields2);
        Battle {
            core: BattleCore {
                p1,
                p2,
                p1_acts_first,
                state: BattleState::Continue(s1, MoveStateMachine::Neutral, s2, MoveStateMachine::Neutral),
            },
            meta1,
            meta2,
        }
    }

    /// Resolves the next turn: both decisions are taken simultaneously
    /// from the current states, the registered actions resolve, and the
    /// outcome is read off the new healths. Returns the turn's report, or
    /// `None` once the battle has ended; the new core is exactly one
    /// specification step of the old one, so identical battles yield
    /// identical sequences.
    pub fn next(&mut self) -> (r: Option<TurnStateDTO>)
        requires
            core_wf(old(self).core),
        ensures
            final(self).core == spec_step(old(self).core),
            core_wf(final(self).core),
            final(self).meta1 == old(self).meta1,
            final(self).meta2 == old(self).meta2,
            r is Some <==> old(self).core.state is Continue,
            (old(self).core.state matches BattleState::Continue(s1, _m1, s2, _m2) ==> (r
                matches Some(dto) && dto_matches(
                dto.attacker,
                old(self).meta1,
                s1,
                spec_transition(old(self).core.p1, s1, s2.shields.spec_available()),
            ) && dto_matches(
                dto.defender,
                old(self).meta2,
                s2,
                spec_transition(old(self).core.p2, s2, s1.shields.spec_available()),
            ))),
    {
        proof {
            lemma_step_wf(old(self).core);
        }
        let (s1, s2) = match self.core.state {
            BattleState::Continue(s1, _m1, s2, _m2) => (s1, s2),
            _ => {
                return None;
            },
        };
        let p1 = self.core.p1;
        let p2 = self.core.p2;
        let n1 = step_move(&p1, &s1, s2.shields.available());
        let n2 = step_move(&p2, &s2, s1.shields.available());
        proof {
            lemma_transition_keeps_bounds(p1, s1, s2.shields.spec_available());
            lemma_transition_keeps_bounds(p2, s2, s1.shields.spec_available());
        }
        let (t1, t2) = match (n1, n2) {
            (MoveStateMachine::RegisterCharged(c1), MoveStateMachine::RegisterCharged(c2)) => {
                if self.core.p1_acts_first {
                    let a1 = apply_register_charged(&p1, s1, c1);
                    let d2 = apply_defend_charged(s2, charged_damage(&p1, c1));
                    let a2 = apply_register_charged(&p2, d2, c2);
                    let d1 = apply_defend_charged(a1, charged_damage(&p2, c2));
                    (d1, a2)
                } else {
                    let a2 = apply_register_charged(&p2, s2, c2);
                    let d1 = apply_defend_charged(s1, charged_damage(&p2, c2));
                    let a1 = apply_register_charged(&p1, d1, c1);
                    let d2 = apply_defend_charged(a2, charged_damage(&p1, c1));
                    (a1, d2)
                }
            },
            (MoveStateMachine::RegisterCharged(c1), MoveStateMachine::RegisterFast) => {
                let a1 = apply_register_charged(&p1, s1, c1);
                let d2 = apply_defend_charged(s2, charged_damage(&p1, c1));
                let a2 = apply_register_fast(&p2, d2);
                let d1 = apply_defend_fast(a1, p2.fast.damage);
                (d1, a2)
            },
            (MoveStateMachine::RegisterCharged(c1), _) => {
                let a1 = apply_register_charged(&p1, s1, c1);
                let d2 = apply_defend_charged(s2, charged_damage(&p1, c1));
                (a1, d2)
            },
            (MoveStateMachine::RegisterFast, MoveStateMachine::RegisterCharged(c2)) => {
                let a2 = apply_register_charged(&p2, s2, c2);
                let d1 = apply_defend_charged(s1, charged_damage(&p2, c2));
                let a1 = apply_register_fast(&p1, d1);
                let d2 = apply_defend_fast(a2, p1.fast.damage);
                (a1, d2)
            },
            (_, MoveStateMachine::RegisterCharged(c2)) => {
                let a2 = apply_register_charged(&p2, s2, c2);
                let d1 = apply_defend_charged(s1, charged_damage(&p2, c2));
                (d1, a2)
            },
            (MoveStateMachine::RegisterFast, MoveStateMachine::RegisterFast) => {
                let a1 = apply_register_fast(&p1, s1);
                let a2 = apply_register_fast(&p2, s2);
                let d1 = apply_defend_fast(a1, p2.fast.damage);
                let d2 = apply_defend_fast(a2, p1.fast.damage);
                (d1, d2)
            },
            (MoveStateMachine::RegisterFast, _) => {
                let a1 = apply_register_fast(&p1, s1);
                let d2 = apply_defend_fast(s2, p1.fast.damage);
                (a1, d2)
            },
            (_, MoveStateMachine::RegisterFast) => {
                let a2 = apply_register_fast(&p2, s2);
                let d1 = apply_defend_fast(s1, p2.fast.damage);
                (d1, a2)
            },
            (_, _) => (s1, s2),
        };
        let u1 = PokemonState { state: n1, ..t1 };
        let u2 = PokemonState { state: n2, ..t2 };
        self.core.state = if t1.health == 0 && t2.health == 0 {
            BattleState::Draw
        } else if t1.health == 0 {
            BattleState::Loss
        } else if t2.health == 0 {
            BattleState::Win
        } else {
            BattleState::Continue(u1, n1, u2, n2)
        };
        let attacker = PokemonStateDTO {
            pokemon_id: self.meta1.pokemon_id.clone(),
            action: action_for(n1, &self.meta1),
            health: s1.health,
            energy: s1.energy,
            shields: s1.shields.count(),
        };
        let defender = PokemonStateDTO {
            pokemon_id: self.meta2.pokemon_id.clone(),
            action: action_for(n2, &self.meta2),
            health: s2.health,
            energy: s2.energy,
            shields: s2.shields.count(),
        };
        Some(TurnStateDTO { attacker, defender })
    }
}

/// The damage of the chosen charged move.
fn charged_damage(p: &CombatantParams, choice: ChargedChoice) -> (d: i32)
    ensures
        d == p.charged(choice).damage,
{
    match choice {
        ChargedChoice::Main => p.charged1.damage,
        ChargedChoice::Other => p.charged2.damage,
    }
}

/// The reported action of a decision.
fn action_for(m: MoveStateMachine, meta: &CombatantMeta) -> (a: TurnAction)
    ensures
        action_matches(a, m, *meta),
{
    match m {
        MoveStateMachine::RegisterFast => TurnAction::FastAttack(meta.fast_uid.clone()),
        MoveStateMachine::RegisterCharged(ChargedChoice::Main) => TurnAction::ChargedAttack(
            meta.charged1_uid.clone(),
        ),
        MoveStateMachine::RegisterCharged(ChargedChoice::Other) => TurnAction::ChargedAttack(
            meta.charged2_uid.clone(),
        ),
        MoveStateMachine::Idle(_) => TurnAction::Wait,
        MoveStateMachine::Neutral => TurnAction::Wait,
    }
}


/// Law: battles are deterministic. The core after any number of turns is
/// a function of the starting core alone, so running identical loadouts
/// and shield counts twice replays the identical turn sequence and
/// outcome.
pub proof fn lemma_battle_deterministic(a: BattleCore, b: BattleCore, n: nat)
    requires
        a == b,
    ensures
        spec_run(a, n) == spec_run(b, n),
{
}

/// Ticks left before this combatant's fast move can next land.
pub open spec fn idle_pot(p: CombatantParams, m: MoveStateMachine) -> int {
    match m {
        MoveStateMachine::Idle(n) => n + 1,
        _ => p.fast.turns + 1,
    }
}

/// The weight of one point of the opponent's health in the measure: big
/// enough to dominate the energy gained and the cooldown restarted by the
/// fast move that took it.
pub open spec fn side_weight(p: CombatantParams) -> int {
    p.fast.turns + p.fast.energy_gain + 2
}

/// The first combatant's share of the measure of the work left: what its
/// own actions alone wear down — the opponent's health weighted, the
/// opponent's shields, its own energy, and its own cooldown.
pub open spec fn phi_side1(c: BattleCore) -> int {
    match c.state {
        BattleState::Continue(s1, _m1, s2, _m2) => s2.health * side_weight(c.p1) + 2
            * s2.shields.spec_count() + s1.energy + idle_pot(c.p1, s1.state),
        _ => 0,
    }
}

/// The second combatant's share of the measure.
pub open spec fn phi_side2(c: BattleCore) -> int {
    match c.state {
        BattleState::Continue(s1, _m1, s2, _m2) => s1.health * side_weight(c.p2) + 2
            * s1.shields.spec_count() + s2.energy + idle_pot(c.p2, s2.state),
        _ => 0,
    }
}

/// A measure of the work left in a running battle: each combatant's share
/// strictly decreases tick by tick while that combatant's fast move deals
/// damage.
pub open spec fn phi(c: BattleCore) -> int {
    phi_side1(c) + phi_side2(c)
}

pub proof fn lemma_phi_nonneg(c: BattleCore)
    requires
        core_wf(c),
    ensures
        phi_side1(c) >= 0,
        phi_side2(c) >= 0,
        phi(c) >= 0,
{
    match c.state {
        BattleState::Continue(s1, _m1, s2, _m2) => {
            assert(s2.health * side_weight(c.p1) >= 0) by (nonlinear_arith)
                requires
                    s2.health >= 0,
                    side_weight(c.p1) >= 0,
            ;
            assert(s1.health * side_weight(c.p2) >= 0) by (nonlinear_arith)
                requires
                    s1.health >= 0,
                    side_weight(c.p2) >= 0,
            ;
        },
        _ => {},
    }
}

/// Multiplying both sides of an inequality by a non-negative weight.
proof fn lemma_mul_le(a: int, b: int, w: int)
    requires
        a <= b,
        w >= 0,
    ensures
        a * w <= b * w,
{
    assert(a * w <= b * w) by (nonlinear_arith)
        requires
            a <= b,
            w >= 0,
    ;
}

/// A drop of at least one, multiplied by a positive weight, drops the
/// product by at least the weight.
proof fn lemma_mul_drop(a: int, b: int, w: int)
    requires
        a <= b - 1,
        w >= 0,
    ensures
        a * w <= b * w - w,
{
    assert(a * w <= (b - 1) * w) by (nonlinear_arith)
        requires
            a <= b - 1,
            w >= 0,
    ;
    assert((b - 1) * w == b * w - w) by (nonlinear_arith);
}

/// While the first combatant's fast move deals damage and its opponent
/// stands, every tick strictly shrinks the first combatant's share of the
/// measure, whatever the opponent does.
pub proof fn lemma_step_decreases_side1(c: BattleCore)
    requires
        core_wf(c),
        c.p1.fast.damage >= 1,
        c.state matches BattleState::Continue(s1, _m1, s2, _m2) && s2.health >= 1,
    ensures
        phi_side1(spec_step(c)) < phi_side1(c),
{
    match c.state {
        BattleState::Continue(s1, _m1, s2, _m2) => {
            let p1 = c.p1;
            let p2 = c.p2;
            let w1 = side_weight(p1);
            let n1 = spec_transition(p1, s1, s2.shields.spec_available());
            let n2 = spec_transition(p2, s2, s1.shields.spec_available());
            lemma_transition_keeps_bounds(p1, s1, s2.shields.spec_available());
            lemma_transition_keeps_bounds(p2, s2, s1.shields.spec_available());
            let r = spec_duel(p1, p2, c.p1_acts_first, s1, s2, n1, n2);
            let t1 = r.0;
            let t2 = r.1;
            let phi1_old = s2.health * w1 + 2 * s2.shields.spec_count() + s1.energy + idle_pot(
                p1,
                s1.state,
            );
            let phi1_new = t2.health * w1 + 2 * t2.shields.spec_count() + t1.energy + idle_pot(
                p1,
                n1,
            );
            assert(phi1_new <= phi1_old - 1) by {
                match n1 {
                    MoveStateMachine::RegisterCharged(_c1) => {
                        assert(t1.energy <= s1.energy - 1);
                        assert(t2.health <= s2.health);
                        assert(2 * t2.shields.spec_count() <= 2 * s2.shields.spec_count());
                        assert(idle_pot(p1, n1) == idle_pot(p1, s1.state));
                        lemma_mul_le(t2.health as int, s2.health as int, w1);
                    },
                    MoveStateMachine::RegisterFast => {
                        assert(t2.health <= s2.health - 1);
                        assert(t2.shields == s2.shields);
                        assert(t1.energy <= s1.energy + p1.fast.energy_gain);
                        assert(idle_pot(p1, n1) <= idle_pot(p1, s1.state) + p1.fast.turns);
                        lemma_mul_drop(t2.health as int, s2.health as int, w1);
                    },
                    MoveStateMachine::Idle(_n) => {
                        assert(t1.energy == s1.energy);
                        assert(t2.health <= s2.health);
                        assert(2 * t2.shields.spec_count() <= 2 * s2.shields.spec_count());
                        assert(idle_pot(p1, n1) <= idle_pot(p1, s1.state) - 1);
                        lemma_mul_le(t2.health as int, s2.health as int, w1);
                    },
                    MoveStateMachine::Neutral => {
                        assert(false);
                    },
                }
            }
            if spec_step(c).state is Continue {
                assert(phi_side1(spec_step(c)) == phi1_new);
            } else {
                assert(phi_side1(spec_step(c)) == 0);
                assert(phi1_old >= 1) by {
                    assert(s2.health * w1 >= 0) by (nonlinear_arith)
                        requires
                            s2.health >= 0,
                            w1 >= 0,
                    ;
                }
            }
        },
        _ => {},
    }
}

/// The mirror image: while the second combatant's fast move deals damage
/// and its opponent stands, every tick strictly shrinks the second
/// combatant's share of the measure.
pub proof fn lemma_step_decreases_side2(c: BattleCore)
    requires
        core_wf(c),
        c.p2.fast.damage >= 1,
        c.state matches BattleState::Continue(s1, _m1, s2, _m2) && s1.health >= 1,
    ensures
        phi_side2(spec_step(c)) < phi_side2(c),
{
    match c.state {
        BattleState::Continue(s1, _m1, s2, _m2) => {
            let p1 = c.p1;
            let p2 = c.p2;
            let w2 = side_weight(p2);
            let n1 = spec_transition(p1, s1, s2.shields.spec_available());
            let n2 = spec_transition(p2, s2, s1.shields.spec_available());
            lemma_transition_keeps_bounds(p1, s1, s2.shields.spec_available());
            lemma_transition_keeps_bounds(p2, s2, s1.shields.spec_available());
            let r = spec_duel(p1, p2, c.p1_acts_first, s1, s2, n1, n2);
            let t1 = r.0;
            let t2 = r.1;
            let phi2_old = s1.health * w2 + 2 * s1.shields.spec_count() + s2.energy + idle_pot(
                p2,
                s2.state,
            );
            let phi2_new = t1.health * w2 + 2 * t1.shields.spec_count() + t2.energy + idle_pot(
                p2,
                n2,
            );
            assert(phi2_new <= phi2_old - 1) by {
                match n2 {
                    MoveStateMachine::RegisterCharged(_c2) => {
                        assert(t2.energy <= s2.energy - 1);
                        assert(t1.health <= s1.health);
                        assert(2 * t1.shields.spec_count() <= 2 * s1.shields.spec_count());
                        assert(idle_pot(p2, n2) == idle_pot(p2, s2.state));
                        lemma_mul_le(t1.health as int, s1.health as int, w2);
                    },
                    MoveStateMachine::RegisterFast => {
                        assert(t1.health <= s1.health - 1);
                        assert(t1.shields == s1.shields);
                        assert(t2.energy <= s2.energy + p2.fast.energy_gain);
                        assert(idle_pot(p2, n2) <= idle_pot(p2, s2.state) + p2.fast.turns);
                        lemma_mul_drop(t1.health as int, s1.health as int, w2);
                    },
                    MoveStateMachine::Idle(_n) => {
                        assert(t2.energy == s2.energy);
                        assert(t1.health <= s1.health);
                        assert(2 * t1.shields.spec_count() <= 2 * s1.shields.spec_count());
                        assert(idle_pot(p2, n2) <= idle_pot(p2, s2.state) - 1);
                        lemma_mul_le(t1.health as int, s1.health as int, w2);
                    },
                    MoveStateMachine::Neutral => {
                        assert(false);
                    },
                }
            }
            if spec_step(c).state is Continue {
                assert(phi_side2(spec_step(c)) == phi2_new);
            } else {
                assert(phi_side2(spec_step(c)) == 0);
                assert(phi2_old >= 1) by {
                    assert(s1.health * w2 >= 0) by (nonlinear_arith)
                        requires
                            s1.health >= 0,
                            w2 >= 0,
                    ;
                }
            }
        },
        _ => {},
    }
}

/// Law: battles terminate. From any well-formed running core whose
/// combatants both stand and of which at least one has a damaging fast
/// move — the damage formula grants every move at least one — a bounded
/// number of ticks reaches an outcome other than `Continue`; the bound is
/// the damaging side's share of the measure. Simultaneous zero health on
/// both sides yields `Draw`, per the step function.
pub proof fn lemma_battle_terminates(c: BattleCore)
    requires
        core_wf(c),
        c.p1.fast.damage >= 1 || c.p2.fast.damage >= 1,
        c.state matches BattleState::Continue(s1, _m1, s2, _m2) ==> s1.health >= 1 && s2.health
            >= 1,
    ensures
        exists|n: nat|
            n <= (if c.p1.fast.damage >= 1 {
                phi_side1(c)
            } else {
                phi_side2(c)
            }) && !((#[trigger] spec_run(c, n)).state is Continue),
    decreases (if c.p1.fast.damage >= 1 {
        phi_side1(c)
    } else {
        phi_side2(c)
    }),
{
    lemma_phi_nonneg(c);
    if !(c.state is Continue) {
        assert(spec_run(c, 0) == c);
        assert(!(spec_run(c, 0nat).state is Continue));
    } else {
        if c.p1.fast.damage >= 1 {
            lemma_step_decreases_side1(c);
        } else {
            lemma_step_decreases_side2(c);
        }
        lemma_step_wf(c);
        let next = spec_step(c);
        assert(next.state matches BattleState::Continue(u1, _n1, u2, _n2) ==> u1.health >= 1
            && u2.health >= 1);
        lemma_phi_nonneg(next);
        lemma_battle_terminates(next);
        let bound_next = if c.p1.fast.damage >= 1 {
            phi_side1(next)
        } else {
            phi_side2(next)
        };
        let n0 = choose|n: nat|
            n <= bound_next && !((#[trigger] spec_run(next, n)).state is Continue);
        assert(spec_run(c, n0 + 1) == spec_run(next, n0));
        assert(!(spec_run(c, (n0 + 1) as nat).state is Continue));
    }
}

} // verus!
