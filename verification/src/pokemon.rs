use vstd::prelude::*;

use crate::gamemaster as gm;
use crate::moves::{ChargedMove, FastMove};
use crate::CpmValue;
use crate::Type;

verus! {

/// The factors of one entry of a species' defensive-effectiveness row: the
/// effectiveness scalar of the attacking type against the species' primary
/// type, and, for a dual-typed species, the scalar against its secondary
/// type. The combined effectiveness is the product of the two factors.
#[derive(Debug, Clone, Copy, PartialEq, Eq, Structural)]
pub struct DefenseEffectiveness {
    pub primary: u64,
    pub secondary: Option<u64>,
}

/// A species' combat profile, derived from its configuration record.
#[derive(Debug)]
pub struct Pokemon {
    pub id: String,
    pub stats: gm::Stats,
    pub type1: Type,
    pub type2: Option<Type>,
    /// Ids of the fast moves the species may use.
    pub fast_move_ids: Vec<String>,
    /// Ids of the charged moves the species may use.
    pub charged_move_ids: Vec<String>,
    /// Defensive effectiveness factors, indexed by attacking type.
    pub type_effectiveness: Vec<DefenseEffectiveness>,
}

/// Whether two species profiles carry the same data.
pub open spec fn species_eq(a: Pokemon, b: Pokemon) -> bool {
    &&& a.id@ == b.id@
    &&& a.stats == b.stats
    &&& a.type1 == b.type1
    &&& a.type2 == b.type2
    &&& a.fast_move_ids@ == b.fast_move_ids@
    &&& a.charged_move_ids@ == b.charged_move_ids@
    &&& a.type_effectiveness@ == b.type_effectiveness@
}

impl Pokemon {
    /// A species profile is well formed when its defensive row covers every
    /// attacking type.
    pub open spec fn wf(self) -> bool {
        self.type_effectiveness@.len() == crate::TYPE_COUNT
    }

    /// An owned copy of this profile.
    pub fn duplicate(&self) -> (r: Pokemon)
        ensures
            species_eq(r, *self),
    {
        let mut fast_ids: Vec<String> = Vec::new();
        let mut i: usize = 0;
        while i < self.fast_move_ids.len()
            invariant
                i <= self.fast_move_ids.len(),
                fast_ids@ =~= self.fast_move_ids@.take(i as int),
            decreases self.fast_move_ids.len() - i,
        {
            fast_ids.push(self.fast_move_ids[i].clone());
            i = i + 1;
        }
        let mut charged_ids: Vec<String> = Vec::new();
        let mut i: usize = 0;
        while i < self.charged_move_ids.len()
            invariant
                i <= self.charged_move_ids.len(),
                charged_ids@ =~= self.charged_move_ids@.take(i as int),
            decreases self.charged_move_ids.len() - i,
        {
            charged_ids.push(self.charged_move_ids[i].clone());
            i = i + 1;
        }
        let mut eff: Vec<DefenseEffectiveness> = Vec::new();
        let mut i: usize = 0;
        while i < self.type_effectiveness.len()
            invariant
                i <= self.type_effectiveness.len(),
                eff@ =~= self.type_effectiveness@.take(i as int),
            decreases self.type_effectiveness.len() - i,
        {
            eff.push(self.type_effectiveness[i]);
            i = i + 1;
        }
        proof {
            assert(fast_ids@ =~= self.fast_move_ids@);
            assert(charged_ids@ =~= self.charged_move_ids@);
            assert(eff@ =~= self.type_effectiveness@);
        }
        Pokemon {
            id: self.id.clone(),
            stats: self.stats,
            type1: self.type1,
            type2: self.type2,
            fast_move_ids: fast_ids,
            charged_move_ids: charged_ids,
            type_effectiveness: eff,
        }
    }
}

/// One of the 79 discrete progression points: a whole level in 1..=40,
/// possibly advanced by a half step. The half step past level 40 does not
/// exist.
#[derive(Debug, PartialEq, Eq, Structural, PartialOrd, Ord, Clone, Copy)]
pub struct Level {
    pub level: u16,
    pub a_half: bool,
}

impl Level {
    /// A level is valid when its canonical index lies in 0..=78.
    pub open spec fn wf(self) -> bool {
        1 <= self.level <= 40 && (self.level == 40 ==> !self.a_half)
    }

    /// Canonical index of this level in the multiplier table.
    pub open spec fn spec_index(self) -> int {
        (self.level - 1) * 2 + if self.a_half {
            1int
        } else {
            0int
        }
    }

    pub fn index(&self) -> (i: u16)
        requires
            1 <= self.level <= 40,
        ensures
            i == self.spec_index(),
    {
        (self.level - 1) * 2 + if self.a_half {
            1
        } else {
            0
        }
    }

    /// The level whose canonical index is `i`.
    pub fn from_index(i: u16) -> (l: Level)
        requires
            i <= 78,
        ensures
            l.wf(),
            l.spec_index() == i,
    {
        Level { level: i / 2 + 1, a_half: i % 2 == 1 }
    }

    /// The level one half step up. Stepping past the top of the table is a
    /// caller error, so the receiver must lie strictly below it.
    pub fn next(self) -> (l: Level)
        requires
            self.wf(),
            self.spec_index() < 78,
        ensures
            l.wf(),
            l.spec_index() == self.spec_index() + 1,
    {
        if self.a_half {
            Level { level: self.level + 1, a_half: false }
        } else {
            Level { level: self.level, a_half: true }
        }
    }

    /// The level one half step down, saturating at the lowest level.
    pub fn prev(self) -> (l: Level)
        requires
            self.wf(),
        ensures
            l.wf(),
            l.spec_index() == if self.spec_index() > 0 {
                self.spec_index() - 1
            } else {
                0
            },
    {
        if self.a_half {
            Level { level: self.level, a_half: false }
        } else {
            if self.level > 1 {
                Level { level: self.level - 1, a_half: true }
            } else {
                Level { level: 1, a_half: false }
            }
        }
    }

    /// The level `rhs` half steps up.
    pub fn add(self, rhs: usize) -> (l: Level)
        requires
            self.wf(),
            self.spec_index() + rhs <= 78,
        ensures
            l.wf(),
            l.spec_index() == self.spec_index() + rhs,
    {
        let mut lvl = self;
        let mut k: usize = 0;
        while k < rhs
            invariant
                k <= rhs,
                lvl.wf(),
                lvl.spec_index() == self.spec_index() + k,
                self.spec_index() + rhs <= 78,
            decreases rhs - k,
        {
            lvl = lvl.next();
            k = k + 1;
        }
        lvl
    }

    /// The level `rhs` half steps down, saturating at the lowest level.
    pub fn sub(self, rhs: usize) -> (l: Level)
        requires
            self.wf(),
        ensures
            l.wf(),
            l.spec_index() == if self.spec_index() - rhs >= 0 {
                self.spec_index() - rhs
            } else {
                0
            },
    {
        let mut lvl = self;
        let mut k: usize = 0;
        while k < rhs
            invariant
                k <= rhs,
                lvl.wf(),
                lvl.spec_index() == if self.spec_index() - k >= 0 {
                    self.spec_index() - k
                } else {
                    0
                },
            decreases rhs - k,
        {
            lvl = lvl.prev();
            k = k + 1;
        }
        lvl
    }
}

/// A fully specified combatant: a species at a level, with its individual
/// values and chosen moves.
#[derive(Debug)]
pub struct PokemonInstance {
    pub pokemon: Pokemon,
    pub atk_iv: u16,
    pub def_iv: u16,
    pub sta_iv: u16,
    pub level: Level,
    /// The multiplier-table entry of `level`.
    pub cpm: CpmValue,
    pub fast_move: FastMove,
    pub charged_move1: ChargedMove,
    pub charged_move2: ChargedMove,
}

impl PokemonInstance {
    /// Whether the move of the given type gets the same-type attack bonus
    /// from this combatant.
    pub open spec fn spec_stab(self, t: Type) -> bool {
        self.pokemon.type1 == t || self.pokemon.type2 == Some(t)
    }

    /// Whether a move of type `t` gets the same-type attack bonus.
    pub fn stab(&self, t: Type) -> (r: bool)
        ensures
            r == self.spec_stab(t),
    {
        self.pokemon.type1 == t || (match self.pokemon.type2 {
            Some(t2) => t2 == t,
            None => false,
        })
    }

    /// The defensive effectiveness factors of this combatant against a move
    /// of type `t`.
    pub fn type_effectiveness(&self, t: Type) -> (r: DefenseEffectiveness)
        requires
            self.pokemon.wf(),
        ensures
            r == self.pokemon.type_effectiveness@[t.spec_index()],
    {
        self.pokemon.type_effectiveness[t.index()]
    }

    /// Assembles a combatant from already validated parts. Individual
    /// values beyond 15 and invalid levels are rejected upstream, at the
    /// loadout-construction boundary.
    pub fn new(
        pokemon: Pokemon,
        level: Level,
        cpm: CpmValue,
        atk_iv: u16,
        def_iv: u16,
        sta_iv: u16,
        fast_move: FastMove,
        charged_move1: ChargedMove,
        charged_move2: ChargedMove,
    ) -> (r: PokemonInstance)
        requires
            level.wf(),
            atk_iv <= 15,
            def_iv <= 15,
            sta_iv <= 15,
        ensures
            species_eq(r.pokemon, pokemon),
            r.level == level,
            r.cpm == cpm,
            r.atk_iv == atk_iv,
            r.def_iv == def_iv,
            r.sta_iv == sta_iv,
            r.fast_move == fast_move,
            r.charged_move1 == charged_move1,
            r.charged_move2 == charged_move2,
    {
        PokemonInstance {
            pokemon,
            level,
            cpm,
            atk_iv,
            def_iv,
            sta_iv,
            fast_move,
            charged_move1,
            charged_move2,
        }
    }
}

} // verus!
