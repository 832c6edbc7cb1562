//! Combat mechanics for a player-versus-player collectible battler.
//!
//! The crate turns a static game-configuration document into a typed combat
//! dataset (type chart, move catalog, creature catalog, level-multiplier
//! table), simulates deterministic turn-based battles between two fully
//! specified combatants, and searches the attribute space for the best build
//! under a power cap.
//!
//! Raw configuration scalars (move powers, progression multipliers, type
//! effectiveness values) are carried through as opaque 64-bit encodings: the
//! library stores, arranges and hands them back without interpreting them,
//! and callers evaluate the numeric formulas on the values they get back.
//! Everything the library itself computes — catalog construction, level
//! arithmetic, the battle state machine, the build search — is proved
//! against the contracts below.

use vstd::prelude::*;
use vstd::string::StringExecFns;

pub mod battle;
pub mod error;
pub mod gamemaster;
pub mod mechanics;
pub mod moves;
pub mod pokemon;
pub mod ranker;

verus! {

/// The 18 elemental categories, in the canonical order used for the rows
/// and columns of the effectiveness table.
#[derive(Debug, PartialEq, Eq, Structural, Clone, Copy)]
pub enum Type {
    Normal,
    Fighting,
    Flying,
    Poison,
    Ground,
    Rock,
    Bug,
    Phantom,
    Steel,
    Fire,
    Water,
    Grass,
    Electric,
    Psychic,
    Ice,
    Dragon,
    Dark,
    Fairy,
}

impl Type {
    /// Position of this type in the canonical ordering, in 0..18.
    pub open spec fn spec_index(self) -> int {
        match self {
            Type::Normal => 0,
            Type::Fighting => 1,
            Type::Flying => 2,
            Type::Poison => 3,
            Type::Ground => 4,
            Type::Rock => 5,
            Type::Bug => 6,
            Type::Phantom => 7,
            Type::Steel => 8,
            Type::Fire => 9,
            Type::Water => 10,
            Type::Grass => 11,
            Type::Electric => 12,
            Type::Psychic => 13,
            Type::Ice => 14,
            Type::Dragon => 15,
            Type::Dark => 16,
            Type::Fairy => 17,
        }
    }

    pub fn index(self) -> (i: usize)
        ensures
            i == self.spec_index(),
    {
        match self {
            Type::Normal => 0,
            Type::Fighting => 1,
            Type::Flying => 2,
            Type::Poison => 3,
            Type::Ground => 4,
            Type::Rock => 5,
            Type::Bug => 6,
            Type::Phantom => 7,
            Type::Steel => 8,
            Type::Fire => 9,
            Type::Water => 10,
            Type::Grass => 11,
            Type::Electric => 12,
            Type::Psychic => 13,
            Type::Ice => 14,
            Type::Dragon => 15,
            Type::Dark => 16,
            Type::Fairy => 17,
        }
    }
}

/// The number of known types.
pub const TYPE_COUNT: usize = 18;

/// The type whose canonical position is `i`.
pub open spec fn type_of_index(i: int) -> Type {
    if i == 0 {
        Type::Normal
    } else if i == 1 {
        Type::Fighting
    } else if i == 2 {
        Type::Flying
    } else if i == 3 {
        Type::Poison
    } else if i == 4 {
        Type::Ground
    } else if i == 5 {
        Type::Rock
    } else if i == 6 {
        Type::Bug
    } else if i == 7 {
        Type::Phantom
    } else if i == 8 {
        Type::Steel
    } else if i == 9 {
        Type::Fire
    } else if i == 10 {
        Type::Water
    } else if i == 11 {
        Type::Grass
    } else if i == 12 {
        Type::Electric
    } else if i == 13 {
        Type::Psychic
    } else if i == 14 {
        Type::Ice
    } else if i == 15 {
        Type::Dragon
    } else if i == 16 {
        Type::Dark
    } else {
        Type::Fairy
    }
}

/// A level-multiplier table entry. Even positions carry a raw progression
/// scalar; odd positions carry the two adjacent raw scalars that the
/// documented half-step interpolation is evaluated on.
#[derive(Debug, Clone, Copy, PartialEq, Eq, Structural)]
pub enum CpmValue {
    /// The raw progression scalar of a whole level.
    Whole(u64),
    /// The two adjacent raw scalars a half level interpolates between.
    HalfStep(u64, u64),
}

/// The type a configuration type string names, or `None` when the string is
/// not one of the 18 recognized names.
pub open spec fn type_from_name(s: Seq<char>) -> Option<Type> {
    if s == "POKEMON_TYPE_NORMAL"@ {
        Some(Type::Normal)
    } else if s == "POKEMON_TYPE_FIGHTING"@ {
        Some(Type::Fighting)
    } else if s == "POKEMON_TYPE_FLYING"@ {
        Some(Type::Flying)
    } else if s == "POKEMON_TYPE_POISON"@ {
        Some(Type::Poison)
    } else if s == "POKEMON_TYPE_GROUND"@ {
        Some(Type::Ground)
    } else if s == "POKEMON_TYPE_ROCK"@ {
        Some(Type::Rock)
    } else if s == "POKEMON_TYPE_BUG"@ {
        Some(Type::Bug)
    } else if s == "POKEMON_TYPE_GHOST"@ {
        Some(Type::Phantom)
    } else if s == "POKEMON_TYPE_STEEL"@ {
        Some(Type::Steel)
    } else if s == "POKEMON_TYPE_FIRE"@ {
        Some(Type::Fire)
    } else if s == "POKEMON_TYPE_WATER"@ {
        Some(Type::Water)
    } else if s == "POKEMON_TYPE_GRASS"@ {
        Some(Type::Grass)
    } else if s == "POKEMON_TYPE_ELECTRIC"@ {
        Some(Type::Electric)
    } else if s == "POKEMON_TYPE_PSYCHIC"@ {
        Some(Type::Psychic)
    } else if s == "POKEMON_TYPE_ICE"@ {
        Some(Type::Ice)
    } else if s == "POKEMON_TYPE_DRAGON"@ {
        Some(Type::Dragon)
    } else if s == "POKEMON_TYPE_DARK"@ {
        Some(Type::Dark)
    } else if s == "POKEMON_TYPE_FAIRY"@ {
        Some(Type::Fairy)
    } else {
        None
    }
}

/// Whether two string slices hold the same characters.
pub fn str_eq(a: &str, b: &str) -> (r: bool)
    ensures
        r == (a@ == b@),
{
    let sa: String = a.to_owned();
    let sb: String = b.to_owned();
    sa == sb
}

impl Type {
    /// Resolves a configuration type string to its type; an unrecognized
    /// string is a configuration error.
    pub fn try_from(s: &str) -> (r: Result<Type, crate::error::Error>)
        ensures
            match r {
                Ok(t) => type_from_name(s@) == Some(t),
                Err(e) => type_from_name(s@) is None && e.is_parse(),
            },
    {
        if str_eq(s, "POKEMON_TYPE_NORMAL") {
            Ok(Type::Normal)
        } else if str_eq(s, "POKEMON_TYPE_FIGHTING") {
            Ok(Type::Fighting)
        } else if str_eq(s, "POKEMON_TYPE_FLYING") {
            Ok(Type::Flying)
        } else if str_eq(s, "POKEMON_TYPE_POISON") {
            Ok(Type::Poison)
        } else if str_eq(s, "POKEMON_TYPE_GROUND") {
            Ok(Type::Ground)
        } else if str_eq(s, "POKEMON_TYPE_ROCK") {
            Ok(Type::Rock)
        } else if str_eq(s, "POKEMON_TYPE_BUG") {
            Ok(Type::Bug)
        } else if str_eq(s, "POKEMON_TYPE_GHOST") {
            Ok(Type::Phantom)
        } else if str_eq(s, "POKEMON_TYPE_STEEL") {
            Ok(Type::Steel)
        } else if str_eq(s, "POKEMON_TYPE_FIRE") {
            Ok(Type::Fire)
        } else if str_eq(s, "POKEMON_TYPE_WATER") {
            Ok(Type::Water)
        } else if str_eq(s, "POKEMON_TYPE_GRASS") {
            Ok(Type::Grass)
        } else if str_eq(s, "POKEMON_TYPE_ELECTRIC") {
            Ok(Type::Electric)
        } else if str_eq(s, "POKEMON_TYPE_PSYCHIC") {
            Ok(Type::Psychic)
        } else if str_eq(s, "POKEMON_TYPE_ICE") {
            Ok(Type::Ice)
        } else if str_eq(s, "POKEMON_TYPE_DRAGON") {
            Ok(Type::Dragon)
        } else if str_eq(s, "POKEMON_TYPE_DARK") {
            Ok(Type::Dark)
        } else if str_eq(s, "POKEMON_TYPE_FAIRY") {
            Ok(Type::Fairy)
        } else {
            Err(crate::error::Error::ParseError(String::from_str(
                "unrecognized type string",
            )))
        }
    }
}

} // verus!
