use vstd::prelude::*;
use vstd::string::StringExecFns;

use crate::error::Error;
use crate::gamemaster as gm;
use crate::type_from_name;
use crate::Type;

verus! {

/// A fast move: a low-cost basic attack that generates energy and repeats
/// on a fixed cooldown.
#[derive(Debug, Clone)]
pub struct FastMove {
    pub uid: String,
    pub type_: Type,
    /// Opaque encoding of the move's power scalar.
    pub power: u64,
    /// Cooldown turns to wait in excess of the turn the move lands on.
    pub turns: i32,
    /// Energy granted to the attacker on use; never negative.
    pub energy: i32,
}

/// A charged move: a special attack that spends energy.
#[derive(Debug, Clone)]
pub struct ChargedMove {
    pub uid: String,
    pub type_: Type,
    /// Opaque encoding of the move's power scalar.
    pub power: u64,
    /// Energy delta on use; always negative.
    pub energy: i32,
}

/// Whether a combat move record converts to a fast move: its energy delta
/// must be non-negative and its type string recognized.
pub open spec fn fast_convertible(m: gm::PvPMove) -> bool {
    m.energy_delta >= 0 && type_from_name(m.type_@) is Some
}

/// Whether a combat move record converts to a charged move: its energy
/// delta must be negative and its type string recognized.
pub open spec fn charged_convertible(m: gm::PvPMove) -> bool {
    m.energy_delta < 0 && type_from_name(m.type_@) is Some
}

/// The fast move a convertible record resolves to.
pub open spec fn fast_move_record(m: gm::PvPMove) -> FastMove
    recommends
        fast_convertible(m),
{
    FastMove {
        uid: m.unique_id,
        type_: type_from_name(m.type_@)->0,
        power: m.power,
        turns: m.duration_turns,
        energy: m.energy_delta,
    }
}

/// The charged move a convertible record resolves to.
pub open spec fn charged_move_record(m: gm::PvPMove) -> ChargedMove
    recommends
        charged_convertible(m),
{
    ChargedMove {
        uid: m.unique_id,
        type_: type_from_name(m.type_@)->0,
        power: m.power,
        energy: m.energy_delta,
    }
}

impl FastMove {
    /// Converts a raw combat move record into a fast move. A record with a
    /// negative energy delta or an unrecognized type string is rejected.
    pub fn try_from(m: &gm::PvPMove) -> (r: Result<FastMove, Error>)
        ensures
            fast_convertible(*m) ==> r == Ok::<FastMove, Error>(fast_move_record(*m)),
            !fast_convertible(*m) ==> (r matches Err(e) && e.is_conversion()),
    {
        if m.energy_delta >= 0 {
            match Type::try_from(m.type_.as_str()) {
                Ok(t) => Ok(FastMove {
                    uid: m.unique_id.clone(),
                    type_: t,
                    power: m.power,
                    turns: m.duration_turns,
                    energy: m.energy_delta,
                }),
                Err(_) => Err(Error::ConversionError(String::from_str(
                    "fast move record names an unrecognized type",
                ))),
            }
        } else {
            Err(Error::ConversionError(String::from_str(
                "record with a negative energy delta is not a fast move",
            )))
        }
    }
}

impl FastMove {
    /// An owned copy of this move.
    pub fn duplicate(&self) -> (r: FastMove)
        ensures
            r == *self,
    {
        FastMove {
            uid: self.uid.clone(),
            type_: self.type_,
            power: self.power,
            turns: self.turns,
            energy: self.energy,
        }
    }
}

impl ChargedMove {
    /// An owned copy of this move.
    pub fn duplicate(&self) -> (r: ChargedMove)
        ensures
            r == *self,
    {
        ChargedMove {
            uid: self.uid.clone(),
            type_: self.type_,
            power: self.power,
            energy: self.energy,
        }
    }
}

impl ChargedMove {
    /// Converts a raw combat move record into a charged move. A record with
    /// a non-negative energy delta or an unrecognized type string is
    /// rejected.
    pub fn try_from(m: &gm::PvPMove) -> (r: Result<ChargedMove, Error>)
        ensures
            charged_convertible(*m) ==> r == Ok::<ChargedMove, Error>(charged_move_record(*m)),
            !charged_convertible(*m) ==> (r matches Err(e) && e.is_conversion()),
    {
        if m.energy_delta < 0 {
            match Type::try_from(m.type_.as_str()) {
                Ok(t) => Ok(ChargedMove {
                    uid: m.unique_id.clone(),
                    type_: t,
                    power: m.power,
                    energy: m.energy_delta,
                }),
                Err(_) => Err(Error::ConversionError(String::from_str(
                    "charged move record names an unrecognized type",
                ))),
            }
        } else {
            Err(Error::ConversionError(String::from_str(
                "record with a non-negative energy delta is not a charged move",
            )))
        }
    }
}

} // verus!
