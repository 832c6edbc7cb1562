use vstd::prelude::*;

verus! {

/// Raw configuration records, as handed in by the process that reads and
/// decodes the configuration document.
///
/// Numeric scalars of the document (move power, progression multipliers,
/// effectiveness values) arrive as opaque 64-bit encodings of the decoded
/// numbers. The library stores and arranges them without interpreting them;
/// callers evaluate formulas on the values they read back.

/// Default cooldown field for a combat move record that omits it: one-turn
/// moves leave the field undefined, and an n-turn move stores n - 1.
pub fn pvp_move_default_duration_turns() -> (r: i32)
    ensures
        r == 0,
{
    0
}

#[derive(Debug, Clone)]
pub struct AvatarCustomization {
    pub enabled: Option<bool>,
}

/// A combat move record; the sign of `energy_delta` decides whether it is a
/// fast move (non-negative) or a charged move (negative).
#[derive(Debug, Clone)]
pub struct PvPMove {
    pub unique_id: String,
    pub type_: String,
    /// Opaque encoding of the move's power scalar.
    pub power: u64,
    pub vfx_name: String,
    pub duration_turns: i32,
    pub energy_delta: i32,
}

#[derive(Debug, Clone)]
pub struct FormDetail {
    pub form: String,
    pub asset_bundle_suffix: Option<String>,
}

#[derive(Debug, Clone)]
pub struct Form {
    pub pokemon: String,
    pub forms: Vec<FormDetail>,
}

/// The level-progression record: one multiplier scalar per whole level.
#[derive(Debug, Clone)]
pub struct PlayerLevel {
    /// Opaque encodings of the per-level multiplier scalars.
    pub cp_multiplier: Vec<u64>,
}

/// One row of the type chart: the effectiveness of `attack_type` against
/// every defending type, in the canonical type order.
#[derive(Debug, Clone)]
pub struct TypeEffectiveness {
    pub attack_type: String,
    /// Opaque encodings of the per-defending-type multiplier scalars.
    pub effectiveness: Vec<u64>,
}

#[derive(Debug, Clone, Copy, PartialEq, Eq, Structural)]
pub struct Stats {
    pub base_attack: u16,
    pub base_defense: u16,
    pub base_stamina: u16,
}

#[derive(Debug, Clone)]
pub struct ThirdMove {
    pub stardust_to_unlock: u64,
    pub candy_to_unlock: u64,
}

#[derive(Debug, Clone)]
pub struct PokemonSettings {
    pub pokemon_id: String,
    pub family_id: String,
    pub type1: String,
    pub type2: Option<String>,
    pub stats: Stats,
    pub quick_moves: Vec<String>,
    pub cinematic_moves: Vec<String>,
    pub third_move: ThirdMove,
    pub candy_to_evolve: Option<u64>,
    pub form: Option<String>,
}

#[derive(Debug, Clone)]
pub struct PokemonUpgrades {
    pub candy_cost: Vec<u16>,
    pub stardust_cost: Vec<u16>,
    /// Opaque encodings of the upgrade multiplier scalars.
    pub shadow_stardust_multiplier: u64,
    pub shadow_candy_multiplier: u64,
    pub purified_stardust_multiplier: u64,
    pub purified_candy_multiplier: u64,
}

#[derive(Debug, Clone)]
pub enum GameMasterEntry {
    AvatarCustomization(AvatarCustomization),
    PvPMove(PvPMove),
    Form(Form),
    PlayerLevel(PlayerLevel),
    PokemonUpgrades(PokemonUpgrades),
    TypeEffectiveness(TypeEffectiveness),
    PokemonSettings(PokemonSettings),
}

#[derive(Debug, Clone)]
pub struct ItemTemplate {
    pub template_id: String,
    pub entry: Option<GameMasterEntry>,
}

/// The whole configuration document: a flat list of records.
#[derive(Debug, Clone)]
pub struct GameMaster {
    pub item_templates: Vec<ItemTemplate>,
}

} // verus!
