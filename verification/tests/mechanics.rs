use pvp_mechanics::error::Error;
use pvp_mechanics::gamemaster::{
    GameMaster, GameMasterEntry, ItemTemplate, PlayerLevel, PokemonSettings, PvPMove, Stats,
    ThirdMove, TypeEffectiveness,
};
use pvp_mechanics::mechanics::Mechanics;
use pvp_mechanics::pokemon::Level;
use pvp_mechanics::CpmValue;
use pvp_mechanics::Type;

fn type_names() -> [&'static str; 18] {
    [
    "POKEMON_TYPE_NORMAL",
    "POKEMON_TYPE_FIGHTING",
    "POKEMON_TYPE_FLYING",
    "POKEMON_TYPE_POISON",
    "POKEMON_TYPE_GROUND",
    "POKEMON_TYPE_ROCK",
    "POKEMON_TYPE_BUG",
    "POKEMON_TYPE_GHOST",
    "POKEMON_TYPE_STEEL",
    "POKEMON_TYPE_FIRE",
    "POKEMON_TYPE_WATER",
    "POKEMON_TYPE_GRASS",
    "POKEMON_TYPE_ELECTRIC",
    "POKEMON_TYPE_PSYCHIC",
    "POKEMON_TYPE_ICE",
    "POKEMON_TYPE_DRAGON",
    "POKEMON_TYPE_DARK",
    "POKEMON_TYPE_FAIRY",
    ]
}

/// The effectiveness scalar of attacking type `a` against defending type
/// `d` in the synthetic chart below.
fn eff_scalar(a: usize, d: usize) -> f64 {
    if d == (a + 1) % 18 {
        1.6
    } else if d == (a + 2) % 18 {
        0.625
    } else {
        1.0
    }
}

fn raw_multiplier(i: usize) -> f64 {
    0.1 + 0.0175 * i as f64
}

fn entry(e: GameMasterEntry) -> ItemTemplate {
    ItemTemplate { template_id: String::from("T"), entry: Some(e) }
}

fn fast_record(id: &str, type_: &str, power: f64, turns: i32, energy: i32) -> ItemTemplate {
    entry(GameMasterEntry::PvPMove(PvPMove {
        unique_id: String::from(id),
        type_: String::from(type_),
        power: power.to_bits(),
        vfx_name: String::from(id),
        duration_turns: turns,
        energy_delta: energy,
    }))
}

fn species_record(
    id: &str,
    type1: &str,
    type2: Option<&str>,
    stats: (u16, u16, u16),
    quick: &[&str],
    cinematic: &[&str],
) -> ItemTemplate {
    entry(GameMasterEntry::PokemonSettings(PokemonSettings {
        pokemon_id: String::from(id),
        family_id: String::from(id),
        type1: String::from(type1),
        type2: type2.map(String::from),
        stats: Stats { base_attack: stats.0, base_defense: stats.1, base_stamina: stats.2 },
        quick_moves: quick.iter().map(|s| String::from(*s)).collect(),
        cinematic_moves: cinematic.iter().map(|s| String::from(*s)).collect(),
        third_move: ThirdMove { stardust_to_unlock: 10, candy_to_unlock: 10 },
        candy_to_evolve: None,
        form: None,
    }))
}

fn document() -> GameMaster {
    let mut templates: Vec<ItemTemplate> = Vec::new();
    templates.push(ItemTemplate { template_id: String::from("EMPTY"), entry: None });
    for a in 0..18 {
        templates.push(entry(GameMasterEntry::TypeEffectiveness(TypeEffectiveness {
            attack_type: String::from(type_names()[a]),
            effectiveness: (0..18).map(|d| eff_scalar(a, d).to_bits()).collect(),
        })));
    }
    templates.push(entry(GameMasterEntry::PlayerLevel(PlayerLevel {
        cp_multiplier: (0..40).map(|i| raw_multiplier(i).to_bits()).collect(),
    })));
    templates.push(fast_record("QUICK_A", "POKEMON_TYPE_NORMAL", 5.0, 0, 2));
    templates.push(fast_record("QUICK_B", "POKEMON_TYPE_FIRE", 8.0, 2, 7));
    templates.push(fast_record("BLAST_X", "POKEMON_TYPE_FIRE", 50.0, 0, -35));
    templates.push(fast_record("BLAST_Y", "POKEMON_TYPE_WATER", 90.0, 0, -50));
    templates.push(species_record(
        "ALPHA",
        "POKEMON_TYPE_NORMAL",
        None,
        (150, 120, 100),
        &["QUICK_A", "QUICK_B"],
        &["BLAST_X", "BLAST_Y"],
    ));
    templates.push(species_record(
        "BRAVO",
        "POKEMON_TYPE_FIRE",
        Some("POKEMON_TYPE_WATER"),
        (180, 90, 130),
        &["QUICK_B"],
        &["BLAST_Y"],
    ));
    GameMaster { item_templates: templates }
}

#[test]
fn test_build_catalogs() {
    let mech = Mechanics::new(&document()).unwrap();
    let qa = mech.fast_move("QUICK_A").unwrap();
    assert_eq!(qa.uid, "QUICK_A");
    assert_eq!(qa.type_, Type::Normal);
    assert_eq!(qa.power, 5.0f64.to_bits());
    assert_eq!(qa.turns, 0);
    assert_eq!(qa.energy, 2);
    let bx = mech.charged_move("BLAST_X").unwrap();
    assert_eq!(bx.type_, Type::Fire);
    assert_eq!(bx.energy, -35);
    assert!(mech.fast_move("BLAST_X").is_none());
    assert!(mech.charged_move("QUICK_A").is_none());
    assert!(mech.fast_move("MISSING").is_none());
    let alpha = mech.pokemon("ALPHA").unwrap();
    assert_eq!(alpha.stats.base_attack, 150);
    assert_eq!(alpha.type1, Type::Normal);
    assert_eq!(alpha.type2, None);
    assert!(mech.pokemon("GAMMA").is_none());
}

#[test]
fn test_multiplier_table_structure() {
    let mech = Mechanics::new(&document()).unwrap();
    // Whole levels carry the raw scalar of their level.
    for lvl in 1..=40u16 {
        let e = mech.cp_multiplier(&Level { level: lvl, a_half: false });
        assert_eq!(e, CpmValue::Whole(raw_multiplier(lvl as usize - 1).to_bits()));
    }
    // Half steps carry the two adjacent raw scalars.
    for lvl in 1..40u16 {
        let e = mech.cp_multiplier(&Level { level: lvl, a_half: true });
        assert_eq!(
            e,
            CpmValue::HalfStep(
                raw_multiplier(lvl as usize - 1).to_bits(),
                raw_multiplier(lvl as usize).to_bits()
            )
        );
    }
}

/// Evaluates a table entry the way consumers of the dataset do: a whole
/// level is its raw scalar, a half step the root mean square of its two
/// neighbours.
fn cpm_value(e: CpmValue) -> f64 {
    match e {
        CpmValue::Whole(b) => f64::from_bits(b),
        CpmValue::HalfStep(a, b) => {
            let (a, b) = (f64::from_bits(a), f64::from_bits(b));
            ((a * a + b * b) / 2.0).sqrt()
        }
    }
}

#[test]
fn test_multiplier_table_monotone() {
    let mech = Mechanics::new(&document()).unwrap();
    let mut prev = f64::NEG_INFINITY;
    for idx in 0..79u16 {
        let v = cpm_value(mech.cp_multiplier(&Level {
            level: idx / 2 + 1,
            a_half: idx % 2 == 1,
        }));
        assert!(v >= prev);
        prev = v;
    }
    // The last entry equals the 40th raw progression value.
    assert_eq!(prev, raw_multiplier(39));
}

#[test]
fn test_half_step_interpolation() {
    let mech = Mechanics::new(&document()).unwrap();
    for lvl in 1..40u16 {
        let v = cpm_value(mech.cp_multiplier(&Level { level: lvl, a_half: true }));
        let lo = raw_multiplier(lvl as usize - 1);
        let hi = raw_multiplier(lvl as usize);
        assert_eq!(v, ((lo * lo + hi * hi) / 2.0).sqrt());
    }
}

#[test]
fn test_dual_type_effectiveness_product() {
    let mech = Mechanics::new(&document()).unwrap();
    let bravo = mech.pokemon("BRAVO").unwrap();
    let fire = Type::Fire.index();
    let water = Type::Water.index();
    for t in 0..18 {
        let pair = &bravo.type_effectiveness[t];
        assert_eq!(f64::from_bits(pair.primary), eff_scalar(t, fire));
        assert_eq!(f64::from_bits(pair.secondary.unwrap()), eff_scalar(t, water));
        // The combined defensive effectiveness is the elementwise product
        // of the two single-type rows.
        let combined = f64::from_bits(pair.primary) * f64::from_bits(pair.secondary.unwrap());
        assert_eq!(combined, eff_scalar(t, fire) * eff_scalar(t, water));
    }
    let alpha = mech.pokemon("ALPHA").unwrap();
    for t in 0..18 {
        let pair = &alpha.type_effectiveness[t];
        assert_eq!(f64::from_bits(pair.primary), eff_scalar(t, Type::Normal.index()));
        assert!(pair.secondary.is_none());
    }
}

#[test]
fn test_defender_rows() {
    let mech = Mechanics::new(&document()).unwrap();
    let row = mech.defender_type_effectiveness(Type::Fire);
    for t in 0..18 {
        assert_eq!(f64::from_bits(row[t]), eff_scalar(t, Type::Fire.index()));
    }
    let dual = mech.defender_dual_type_effectiveness(Type::Fire, Type::Water);
    for t in 0..18 {
        assert_eq!(f64::from_bits(dual[t].primary), eff_scalar(t, Type::Fire.index()));
        assert_eq!(
            f64::from_bits(dual[t].secondary.unwrap()),
            eff_scalar(t, Type::Water.index())
        );
    }
}

#[test]
fn test_build_rejects_missing_progression() {
    let mut doc = document();
    doc.item_templates.retain(|t| {
        !matches!(t.entry, Some(GameMasterEntry::PlayerLevel(_)))
    });
    assert!(matches!(Mechanics::new(&doc), Err(Error::ParseError(_))));
}

#[test]
fn test_build_rejects_wrong_progression_length() {
    let mut doc = document();
    for t in doc.item_templates.iter_mut() {
        if let Some(GameMasterEntry::PlayerLevel(pl)) = &mut t.entry {
            pl.cp_multiplier.pop();
        }
    }
    assert!(matches!(Mechanics::new(&doc), Err(Error::ParseError(_))));
}

#[test]
fn test_build_rejects_bad_move_type() {
    let mut doc = document();
    doc.item_templates.push(fast_record("QUICK_C", "POKEMON_TYPE_SHADOW", 3.0, 0, 4));
    assert!(matches!(Mechanics::new(&doc), Err(Error::ConversionError(_))));
}

#[test]
fn test_build_rejects_short_effectiveness_row() {
    let mut doc = document();
    for t in doc.item_templates.iter_mut() {
        if let Some(GameMasterEntry::TypeEffectiveness(r)) = &mut t.entry {
            r.effectiveness.pop();
            break;
        }
    }
    assert!(matches!(Mechanics::new(&doc), Err(Error::ParseError(_))));
}

#[test]
fn test_build_rejects_incomplete_chart() {
    let mut doc = document();
    let mut removed = false;
    doc.item_templates.retain(|t| {
        if removed {
            return true;
        }
        if matches!(t.entry, Some(GameMasterEntry::TypeEffectiveness(_))) {
            removed = true;
            return false;
        }
        true
    });
    assert!(matches!(Mechanics::new(&doc), Err(Error::ParseError(_))));
}

#[test]
fn test_build_rejects_bad_species_type() {
    let mut doc = document();
    doc.item_templates.push(species_record(
        "GAMMA",
        "POKEMON_TYPE_SHADOW",
        None,
        (1, 1, 1),
        &[],
        &[],
    ));
    assert!(matches!(Mechanics::new(&doc), Err(Error::ParseError(_))));
}

#[test]
fn test_pokemon_instance_ok() {
    let mech = Mechanics::new(&document()).unwrap();
    let inst = mech
        .pokemon_instance(
            "ALPHA",
            Level { level: 20, a_half: true },
            15,
            14,
            13,
            "QUICK_A",
            "BLAST_X",
            Some("BLAST_Y"),
        )
        .unwrap();
    assert_eq!(inst.pokemon.id, "ALPHA");
    assert_eq!(inst.atk_iv, 15);
    assert_eq!(inst.def_iv, 14);
    assert_eq!(inst.sta_iv, 13);
    assert_eq!(inst.fast_move.uid, "QUICK_A");
    assert_eq!(inst.charged_move1.uid, "BLAST_X");
    assert_eq!(inst.charged_move2.uid, "BLAST_Y");
    // Level 20-and-a-half sits between the raw scalars of levels 20 and 21.
    assert_eq!(
        inst.cpm,
        CpmValue::HalfStep(raw_multiplier(19).to_bits(), raw_multiplier(20).to_bits())
    );
}

#[test]
fn test_pokemon_instance_defaults_second_charged() {
    let mech = Mechanics::new(&document()).unwrap();
    let inst = mech
        .pokemon_instance(
            "ALPHA",
            Level { level: 10, a_half: false },
            0,
            0,
            0,
            "QUICK_B",
            "BLAST_Y",
            None,
        )
        .unwrap();
    assert_eq!(inst.charged_move1.uid, "BLAST_Y");
    assert_eq!(inst.charged_move2.uid, "BLAST_Y");
}

#[test]
fn test_pokemon_instance_errors() {
    let mech = Mechanics::new(&document()).unwrap();
    let lvl = Level { level: 10, a_half: false };
    // Unknown species.
    assert!(matches!(
        mech.pokemon_instance("GAMMA", lvl, 0, 0, 0, "QUICK_A", "BLAST_X", None),
        Err(Error::BoundsError(_))
    ));
    // Individual value out of range.
    assert!(matches!(
        mech.pokemon_instance("ALPHA", lvl, 16, 0, 0, "QUICK_A", "BLAST_X", None),
        Err(Error::BoundsError(_))
    ));
    // Level off the table.
    assert!(matches!(
        mech.pokemon_instance(
            "ALPHA",
            Level { level: 41, a_half: false },
            0,
            0,
            0,
            "QUICK_A",
            "BLAST_X",
            None
        ),
        Err(Error::BoundsError(_))
    ));
    assert!(matches!(
        mech.pokemon_instance(
            "ALPHA",
            Level { level: 40, a_half: true },
            0,
            0,
            0,
            "QUICK_A",
            "BLAST_X",
            None
        ),
        Err(Error::BoundsError(_))
    ));
    // A move outside the species' pool, and an unknown second charged move.
    assert!(matches!(
        mech.pokemon_instance("BRAVO", lvl, 0, 0, 0, "QUICK_A", "BLAST_Y", None),
        Err(Error::ParseError(_))
    ));
    assert!(matches!(
        mech.pokemon_instance("BRAVO", lvl, 0, 0, 0, "QUICK_B", "BLAST_X", None),
        Err(Error::ParseError(_))
    ));
    assert!(matches!(
        mech.pokemon_instance("ALPHA", lvl, 0, 0, 0, "QUICK_A", "BLAST_X", Some("MISSING")),
        Err(Error::ParseError(_))
    ));
}

#[test]
fn test_instance_stab_and_effectiveness() {
    let mech = Mechanics::new(&document()).unwrap();
    let bravo = mech
        .pokemon_instance(
            "BRAVO",
            Level { level: 15, a_half: false },
            1,
            2,
            3,
            "QUICK_B",
            "BLAST_Y",
            None,
        )
        .unwrap();
    assert!(bravo.stab(Type::Fire));
    assert!(bravo.stab(Type::Water));
    assert!(!bravo.stab(Type::Normal));
    let pair = bravo.type_effectiveness(Type::Ice);
    assert_eq!(
        f64::from_bits(pair.primary),
        eff_scalar(Type::Ice.index(), Type::Fire.index())
    );
}
