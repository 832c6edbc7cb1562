use pvp_mechanics::error::Error;
use pvp_mechanics::pokemon::Level;
use pvp_mechanics::ranker::iv_combinations;
use pvp_mechanics::Type;

#[test]
fn model_test_level_conversion() {
    let l = Level { level: 40, a_half: false };
    assert_eq!(l.index(), 78);
    let l = Level { level: 27, a_half: true };
    assert_eq!(l.index(), 53);
}

#[test]
fn mod_test_level_conversion() {
    let l = Level { level: 40, a_half: false };
    assert_eq!(l.index(), 78);
    let l = Level { level: 27, a_half: true };
    assert_eq!(l.index(), 53);
}

#[test]
fn test_iv_combs() {
    assert_eq!(iv_combinations().len(), 16 * 16 * 16);
}

#[test]
fn test_iv_combs_order() {
    let combs = iv_combinations();
    assert_eq!(combs[0], (0, 0, 0));
    assert_eq!(combs[1], (0, 0, 1));
    assert_eq!(combs[16], (0, 1, 0));
    assert_eq!(combs[256], (1, 0, 0));
    assert_eq!(combs[4095], (15, 15, 15));
}

#[test]
fn test_level_next_prev() {
    let l = Level { level: 1, a_half: false };
    let n = l.next();
    assert_eq!(n, Level { level: 1, a_half: true });
    assert_eq!(n.next(), Level { level: 2, a_half: false });
    assert_eq!(n.prev(), l);
    // The lowest level saturates downwards.
    assert_eq!(l.prev(), l);
}

#[test]
fn test_level_add_sub() {
    let l = Level { level: 10, a_half: false };
    assert_eq!(l.add(3), Level { level: 11, a_half: true });
    assert_eq!(l.sub(3), Level { level: 8, a_half: true });
    assert_eq!(Level { level: 1, a_half: true }.sub(5), Level { level: 1, a_half: false });
}

#[test]
fn test_level_from_index() {
    assert_eq!(Level::from_index(0), Level { level: 1, a_half: false });
    assert_eq!(Level::from_index(53), Level { level: 27, a_half: true });
    assert_eq!(Level::from_index(78), Level { level: 40, a_half: false });
}

#[test]
fn test_type_parsing() {
    assert_eq!(Type::try_from("POKEMON_TYPE_FIRE").unwrap(), Type::Fire);
    assert_eq!(Type::try_from("POKEMON_TYPE_NORMAL").unwrap(), Type::Normal);
    assert_eq!(Type::try_from("POKEMON_TYPE_FAIRY").unwrap(), Type::Fairy);
    assert_eq!(Type::try_from("POKEMON_TYPE_GHOST").unwrap(), Type::Phantom);
    let e = Type::try_from("POKEMON_TYPE_SHADOW");
    assert!(matches!(e, Err(Error::ParseError(_))));
}

#[test]
fn test_type_indices() {
    assert_eq!(Type::Normal.index(), 0);
    assert_eq!(Type::Fairy.index(), 17);
}

#[test]
fn test_default_duration_turns() {
    assert_eq!(pvp_mechanics::gamemaster::pvp_move_default_duration_turns(), 0);
}

#[test]
fn test_error_descriptions() {
    assert_eq!(
        Error::ParseError(String::from("x")).describe(),
        "configuration parse error"
    );
    assert_eq!(Error::BoundsError(String::from("x")).describe(), "value out of bounds");
    assert_eq!(
        Error::ConversionError(String::from("x")).describe(),
        "move record conversion error"
    );
}
