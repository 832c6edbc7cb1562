use vstd::prelude::*;
use vstd::string::StringExecFns;

use crate::error::Error;
use crate::gamemaster as gm;
use crate::moves::{charged_move_record, fast_move_record, ChargedMove, FastMove};
use crate::pokemon::{species_eq, DefenseEffectiveness, Level, Pokemon, PokemonInstance};
use crate::str_eq;
use crate::type_from_name;
use crate::type_of_index;
use crate::CpmValue;
use crate::Type;

verus! {

/// The first `Some` that `f` yields on the elements of `s`, scanning from
/// the front.
pub open spec fn first_filter_map<A, B>(s: Seq<A>, f: spec_fn(A) -> Option<B>) -> Option<B>
    decreases s.len(),
{
    if s.len() == 0 {
        None
    } else if f(s[0]) is Some {
        f(s[0])
    } else {
        first_filter_map(s.drop_first(), f)
    }
}

/// The fast move a record yields: combat-move entries with a non-negative
/// energy delta, converted.
pub open spec fn fast_of(t: gm::ItemTemplate) -> Option<FastMove> {
    match t.entry {
        Some(gm::GameMasterEntry::PvPMove(m)) => if m.energy_delta >= 0 {
            Some(fast_move_record(m))
        } else {
            None
        },
        _ => None,
    }
}

/// The charged move a record yields: combat-move entries with a negative
/// energy delta, converted.
pub open spec fn charged_of(t: gm::ItemTemplate) -> Option<ChargedMove> {
    match t.entry {
        Some(gm::GameMasterEntry::PvPMove(m)) => if m.energy_delta < 0 {
            Some(charged_move_record(m))
        } else {
            None
        },
        _ => None,
    }
}

/// The species-settings record a template yields.
pub open spec fn settings_of(t: gm::ItemTemplate) -> Option<gm::PokemonSettings> {
    match t.entry {
        Some(gm::GameMasterEntry::PokemonSettings(ps)) => Some(ps),
        _ => None,
    }
}

/// The level-progression record a template yields.
pub open spec fn pl_of(t: gm::ItemTemplate) -> Option<gm::PlayerLevel> {
    match t.entry {
        Some(gm::GameMasterEntry::PlayerLevel(pl)) => Some(pl),
        _ => None,
    }
}

/// Whether every combat-move record names a recognized type.
pub open spec fn moves_resolvable(ts: Seq<gm::ItemTemplate>) -> bool {
    forall|i: int|
        0 <= i < ts.len() ==> (#[trigger] ts[i].entry matches Some(
            gm::GameMasterEntry::PvPMove(m),
        ) ==> type_from_name(m.type_@) is Some)
}

/// The raw progression scalars: the contents of the first level-progression
/// record.
pub open spec fn raw_multipliers(ts: Seq<gm::ItemTemplate>) -> Seq<u64> {
    match first_filter_map(ts, |t: gm::ItemTemplate| pl_of(t)) {
        Some(pl) => pl.cp_multiplier@,
        None => Seq::empty(),
    }
}

/// Whether the document holds a level-progression record with exactly the
/// required number of entries.
pub open spec fn progression_ok(ts: Seq<gm::ItemTemplate>) -> bool {
    first_filter_map(ts, |t: gm::ItemTemplate| pl_of(t)) is Some && raw_multipliers(ts).len()
        == 40
}

/// The multiplier-table entry at position `i`, built from the 40 raw
/// scalars: even positions carry the raw scalar of their whole level, odd
/// positions the two adjacent raw scalars of their half step, and the last
/// position the final raw scalar.
pub open spec fn cpm_table_entry(raw: Seq<u64>, i: int) -> CpmValue
    recommends
        raw.len() == 40,
        0 <= i < 79,
{
    if i == 78 {
        CpmValue::Whole(raw[39])
    } else if i % 2 == 0 {
        CpmValue::Whole(raw[i / 2])
    } else {
        CpmValue::HalfStep(raw[(i - 1) / 2], raw[(i - 1) / 2 + 1])
    }
}

/// The type-chart row that ends up governing attacks of type `t`: the last
/// effectiveness record naming `t`, later records overriding earlier ones.
pub open spec fn eff_row_for(ts: Seq<gm::ItemTemplate>, t: Type) -> Option<gm::TypeEffectiveness>
    decreases ts.len(),
{
    if ts.len() == 0 {
        None
    } else {
        match ts.last().entry {
            Some(gm::GameMasterEntry::TypeEffectiveness(r)) => if type_from_name(r.attack_type@)
                == Some(t) {
                Some(r)
            } else {
                eff_row_for(ts.drop_last(), t)
            },
            _ => eff_row_for(ts.drop_last(), t),
        }
    }
}

/// Whether every effectiveness record names a recognized attacking type and
/// covers every defending type.
pub open spec fn eff_records_ok(ts: Seq<gm::ItemTemplate>) -> bool {
    forall|i: int|
        0 <= i < ts.len() ==> (#[trigger] ts[i].entry matches Some(
            gm::GameMasterEntry::TypeEffectiveness(r),
        ) ==> type_from_name(r.attack_type@) is Some && r.effectiveness@.len() >= 18)
}

/// Whether the document defines an effectiveness row for every attacking
/// type.
pub open spec fn eff_complete(ts: Seq<gm::ItemTemplate>) -> bool {
    forall|a: int| 0 <= a < 18 ==> eff_row_for(ts, #[trigger] type_of_index(a)) is Some
}

/// Whether every species record names recognized types.
pub open spec fn species_resolvable(ts: Seq<gm::ItemTemplate>) -> bool {
    forall|i: int|
        0 <= i < ts.len() ==> (#[trigger] ts[i].entry matches Some(
            gm::GameMasterEntry::PokemonSettings(ps),
        ) ==> type_from_name(ps.type1@) is Some && (ps.type2 matches Some(s2)
            ==> type_from_name(s2@) is Some))
}

/// Everything the build step demands of the document.
pub open spec fn config_ok(ts: Seq<gm::ItemTemplate>) -> bool {
    &&& moves_resolvable(ts)
    &&& progression_ok(ts)
    &&& eff_records_ok(ts)
    &&& eff_complete(ts)
    &&& species_resolvable(ts)
}

/// Builds the fast- and charged-move catalogs from the document, in record
/// order; fails when a combat-move record names an unrecognized type.
fn build_moves(gm: &gm::GameMaster) -> (r: Result<(Vec<FastMove>, Vec<ChargedMove>), Error>)
    ensures
        match r {
            Ok(c) => {
                &&& moves_resolvable(gm.item_templates@)
                &&& c.0@ == gm.item_templates@.filter_map(|t: gm::ItemTemplate| fast_of(t))
                &&& c.1@ == gm.item_templates@.filter_map(|t: gm::ItemTemplate| charged_of(t))
            },
            Err(e) => !moves_resolvable(gm.item_templates@) && e.is_conversion(),
        },
{
    let ghost ts = gm.item_templates@;
    let ghost ffast = |t: gm::ItemTemplate| fast_of(t);
    let ghost fcharged = |t: gm::ItemTemplate| charged_of(t);
    let mut fast: Vec<FastMove> = Vec::new();
    let mut charged: Vec<ChargedMove> = Vec::new();
    let mut i: usize = 0;
    proof {
        assert(ts.take(0).filter_map(ffast) =~= Seq::<FastMove>::empty());
        assert(ts.take(0).filter_map(fcharged) =~= Seq::<ChargedMove>::empty());
    }
    while i < gm.item_templates.len()
        invariant
            i <= ts.len(),
            ts == gm.item_templates@,
            fast@ == ts.take(i as int).filter_map(ffast),
            charged@ == ts.take(i as int).filter_map(fcharged),
            ffast == |t: gm::ItemTemplate| fast_of(t),
            fcharged == |t: gm::ItemTemplate| charged_of(t),
            forall|j: int|
                0 <= j < i ==> (#[trigger] ts[j].entry matches Some(
                    gm::GameMasterEntry::PvPMove(m),
                ) ==> type_from_name(m.type_@) is Some),
        decreases ts.len() - i,
    {
        proof {
            ts.lemma_filter_map_take_succ(ffast, i as int);
            ts.lemma_filter_map_take_succ(fcharged, i as int);
        }
        let t = &gm.item_templates[i];
        match &t.entry {
            Some(gm::GameMasterEntry::PvPMove(m)) => {
                if m.energy_delta >= 0 {
                    match FastMove::try_from(m) {
                        Ok(f) => fast.push(f),
                        Err(_) => {
                            return Err(Error::ConversionError(String::from_str(
                                "combat move record names an unrecognized type",
                            )));
                        },
                    }
                } else {
                    match ChargedMove::try_from(m) {
                        Ok(c) => charged.push(c),
                        Err(_) => {
                            return Err(Error::ConversionError(String::from_str(
                                "combat move record names an unrecognized type",
                            )));
                        },
                    }
                }
            },
            _ => {},
        }
        i = i + 1;
    }
    proof {
        assert(ts.take(ts.len() as int) =~= ts);
    }
    Ok((fast, charged))
}

/// Builds the 79-entry multiplier table from the first level-progression
/// record; fails when no such record exists or it does not hold exactly 40
/// entries.
fn build_cpm_table(gm: &gm::GameMaster) -> (r: Result<Vec<CpmValue>, Error>)
    ensures
        match r {
            Ok(table) => {
                &&& progression_ok(gm.item_templates@)
                &&& table@.len() == 79
                &&& forall|i: int|
                    0 <= i < 79 ==> table@[i] == cpm_table_entry(
                        raw_multipliers(gm.item_templates@),
                        i,
                    )
            },
            Err(e) => !progression_ok(gm.item_templates@) && e.is_parse(),
        },
{
    let ghost ts = gm.item_templates@;
    let ghost fpl = |t: gm::ItemTemplate| pl_of(t);
    let mut i: usize = 0;
    let n = gm.item_templates.len();
    proof {
        assert(ts.skip(0) =~= ts);
    }
    while i < n
        invariant
            i <= ts.len(),
            n == ts.len(),
            ts == gm.item_templates@,
            fpl == |t: gm::ItemTemplate| pl_of(t),
            first_filter_map(ts, fpl) == first_filter_map(ts.skip(i as int), fpl),
            forall|j: int| 0 <= j < i ==> pl_of(#[trigger] ts[j]) is None,
        decreases ts.len() - i,
    {
        let t = &gm.item_templates[i];
        match &t.entry {
            Some(gm::GameMasterEntry::PlayerLevel(pl)) => {
                proof {
                    assert(ts.skip(i as int)[0] == ts[i as int]);
                    assert(fpl(ts[i as int]) == Some(*pl));
                    assert(first_filter_map(ts.skip(i as int), fpl) == Some(*pl));
                    assert(first_filter_map(ts, fpl) == Some(*pl));
                    assert(raw_multipliers(ts) == pl.cp_multiplier@);
                }
                if pl.cp_multiplier.len() != 40 {
                    return Err(Error::ParseError(String::from_str(
                        "the level-progression record must hold exactly 40 entries",
                    )));
                }
                let raw = &pl.cp_multiplier;
                let mut table: Vec<CpmValue> = Vec::new();
                let mut j: usize = 0;
                while j < 78
                    invariant
                        j <= 78,
                        j % 2 == 0,
                        raw@.len() == 40,
                        table@.len() == j,
                        forall|k: int| 0 <= k < j ==> table@[k] == cpm_table_entry(raw@, k),
                    decreases 78 - j,
                {
                    table.push(CpmValue::Whole(raw[j / 2]));
                    table.push(CpmValue::HalfStep(raw[j / 2], raw[j / 2 + 1]));
                    proof {
                        assert(table@[j as int] == cpm_table_entry(raw@, j as int));
                        assert(table@[j as int + 1] == cpm_table_entry(raw@, j as int + 1));
                    }
                    j = j + 2;
                }
                table.push(CpmValue::Whole(raw[39]));
                proof {
                    assert(table@[78] == cpm_table_entry(raw@, 78));
                }
                return Ok(table);
            },
            _ => {
                proof {
                    assert(ts.skip(i as int)[0] == ts[i as int]);
                    assert(ts.skip(i as int).drop_first() =~= ts.skip(i as int + 1));
                }
            },
        }
        i = i + 1;
    }
    proof {
        assert(ts.skip(ts.len() as int).len() == 0);
    }
    Err(Error::ParseError(String::from_str(
        "the configuration holds no level-progression record",
    )))
}

/// The governing effectiveness record of a type is one of the document's
/// records, so a well-checked document bounds its row length and pins its
/// attacking type.
pub proof fn lemma_eff_row_record(ts: Seq<gm::ItemTemplate>, t: Type)
    requires
        eff_records_ok(ts),
        eff_row_for(ts, t) is Some,
    ensures
        eff_row_for(ts, t) matches Some(rec) ==> rec.effectiveness@.len() >= 18
            && type_from_name(rec.attack_type@) == Some(t),
    decreases ts.len(),
{
    if ts.len() > 0 {
        let last = ts.last();
        assert(ts[ts.len() - 1] == last);
        assert(eff_records_ok(ts.drop_last())) by {
            assert forall|i: int|
                0 <= i < ts.drop_last().len() implies (#[trigger] ts.drop_last()[i].entry
                matches Some(gm::GameMasterEntry::TypeEffectiveness(r)) ==> type_from_name(
                r.attack_type@,
            ) is Some && r.effectiveness@.len() >= 18) by {
                assert(ts.drop_last()[i] == ts[i]);
            }
        }
        match last.entry {
            Some(gm::GameMasterEntry::TypeEffectiveness(r)) => {
                if type_from_name(r.attack_type@) != Some(t) {
                    lemma_eff_row_record(ts.drop_last(), t);
                }
            },
            _ => {
                lemma_eff_row_record(ts.drop_last(), t);
            },
        }
    }
}

/// Whether one matrix slot reflects the governing effectiveness record of
/// attacking type `k` in the records `ts`.
pub open spec fn eff_slot_ok(ts: Seq<gm::ItemTemplate>, k: int, def: bool, row: Seq<u64>) -> bool {
    &&& def == (eff_row_for(ts, type_of_index(k)) is Some)
    &&& (def ==> (eff_row_for(ts, type_of_index(k)) matches Some(rec) && row
        == rec.effectiveness@.subrange(0, 18)))
}

/// Builds the 18-by-18 effectiveness matrix, attacking type by defending
/// type, the last record for a type overriding earlier ones; fails when a
/// record names an unrecognized attacking type, when a row covers fewer
/// than the 18 defending types, or when some attacking type has no row.
fn build_effectiveness(gm: &gm::GameMaster) -> (r: Result<Vec<Vec<u64>>, Error>)
    ensures
        match r {
            Ok(matrix) => {
                &&& eff_records_ok(gm.item_templates@)
                &&& eff_complete(gm.item_templates@)
                &&& matrix@.len() == 18
                &&& forall|a: int|
                    0 <= a < 18 ==> {
                        &&& (#[trigger] matrix@[a])@.len() == 18
                        &&& eff_row_for(gm.item_templates@, type_of_index(a)) matches Some(rec)
                            && matrix@[a]@ == rec.effectiveness@.subrange(0, 18)
                    }
            },
            Err(e) => !(eff_records_ok(gm.item_templates@) && eff_complete(gm.item_templates@))
                && e.is_parse(),
        },
{
    let ghost ts = gm.item_templates@;
    let mut matrix: Vec<Vec<u64>> = Vec::new();
    let mut defined: Vec<bool> = Vec::new();
    let mut a: usize = 0;
    while a < 18
        invariant
            matrix@.len() == a,
            defined@.len() == a,
            a <= 18,
            forall|k: int| 0 <= k < a ==> !(#[trigger] defined@[k]),
            forall|k: int| 0 <= k < a ==> (#[trigger] matrix@[k])@.len() == 0,
        decreases 18 - a,
    {
        matrix.push(Vec::new());
        defined.push(false);
        a = a + 1;
    }
    proof {
        assert(ts.take(0).len() == 0);
        assert forall|k: int| 0 <= k < 18 implies #[trigger] eff_slot_ok(
            ts.take(0),
            k,
            defined@[k],
            matrix@[k]@,
        ) by {
            assert(eff_row_for(ts.take(0), type_of_index(k)) is None);
        }
    }
    let mut i: usize = 0;
    while i < gm.item_templates.len()
        invariant
            i <= ts.len(),
            ts == gm.item_templates@,
            matrix@.len() == 18,
            defined@.len() == 18,
            forall|k: int|
                0 <= k < 18 ==> #[trigger] eff_slot_ok(
                    ts.take(i as int),
                    k,
                    defined@[k],
                    matrix@[k]@,
                ),
            forall|j: int|
                0 <= j < i ==> (#[trigger] ts[j].entry matches Some(
                    gm::GameMasterEntry::TypeEffectiveness(r),
                ) ==> type_from_name(r.attack_type@) is Some && r.effectiveness@.len() >= 18),
        decreases ts.len() - i,
    {
        let t = &gm.item_templates[i];
        proof {
            assert(ts.take(i as int + 1).drop_last() =~= ts.take(i as int));
            assert(ts.take(i as int + 1).last() == ts[i as int]);
        }
        match &t.entry {
            Some(gm::GameMasterEntry::TypeEffectiveness(rec)) => {
                let at = match Type::try_from(rec.attack_type.as_str()) {
                    Ok(at) => at,
                    Err(_) => {
                        return Err(Error::ParseError(String::from_str(
                            "effectiveness record names an unrecognized attacking type",
                        )));
                    },
                };
                if rec.effectiveness.len() < 18 {
                    return Err(Error::ParseError(String::from_str(
                        "effectiveness row covers fewer than the known types",
                    )));
                }
                let mut row: Vec<u64> = Vec::new();
                let mut d: usize = 0;
                while d < 18
                    invariant
                        d <= 18,
                        rec.effectiveness@.len() >= 18,
                        row@ =~= rec.effectiveness@.subrange(0, d as int),
                    decreases 18 - d,
                {
                    row.push(rec.effectiveness[d]);
                    d = d + 1;
                }
                let idx = at.index();
                proof {
                    assert(type_of_index(at.spec_index()) == at);
                }
                let ghost old_defined = defined@;
                let ghost old_matrix = matrix@;
                matrix.set(idx, row);
                defined.set(idx, true);
                proof {
                    assert forall|k: int| 0 <= k < 18 implies #[trigger] eff_slot_ok(
                        ts.take(i as int + 1),
                        k,
                        defined@[k],
                        matrix@[k]@,
                    ) by {
                        if k == at.spec_index() {
                            assert(eff_row_for(ts.take(i as int + 1), type_of_index(k)) == Some(
                                *rec,
                            ));
                        } else {
                            assert(type_from_name(rec.attack_type@) != Some(type_of_index(k)));
                            assert(eff_row_for(ts.take(i as int + 1), type_of_index(k))
                                == eff_row_for(ts.take(i as int), type_of_index(k)));
                            assert(defined@[k] == old_defined[k]);
                            assert(matrix@[k]@ == old_matrix[k]@);
                            assert(eff_slot_ok(ts.take(i as int), k, old_defined[k], old_matrix[k]@));
                        }
                    }
                }
            },
            _ => {
                proof {
                    assert forall|k: int| 0 <= k < 18 implies #[trigger] eff_slot_ok(
                        ts.take(i as int + 1),
                        k,
                        defined@[k],
                        matrix@[k]@,
                    ) by {
                        assert(eff_row_for(ts.take(i as int + 1), type_of_index(k)) == eff_row_for(
                            ts.take(i as int),
                            type_of_index(k),
                        ));
                        assert(eff_slot_ok(ts.take(i as int), k, defined@[k], matrix@[k]@));
                    }
                }
            },
        }
        i = i + 1;
    }
    proof {
        assert(ts.take(ts.len() as int) =~= ts);
    }
    let mut a: usize = 0;
    while a < 18
        invariant
            a <= 18,
            matrix@.len() == 18,
            defined@.len() == 18,
            ts == gm.item_templates@,
            forall|k: int|
                0 <= k < 18 ==> #[trigger] eff_slot_ok(ts, k, defined@[k], matrix@[k]@),
            eff_records_ok(ts),
            forall|k: int| 0 <= k < a ==> eff_row_for(ts, #[trigger] type_of_index(k)) is Some,
        decreases 18 - a,
    {
        if !defined[a] {
            proof {
                assert(eff_slot_ok(ts, a as int, defined@[a as int], matrix@[a as int]@));
            }
            return Err(Error::ParseError(String::from_str(
                "some attacking type has no effectiveness row",
            )));
        }
        proof {
            assert(eff_slot_ok(ts, a as int, defined@[a as int], matrix@[a as int]@));
        }
        a = a + 1;
    }
    proof {
        assert forall|k: int| 0 <= k < 18 implies {
            &&& (#[trigger] matrix@[k])@.len() == 18
            &&& eff_row_for(ts, type_of_index(k)) matches Some(rec) && matrix@[k]@
                == rec.effectiveness@.subrange(0, 18)
        } by {
            assert(eff_slot_ok(ts, k, defined@[k], matrix@[k]@));
            assert(eff_row_for(ts, type_of_index(k)) is Some);
            lemma_eff_row_record(ts, type_of_index(k));
            assert(eff_row_for(ts, type_of_index(k)) matches Some(rec) && matrix@[k]@
                == rec.effectiveness@.subrange(0, 18));
        }
    }
    Ok(matrix)
}

/// The species records of the document, in record order.
pub open spec fn species_settings(ts: Seq<gm::ItemTemplate>) -> Seq<gm::PokemonSettings> {
    ts.filter_map(|t: gm::ItemTemplate| settings_of(t))
}

/// Whether a built species profile reflects its configuration record and
/// the effectiveness matrix: identity, stats and move pools are carried
/// over, the types are the resolved type strings, and every entry of the
/// defensive row pairs the matrix factor of the primary type with, for a
/// dual-typed species, the factor of the secondary type.
pub open spec fn species_matches(
    p: Pokemon,
    ps: gm::PokemonSettings,
    matrix: Seq<Vec<u64>>,
) -> bool {
    &&& p.id@ == ps.pokemon_id@
    &&& p.stats == ps.stats
    &&& Some(p.type1) == type_from_name(ps.type1@)
    &&& p.type2 == (match ps.type2 {
        Some(s2) => Some(type_from_name(s2@)->0),
        None => None::<Type>,
    })
    &&& p.fast_move_ids@ == ps.quick_moves@
    &&& p.charged_move_ids@ == ps.cinematic_moves@
    &&& p.type_effectiveness@.len() == 18
    &&& forall|t: int|
        0 <= t < 18 ==> #[trigger] p.type_effectiveness@[t] == DefenseEffectiveness {
            primary: matrix[t]@[p.type1.spec_index()],
            secondary: match p.type2 {
                Some(t2) => Some(matrix[t]@[t2.spec_index()]),
                None => None,
            },
        }
}

/// Builds one species profile from its record; the defensive row pairs the
/// matrix factors of the species' types, one entry per attacking type.
fn build_species(ps: &gm::PokemonSettings, matrix: &Vec<Vec<u64>>) -> (r: Result<Pokemon, Error>)
    requires
        matrix@.len() == 18,
        forall|a: int| 0 <= a < 18 ==> (#[trigger] matrix@[a])@.len() == 18,
    ensures
        match r {
            Ok(p) => {
                &&& type_from_name(ps.type1@) is Some
                &&& (ps.type2 matches Some(s2) ==> type_from_name(s2@) is Some)
                &&& species_matches(p, *ps, matrix@)
            },
            Err(e) => (type_from_name(ps.type1@) is None || (ps.type2 matches Some(s2)
                && type_from_name(s2@) is None)) && e.is_parse(),
        },
{
    let type1 = match Type::try_from(ps.type1.as_str()) {
        Ok(t) => t,
        Err(e) => {
            return Err(e);
        },
    };
    let type2 = match &ps.type2 {
        Some(s2) => match Type::try_from(s2.as_str()) {
            Ok(t) => Some(t),
            Err(e) => {
                return Err(e);
            },
        },
        None => None,
    };
    let mut eff: Vec<DefenseEffectiveness> = Vec::new();
    let mut t: usize = 0;
    while t < 18
        invariant
            t <= 18,
            matrix@.len() == 18,
            forall|a: int| 0 <= a < 18 ==> (#[trigger] matrix@[a])@.len() == 18,
            type1.spec_index() < 18,
            type2 matches Some(t2) ==> t2.spec_index() < 18,
            eff@.len() == t,
            forall|k: int|
                0 <= k < t ==> #[trigger] eff@[k] == (DefenseEffectiveness {
                    primary: matrix@[k]@[type1.spec_index()],
                    secondary: match type2 {
                        Some(t2) => Some(matrix@[k]@[t2.spec_index()]),
                        None => None,
                    },
                }),
        decreases 18 - t,
    {
        let row = &matrix[t];
        let secondary = match type2 {
            Some(t2) => Some(row[t2.index()]),
            None => None,
        };
        eff.push(DefenseEffectiveness { primary: row[type1.index()], secondary });
        t = t + 1;
    }
    let mut fast_ids: Vec<String> = Vec::new();
    let mut i: usize = 0;
    while i < ps.quick_moves.len()
        invariant
            i <= ps.quick_moves.len(),
            fast_ids@ =~= ps.quick_moves@.take(i as int),
        decreases ps.quick_moves.len() - i,
    {
        fast_ids.push(ps.quick_moves[i].clone());
        i = i + 1;
    }
    let mut charged_ids: Vec<String> = Vec::new();
    let mut i: usize = 0;
    while i < ps.cinematic_moves.len()
        invariant
            i <= ps.cinematic_moves.len(),
            charged_ids@ =~= ps.cinematic_moves@.take(i as int),
        decreases ps.cinematic_moves.len() - i,
    {
        charged_ids.push(ps.cinematic_moves[i].clone());
        i = i + 1;
    }
    proof {
        assert(fast_ids@ =~= ps.quick_moves@);
        assert(charged_ids@ =~= ps.cinematic_moves@);
    }
    Ok(Pokemon {
        id: ps.pokemon_id.clone(),
        stats: ps.stats,
        type1,
        type2,
        fast_move_ids: fast_ids,
        charged_move_ids: charged_ids,
        type_effectiveness: eff,
    })
}

/// Builds the species catalog, in record order; fails when a species
/// record names an unrecognized type string.
fn build_pokemons(gm: &gm::GameMaster, matrix: &Vec<Vec<u64>>) -> (r: Result<Vec<Pokemon>, Error>)
    requires
        matrix@.len() == 18,
        forall|a: int| 0 <= a < 18 ==> (#[trigger] matrix@[a])@.len() == 18,
    ensures
        match r {
            Ok(v) => {
                &&& species_resolvable(gm.item_templates@)
                &&& v@.len() == species_settings(gm.item_templates@).len()
                &&& forall|k: int|
                    0 <= k < v@.len() ==> species_matches(
                        #[trigger] v@[k],
                        species_settings(gm.item_templates@)[k],
                        matrix@,
                    )
            },
            Err(e) => !species_resolvable(gm.item_templates@) && e.is_parse(),
        },
{
    let ghost ts = gm.item_templates@;
    let ghost fset = |t: gm::ItemTemplate| settings_of(t);
    let mut v: Vec<Pokemon> = Vec::new();
    let mut i: usize = 0;
    proof {
        assert(ts.take(0).filter_map(fset) =~= Seq::<gm::PokemonSettings>::empty());
    }
    while i < gm.item_templates.len()
        invariant
            i <= ts.len(),
            ts == gm.item_templates@,
            matrix@.len() == 18,
            forall|a: int| 0 <= a < 18 ==> (#[trigger] matrix@[a])@.len() == 18,
            fset == |t: gm::ItemTemplate| settings_of(t),
            v@.len() == ts.take(i as int).filter_map(fset).len(),
            forall|k: int|
                0 <= k < v@.len() ==> species_matches(
                    #[trigger] v@[k],
                    ts.take(i as int).filter_map(fset)[k],
                    matrix@,
                ),
            forall|j: int|
                0 <= j < i ==> (#[trigger] ts[j].entry matches Some(
                    gm::GameMasterEntry::PokemonSettings(ps),
                ) ==> type_from_name(ps.type1@) is Some && (ps.type2 matches Some(s2)
                    ==> type_from_name(s2@) is Some)),
        decreases ts.len() - i,
    {
        proof {
            ts.lemma_filter_map_take_succ(fset, i as int);
        }
        let t = &gm.item_templates[i];
        match &t.entry {
            Some(gm::GameMasterEntry::PokemonSettings(ps)) => {
                match build_species(ps, matrix) {
                    Ok(p) => v.push(p),
                    Err(e) => {
                        return Err(e);
                    },
                }
            },
            _ => {},
        }
        i = i + 1;
    }
    proof {
        assert(ts.take(ts.len() as int) =~= ts);
    }
    Ok(v)
}


/// The first species in the catalog carrying the given id.
pub open spec fn find_species(s: Seq<Pokemon>, id: Seq<char>) -> Option<Pokemon>
    decreases s.len(),
{
    if s.len() == 0 {
        None
    } else if s[0].id@ == id {
        Some(s[0])
    } else {
        find_species(s.drop_first(), id)
    }
}

/// The first fast move in the catalog carrying the given id.
pub open spec fn find_fast(s: Seq<FastMove>, id: Seq<char>) -> Option<FastMove>
    decreases s.len(),
{
    if s.len() == 0 {
        None
    } else if s[0].uid@ == id {
        Some(s[0])
    } else {
        find_fast(s.drop_first(), id)
    }
}

/// The first charged move in the catalog carrying the given id.
pub open spec fn find_charged(s: Seq<ChargedMove>, id: Seq<char>) -> Option<ChargedMove>
    decreases s.len(),
{
    if s.len() == 0 {
        None
    } else if s[0].uid@ == id {
        Some(s[0])
    } else {
        find_charged(s.drop_first(), id)
    }
}

/// Whether an id list holds the given id.
pub open spec fn contains_id(ids: Seq<String>, id: Seq<char>) -> bool {
    exists|j: int| 0 <= j < ids.len() && (#[trigger] ids[j])@ == id
}

/// Whether a species profile agrees with the effectiveness matrix: every
/// entry of its defensive row pairs the matrix factor of the primary type
/// with, for a dual-typed species, the factor of the secondary type.
pub open spec fn species_consistent(p: Pokemon, matrix: Seq<Vec<u64>>) -> bool {
    &&& p.type_effectiveness@.len() == 18
    &&& forall|t: int|
        0 <= t < 18 ==> #[trigger] p.type_effectiveness@[t] == (DefenseEffectiveness {
            primary: matrix[t]@[p.type1.spec_index()],
            secondary: match p.type2 {
                Some(t2) => Some(matrix[t]@[t2.spec_index()]),
                None => None,
            },
        })
}

/// The typed, cross-referenced combat dataset: move catalogs, species
/// catalog, effectiveness matrix and the level-multiplier table, all built
/// once from the configuration document and immutable afterwards.
#[derive(Debug)]
pub struct Mechanics {
    pub pokemon: Vec<Pokemon>,
    pub fast_moves: Vec<FastMove>,
    pub charged_moves: Vec<ChargedMove>,
    pub cp_multiplier: Vec<CpmValue>,
    /// Effectiveness scalars, attacking type by defending type, in the
    /// canonical type order.
    pub type_effectiveness: Vec<Vec<u64>>,
}

impl Mechanics {
    /// The shape every built dataset has: a 79-entry multiplier table, a
    /// full 18-by-18 matrix, and per-species defensive rows that agree with
    /// the matrix.
    pub open spec fn wf(self) -> bool {
        &&& self.cp_multiplier@.len() == 79
        &&& self.type_effectiveness@.len() == 18
        &&& forall|a: int| 0 <= a < 18 ==> (#[trigger] self.type_effectiveness@[a])@.len() == 18
        &&& forall|k: int|
            0 <= k < self.pokemon@.len() ==> species_consistent(
                #[trigger] self.pokemon@[k],
                self.type_effectiveness@,
            )
    }

    /// Builds the whole dataset from a configuration document. Fails when a
    /// combat-move record names an unrecognized type, when the
    /// level-progression block is missing or does not hold exactly 40
    /// entries, when the type chart is malformed or incomplete, or when a
    /// species record names an unrecognized type.
    pub fn new(gm: &gm::GameMaster) -> (r: Result<Mechanics, Error>)
        ensures
            match r {
                Ok(m) => {
                    &&& config_ok(gm.item_templates@)
                    &&& m.wf()
                    &&& m.fast_moves@ == gm.item_templates@.filter_map(
                        |t: gm::ItemTemplate| fast_of(t),
                    )
                    &&& m.charged_moves@ == gm.item_templates@.filter_map(
                        |t: gm::ItemTemplate| charged_of(t),
                    )
                    &&& forall|i: int|
                        0 <= i < 79 ==> m.cp_multiplier@[i] == cpm_table_entry(
                            raw_multipliers(gm.item_templates@),
                            i,
                        )
                    &&& forall|a: int|
                        0 <= a < 18 ==> (eff_row_for(gm.item_templates@, type_of_index(a))
                            matches Some(rec) && (#[trigger] m.type_effectiveness@[a])@
                            == rec.effectiveness@.subrange(0, 18))
                    &&& m.pokemon@.len() == species_settings(gm.item_templates@).len()
                    &&& forall|k: int|
                        0 <= k < m.pokemon@.len() ==> species_matches(
                            #[trigger] m.pokemon@[k],
                            species_settings(gm.item_templates@)[k],
                            m.type_effectiveness@,
                        )
                },
                Err(e) => {
                    &&& !config_ok(gm.item_templates@)
                    &&& (e.is_conversion() <==> !moves_resolvable(gm.item_templates@))
                    &&& (e.is_conversion() || e.is_parse())
                },
            },
    {
        let (fast_moves, charged_moves) = match build_moves(gm) {
            Ok(c) => c,
            Err(e) => {
                return Err(e);
            },
        };
        let cp_multiplier = match build_cpm_table(gm) {
            Ok(t) => t,
            Err(e) => {
                return Err(e);
            },
        };
        let type_effectiveness = match build_effectiveness(gm) {
            Ok(m) => m,
            Err(e) => {
                return Err(e);
            },
        };
        let pokemon = match build_pokemons(gm, &type_effectiveness) {
            Ok(v) => v,
            Err(e) => {
                return Err(e);
            },
        };
        let m = Mechanics { pokemon, fast_moves, charged_moves, cp_multiplier, type_effectiveness };
        proof {
            assert forall|k: int| 0 <= k < m.pokemon@.len() implies species_consistent(
                #[trigger] m.pokemon@[k],
                m.type_effectiveness@,
            ) by {
                assert(species_matches(
                    m.pokemon@[k],
                    species_settings(gm.item_templates@)[k],
                    m.type_effectiveness@,
                ));
            }
        }
        Ok(m)
    }

    /// Looks up a species by id; the first catalog entry with that id.
    pub fn pokemon(&self, id: &str) -> (r: Option<Pokemon>)
        ensures
            r is Some <==> find_species(self.pokemon@, id@) is Some,
            r matches Some(p) ==> species_eq(p, find_species(self.pokemon@, id@)->0),
    {
        let ghost s = self.pokemon@;
        let mut i: usize = 0;
        proof {
            assert(s.skip(0) =~= s);
        }
        while i < self.pokemon.len()
            invariant
                i <= s.len(),
                s == self.pokemon@,
                find_species(s, id@) == find_species(s.skip(i as int), id@),
            decreases s.len() - i,
        {
            proof {
                assert(s.skip(i as int)[0] == s[i as int]);
                assert(s.skip(i as int).drop_first() =~= s.skip(i as int + 1));
            }
            if str_eq(self.pokemon[i].id.as_str(), id) {
                return Some(self.pokemon[i].duplicate());
            }
            i = i + 1;
        }
        None
    }

    /// Looks up a fast move by id; the first catalog entry with that id.
    pub fn fast_move(&self, id: &str) -> (r: Option<FastMove>)
        ensures
            r == find_fast(self.fast_moves@, id@),
    {
        let ghost s = self.fast_moves@;
        let mut i: usize = 0;
        proof {
            assert(s.skip(0) =~= s);
        }
        while i < self.fast_moves.len()
            invariant
                i <= s.len(),
                s == self.fast_moves@,
                find_fast(s, id@) == find_fast(s.skip(i as int), id@),
            decreases s.len() - i,
        {
            proof {
                assert(s.skip(i as int)[0] == s[i as int]);
                assert(s.skip(i as int).drop_first() =~= s.skip(i as int + 1));
            }
            if str_eq(self.fast_moves[i].uid.as_str(), id) {
                return Some(self.fast_moves[i].duplicate());
            }
            i = i + 1;
        }
        None
    }

    /// Looks up a charged move by id; the first catalog entry with that id.
    pub fn charged_move(&self, id: &str) -> (r: Option<ChargedMove>)
        ensures
            r == find_charged(self.charged_moves@, id@),
    {
        let ghost s = self.charged_moves@;
        let mut i: usize = 0;
        proof {
            assert(s.skip(0) =~= s);
        }
        while i < self.charged_moves.len()
            invariant
                i <= s.len(),
                s == self.charged_moves@,
                find_charged(s, id@) == find_charged(s.skip(i as int), id@),
            decreases s.len() - i,
        {
            proof {
                assert(s.skip(i as int)[0] == s[i as int]);
                assert(s.skip(i as int).drop_first() =~= s.skip(i as int + 1));
            }
            if str_eq(self.charged_moves[i].uid.as_str(), id) {
                return Some(self.charged_moves[i].duplicate());
            }
            i = i + 1;
        }
        None
    }

    /// The multiplier-table entry of a level. Levels are validated at the
    /// loadout-construction boundary; an out-of-range level here is a
    /// caller error, not a recoverable one.
    pub fn cp_multiplier(&self, l: &Level) -> (r: CpmValue)
        requires
            self.wf(),
            l.wf(),
        ensures
            r == self.cp_multiplier@[l.spec_index()],
    {
        self.cp_multiplier[l.index() as usize]
    }

    /// The defensive effectiveness row of a single-typed defender: for each
    /// attacking type, the matrix factor against `a`.
    pub fn defender_type_effectiveness(&self, a: Type) -> (r: Vec<u64>)
        requires
            self.wf(),
        ensures
            r@.len() == 18,
            forall|t: int| 0 <= t < 18 ==> r@[t] == (#[trigger] self.type_effectiveness@[t])@[a.spec_index()],
    {
        let mut r: Vec<u64> = Vec::new();
        let mut t: usize = 0;
        let ai = a.index();
        while t < 18
            invariant
                t <= 18,
                self.wf(),
                ai == a.spec_index(),
                r@.len() == t,
                forall|k: int| 0 <= k < t ==> r@[k] == (#[trigger] self.type_effectiveness@[k])@[a.spec_index()],
            decreases 18 - t,
        {
            r.push(self.type_effectiveness[t][ai]);
            t = t + 1;
        }
        r
    }

    /// The defensive effectiveness row of a dual-typed defender: for each
    /// attacking type, the pair of matrix factors against `a` and `b`,
    /// whose product is the combined effectiveness.
    pub fn defender_dual_type_effectiveness(&self, a: Type, b: Type) -> (r: Vec<DefenseEffectiveness>)
        requires
            self.wf(),
        ensures
            r@.len() == 18,
            forall|t: int|
                0 <= t < 18 ==> #[trigger] r@[t] == (DefenseEffectiveness {
                    primary: self.type_effectiveness@[t]@[a.spec_index()],
                    secondary: Some(self.type_effectiveness@[t]@[b.spec_index()]),
                }),
    {
        let mut r: Vec<DefenseEffectiveness> = Vec::new();
        let mut t: usize = 0;
        let ai = a.index();
        let bi = b.index();
        while t < 18
            invariant
                t <= 18,
                self.wf(),
                ai == a.spec_index(),
                bi == b.spec_index(),
                r@.len() == t,
                forall|k: int|
                    0 <= k < t ==> #[trigger] r@[k] == (DefenseEffectiveness {
                        primary: self.type_effectiveness@[k]@[a.spec_index()],
                        secondary: Some(self.type_effectiveness@[k]@[b.spec_index()]),
                    }),
            decreases 18 - t,
        {
            r.push(
                DefenseEffectiveness {
                    primary: self.type_effectiveness[t][ai],
                    secondary: Some(self.type_effectiveness[t][bi]),
                },
            );
            t = t + 1;
        }
        r
    }
}


impl Mechanics {
    /// Builds a loadout: validates individual values and level at this
    /// boundary, resolves the species, and checks that each requested move
    /// is both eligible for the species and present in the catalog. The
    /// secondary charged move defaults to the primary when not supplied.
    pub fn pokemon_instance(
        &self,
        pokemon_id: &str,
        level: Level,
        atk_iv: u16,
        def_iv: u16,
        sta_iv: u16,
        fast_move: &str,
        charged_move1: &str,
        charged_move2: Option<&str>,
    ) -> (r: Result<PokemonInstance, Error>)
        requires
            self.wf(),
        ensures
            ({
                let sp = find_species(self.pokemon@, pokemon_id@);
                let c2id = match charged_move2 {
                    Some(s) => s@,
                    None => charged_move1@,
                };
                let ivs_ok = atk_iv <= 15 && def_iv <= 15 && sta_iv <= 15 && level.wf();
                match r {
                    Ok(inst) => {
                        &&& ivs_ok
                        &&& sp matches Some(p) && species_eq(inst.pokemon, p) && contains_id(
                            p.fast_move_ids@,
                            fast_move@,
                        ) && contains_id(p.charged_move_ids@, charged_move1@) && contains_id(
                            p.charged_move_ids@,
                            c2id,
                        )
                        &&& Some(inst.fast_move) == find_fast(self.fast_moves@, fast_move@)
                        &&& Some(inst.charged_move1) == find_charged(
                            self.charged_moves@,
                            charged_move1@,
                        )
                        &&& Some(inst.charged_move2) == find_charged(self.charged_moves@, c2id)
                        &&& inst.level == level
                        &&& inst.atk_iv == atk_iv
                        &&& inst.def_iv == def_iv
                        &&& inst.sta_iv == sta_iv
                        &&& inst.cpm == self.cp_multiplier@[level.spec_index()]
                    },
                    Err(e) => {
                        &&& !({
                            &&& ivs_ok
                            &&& sp matches Some(p) && contains_id(p.fast_move_ids@, fast_move@)
                                && contains_id(p.charged_move_ids@, charged_move1@) && contains_id(
                                p.charged_move_ids@,
                                c2id,
                            )
                            &&& find_fast(self.fast_moves@, fast_move@) is Some
                            &&& find_charged(self.charged_moves@, charged_move1@) is Some
                            &&& find_charged(self.charged_moves@, c2id) is Some
                        })
                        &&& (e.is_bounds() <==> (!ivs_ok || sp is None))
                        &&& (e.is_bounds() || e.is_parse())
                    },
                }
            }),
    {
        if atk_iv > 15 || def_iv > 15 || sta_iv > 15 {
            return Err(Error::BoundsError(String::from_str(
                "an individual value lies outside 0..=15",
            )));
        }
        if level.level < 1 || level.level > 40 || (level.level == 40 && level.a_half) {
            return Err(Error::BoundsError(String::from_str(
                "the level lies outside the progression table",
            )));
        }
        let pok = match self.pokemon(pokemon_id) {
            Some(p) => p,
            None => {
                return Err(Error::BoundsError(String::from_str("unknown species id")));
            },
        };
        if !id_in(&pok.fast_move_ids, fast_move) {
            return Err(Error::ParseError(String::from_str(
                "fast move is not eligible for the species",
            )));
        }
        let fast = match self.fast_move(fast_move) {
            Some(m) => m,
            None => {
                return Err(Error::ParseError(String::from_str("unknown fast move id")));
            },
        };
        if !id_in(&pok.charged_move_ids, charged_move1) {
            return Err(Error::ParseError(String::from_str(
                "charged move is not eligible for the species",
            )));
        }
        let charged1 = match self.charged_move(charged_move1) {
            Some(m) => m,
            None => {
                return Err(Error::ParseError(String::from_str("unknown charged move id")));
            },
        };
        let c2id = match charged_move2 {
            Some(s) => s,
            None => charged_move1,
        };
        if !id_in(&pok.charged_move_ids, c2id) {
            return Err(Error::ParseError(String::from_str(
                "charged move is not eligible for the species",
            )));
        }
        let charged2 = match self.charged_move(c2id) {
            Some(m) => m,
            None => {
                return Err(Error::ParseError(String::from_str("unknown charged move id")));
            },
        };
        let cpm = self.cp_multiplier(&level);
        Ok(PokemonInstance::new(pok, level, cpm, atk_iv, def_iv, sta_iv, fast, charged1, charged2))
    }
}

/// Whether an id list holds the given id.
pub fn id_in(ids: &Vec<String>, id: &str) -> (r: bool)
    ensures
        r == contains_id(ids@, id@),
{
    let mut i: usize = 0;
    while i < ids.len()
        invariant
            i <= ids@.len(),
            forall|j: int| 0 <= j < i ==> (#[trigger] ids@[j])@ != id@,
        decreases ids@.len() - i,
    {
        if str_eq(ids[i].as_str(), id) {
            return true;
        }
        i = i + 1;
    }
    false
}

/// Law: the multiplier table keeps every raw progression scalar at the
/// even position of its whole level, and its last entry is exactly the
/// 40th raw value.
pub proof fn lemma_multiplier_whole_levels(raw: Seq<u64>, i: int)
    requires
        raw.len() == 40,
        0 <= i < 40,
    ensures
        cpm_table_entry(raw, if 2 * i < 78 { 2 * i } else { 78 }) == CpmValue::Whole(raw[i]),
        cpm_table_entry(raw, 78) == CpmValue::Whole(raw[39]),
{
}

/// Law: every half-step entry of the multiplier table carries exactly the
/// two adjacent raw scalars of its neighbouring whole levels, on which the
/// documented root-mean-square interpolation is evaluated.
pub proof fn lemma_multiplier_half_steps(raw: Seq<u64>, i: int)
    requires
        raw.len() == 40,
        0 <= i < 39,
    ensures
        cpm_table_entry(raw, 2 * i + 1) == CpmValue::HalfStep(raw[i], raw[i + 1]),
{
}

/// Law: in a well-formed dataset, the defensive effectiveness row of a
/// dual-typed species pairs, for every attacking type, exactly the two
/// single-type factors of the species' types, so the combined defensive
/// effectiveness is their elementwise product; a single-typed species
/// carries the single factor alone.
pub proof fn lemma_dual_type_effectiveness_factors(m: Mechanics, k: int, t: int)
    requires
        m.wf(),
        0 <= k < m.pokemon@.len(),
        0 <= t < 18,
    ensures
        m.pokemon@[k].type_effectiveness@[t].primary
            == m.type_effectiveness@[t]@[m.pokemon@[k].type1.spec_index()],
        m.pokemon@[k].type2 matches Some(t2) ==> m.pokemon@[k].type_effectiveness@[t].secondary
            == Some(m.type_effectiveness@[t]@[t2.spec_index()]),
        m.pokemon@[k].type2 is None ==> m.pokemon@[k].type_effectiveness@[t].secondary is None,
{
    assert(species_consistent(m.pokemon@[k], m.type_effectiveness@));
}

} // verus!
