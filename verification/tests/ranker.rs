use pvp_mechanics::pokemon::Level;
use pvp_mechanics::ranker::{max_statproduct, ComboEval};

/// A synthetic evaluation set: the rating depends only on the level, the
/// key grows with the combination index and the level.
fn evals() -> Vec<ComboEval> {
    (0..4096usize)
        .map(|c| ComboEval {
            cp: (0..79u32).map(|l| l * 10).collect(),
            key: (0..79usize).map(|l| (c + l) as u64).collect(),
            report: (0..79usize).map(|l| (c + l) as u32).collect(),
        })
        .collect()
}

#[test]
fn test_max_statproduct() {
    // Cap 500 admits levels up to index 50; every combination picks it,
    // and the highest combination index wins.
    let r = max_statproduct(&evals(), 78, 500);
    assert_eq!(r.0, 15);
    assert_eq!(r.1, 15);
    assert_eq!(r.2, 15);
    assert_eq!(r.3, Level { level: 26, a_half: false });
    assert_eq!(r.4, 4095 + 50);
}

#[test]
fn test_max_statproduct_start_bound() {
    // A lower starting level caps the chosen level even when the rating
    // would allow more.
    let r = max_statproduct(&evals(), 20, 500);
    assert_eq!(r.3, Level { level: 11, a_half: false });
    assert_eq!(r.4, 4095 + 20);
}

#[test]
fn test_max_statproduct_ties_go_late() {
    // All keys equal: the last combination in enumeration order wins.
    let flat: Vec<ComboEval> = (0..4096usize)
        .map(|_| ComboEval {
            cp: (0..79u32).map(|_| 0).collect(),
            key: (0..79usize).map(|_| 7).collect(),
            report: (0..79usize).map(|_| 7).collect(),
        })
        .collect();
    let r = max_statproduct(&flat, 78, 100);
    assert_eq!((r.0, r.1, r.2), (15, 15, 15));
    assert_eq!(r.3, Level { level: 40, a_half: false });
}

#[test]
fn test_max_statproduct_infeasible() {
    // No level fits the cap: the search reports the lowest level and a
    // zero product.
    let steep: Vec<ComboEval> = (0..4096usize)
        .map(|_| ComboEval {
            cp: (0..79u32).map(|l| 10 + l).collect(),
            key: (0..79usize).map(|l| l as u64).collect(),
            report: (0..79usize).map(|l| l as u32).collect(),
        })
        .collect();
    let r = max_statproduct(&steep, 78, 5);
    assert_eq!(r.3, Level { level: 1, a_half: false });
    assert_eq!(r.4, 0);
}

#[test]
fn test_cap_monotonicity() {
    // For the same evaluations, a larger cap never lowers the best
    // reported product.
    let e = evals();
    let low = max_statproduct(&e, 78, 200);
    let mid = max_statproduct(&e, 78, 500);
    let high = max_statproduct(&e, 78, 100000);
    assert!(low.4 <= mid.4);
    assert!(mid.4 <= high.4);
}
