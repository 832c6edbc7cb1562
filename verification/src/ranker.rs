use vstd::prelude::*;

use crate::pokemon::Level;

verus! {

/// All 4096 individual-value combinations, in ascending enumeration
/// order: attack first, then defense, then stamina.
pub fn iv_combinations() -> (r: Vec<(i32, i32, i32)>)
    ensures
        r@.len() == 4096,
        forall|n: int|
            0 <= n < 4096 ==> r@[n] == (((n / 256) as i32, ((n / 16) % 16) as i32, (n % 16) as i32)),
{
    let mut r: Vec<(i32, i32, i32)> = Vec::new();
    let mut n: usize = 0;
    while n < 4096
        invariant
            n <= 4096,
            r@.len() == n,
            forall|m: int|
                0 <= m < n ==> r@[m] == (((m / 256) as i32, ((m / 16) % 16) as i32, (m % 16) as i32)),
        decreases 4096 - n,
    {
        r.push(((n / 256) as i32, ((n / 16) % 16) as i32, (n % 16) as i32));
        n = n + 1;
    }
    r
}

/// One individual-value combination's evaluation of a species over the 79
/// levels: the power rating at each level, an order-preserving key of the
/// stat product at each level, and the stat product as reported.
#[derive(Debug)]
pub struct ComboEval {
    pub cp: Vec<u32>,
    pub key: Vec<u64>,
    pub report: Vec<u32>,
}

impl ComboEval {
    pub open spec fn wf(self) -> bool {
        self.cp@.len() == 79 && self.key@.len() == 79 && self.report@.len() == 79
    }
}

/// The highest level index not above `l` whose power rating fits the
/// cap, or -1 when none does.
pub open spec fn spec_pick_level(cp: Seq<u32>, l: int, cap: u32) -> int
    recommends
        cp.len() == 79,
        l <= 78,
    decreases l + 1,
{
    if l < 0 {
        -1
    } else if cp[l] <= cap {
        l
    } else {
        spec_pick_level(cp, l - 1, cap)
    }
}

/// The stat-product key a combination achieves under a cap: its key at
/// the chosen level, or zero when no level fits.
pub open spec fn combo_key(e: ComboEval, start: int, cap: u32) -> u64 {
    let l = spec_pick_level(e.cp@, start, cap);
    if l >= 0 {
        e.key@[l]
    } else {
        0
    }
}

/// The winning combination among the first `n`: the one achieving the
/// greatest key, later combinations winning exact ties.
pub open spec fn spec_best_combo(evals: Seq<ComboEval>, n: int, start: int, cap: u32) -> int
    decreases n,
{
    if n <= 1 {
        0
    } else {
        let prev = spec_best_combo(evals, n - 1, start, cap);
        if combo_key(evals[prev], start, cap) <= combo_key(evals[n - 1], start, cap) {
            n - 1
        } else {
            prev
        }
    }
}

/// The chosen level, executed: steps down from `start` to the first
/// level whose rating fits the cap.
fn pick_level(e: &ComboEval, start: u16, cap: u32) -> (l: i32)
    requires
        e.wf(),
        start <= 78,
    ensures
        l == spec_pick_level(e.cp@, start as int, cap),
        -1 <= l <= start,
{
    let mut l: i32 = start as i32;
    while l >= 0
        invariant
            -1 <= l <= start,
            e.wf(),
            start <= 78,
            spec_pick_level(e.cp@, start as int, cap) == spec_pick_level(e.cp@, l as int, cap),
        decreases l + 1,
    {
        if e.cp[l as usize] <= cap {
            return l;
        }
        l = l - 1;
    }
    -1
}

/// The combination's key under the cap, executed.
fn eval_key(e: &ComboEval, start: u16, cap: u32) -> (k: u64)
    requires
        e.wf(),
        start <= 78,
    ensures
        k == combo_key(*e, start as int, cap),
{
    let l = pick_level(e, start, cap);
    if l >= 0 {
        e.key[l as usize]
    } else {
        0
    }
}

/// Searches all 4096 individual-value combinations for the build with the
/// greatest stat product under the cap. For each combination the highest
/// level at or below `start` whose rating fits the cap is chosen; exact
/// ties between combinations go to the later one in enumeration order. A
/// combination with no fitting level scores zero and reports the lowest
/// level.
pub fn max_statproduct(evals: &Vec<ComboEval>, start: u16, cap: u32) -> (r: (
    i32,
    i32,
    i32,
    Level,
    u32,
))
    requires
        evals@.len() == 4096,
        forall|c: int| 0 <= c < 4096 ==> (#[trigger] evals@[c]).wf(),
        start <= 78,
    ensures
        ({
            let best = spec_best_combo(evals@, 4096, start as int, cap);
            let l = spec_pick_level(evals@[best].cp@, start as int, cap);
            &&& r.0 == best / 256
            &&& r.1 == (best / 16) % 16
            &&& r.2 == best % 16
            &&& (l >= 0 ==> r.3.wf() && r.3.spec_index() == l && r.4 == evals@[best].report@[l])
            &&& (l < 0 ==> r.3 == (Level { level: 1, a_half: false }) && r.4 == 0)
        }),
{
    let mut best: usize = 0;
    let mut best_key: u64 = eval_key(&evals[0], start, cap);
    let mut c: usize = 1;
    while c < 4096
        invariant
            1 <= c <= 4096,
            evals@.len() == 4096,
            forall|k: int| 0 <= k < 4096 ==> (#[trigger] evals@[k]).wf(),
            start <= 78,
            best < c,
            best == spec_best_combo(evals@, c as int, start as int, cap),
            best_key == combo_key(evals@[best as int], start as int, cap),
        decreases 4096 - c,
    {
        let key = eval_key(&evals[c], start, cap);
        if best_key <= key {
            best = c;
            best_key = key;
        }
        c = c + 1;
    }
    let l = pick_level(&evals[best], start, cap);
    if l >= 0 {
        let lvl = Level::from_index(l as u16);
        let rep = evals[best].report[l as usize];
        ((best / 256) as i32, ((best / 16) % 16) as i32, (best % 16) as i32, lvl, rep)
    } else {
        (
            (best / 256) as i32,
            ((best / 16) % 16) as i32,
            (best % 16) as i32,
            Level { level: 1, a_half: false },
            0,
        )
    }
}

/// The chosen level lies between -1 and the start, and fits the cap when
/// it exists.
proof fn lemma_pick_level_bounds(cp: Seq<u32>, l: int, cap: u32)
    requires
        cp.len() == 79,
        -1 <= l <= 78,
    ensures
        -1 <= spec_pick_level(cp, l, cap) <= l,
        spec_pick_level(cp, l, cap) >= 0 ==> cp[spec_pick_level(cp, l, cap)] <= cap,
    decreases l + 1,
{
    if l >= 0 && cp[l] > cap {
        lemma_pick_level_bounds(cp, l - 1, cap);
    }
}

/// Any level at or below the start that fits the cap bounds the chosen
/// level from below: the search picks the highest fitting level.
proof fn lemma_pick_level_ge(cp: Seq<u32>, start: int, cap: u32, l: int)
    requires
        cp.len() == 79,
        0 <= l <= start <= 78,
        cp[l] <= cap,
    ensures
        spec_pick_level(cp, start, cap) >= l,
    decreases start,
{
    if start > l && cp[start] > cap {
        lemma_pick_level_ge(cp, start - 1, cap, l);
    }
}

/// Widening the search never lowers one combination's key: under a cap at
/// least as large and a start at least as high, and with keys
/// non-decreasing in level, the chosen level only climbs.
proof fn lemma_combo_key_monotone(e: ComboEval, start1: int, start2: int, cap1: u32, cap2: u32)
    requires
        e.wf(),
        0 <= start1 <= start2 <= 78,
        cap1 <= cap2,
        forall|i: int, j: int| 0 <= i <= j < 79 ==> (#[trigger] e.key@[i]) <= (#[trigger] e.key@[j]),
    ensures
        combo_key(e, start1, cap1) <= combo_key(e, start2, cap2),
{
    let l1 = spec_pick_level(e.cp@, start1, cap1);
    let l2 = spec_pick_level(e.cp@, start2, cap2);
    lemma_pick_level_bounds(e.cp@, start1, cap1);
    lemma_pick_level_bounds(e.cp@, start2, cap2);
    if l1 >= 0 {
        assert(e.cp@[l1] <= cap2);
        lemma_pick_level_ge(e.cp@, start2, cap2, l1);
        assert(e.key@[l1] <= e.key@[l2]);
    }
}

/// The winning index lies among the combinations considered.
proof fn lemma_best_combo_bounds(evals: Seq<ComboEval>, n: int, start: int, cap: u32)
    requires
        n >= 1,
    ensures
        0 <= spec_best_combo(evals, n, start, cap) < n,
    decreases n,
{
    if n > 1 {
        lemma_best_combo_bounds(evals, n - 1, start, cap);
    }
}

/// The winner's key is the maximum over the combinations considered.
proof fn lemma_best_combo_max(evals: Seq<ComboEval>, n: int, start: int, cap: u32, c: int)
    requires
        0 <= c < n,
    ensures
        combo_key(evals[c], start, cap) <= combo_key(
            evals[spec_best_combo(evals, n, start, cap)],
            start,
            cap,
        ),
    decreases n,
{
    if n > 1 && c < n - 1 {
        lemma_best_combo_max(evals, n - 1, start, cap, c);
    }
}

/// Law: raising the cap never lowers the best stat product. For one
/// species' evaluations — the same key column per combination,
/// non-decreasing in level, as the multiplier table is non-decreasing and
/// rating and stat product grow with the multiplier — a search allowed a
/// cap at least as large and a start level at least as high finds a best
/// key at least as large.
pub proof fn lemma_cap_monotone(
    evals: Seq<ComboEval>,
    start1: int,
    start2: int,
    cap1: u32,
    cap2: u32,
)
    requires
        evals.len() == 4096,
        forall|c: int| 0 <= c < 4096 ==> (#[trigger] evals[c]).wf(),
        0 <= start1 <= start2 <= 78,
        cap1 <= cap2,
        forall|c: int, i: int, j: int|
            0 <= c < 4096 && 0 <= i <= j < 79 ==> (#[trigger] evals[c].key@[i]) <= (
            #[trigger] evals[c].key@[j]),
    ensures
        combo_key(evals[spec_best_combo(evals, 4096, start1, cap1)], start1, cap1) <= combo_key(
            evals[spec_best_combo(evals, 4096, start2, cap2)],
            start2,
            cap2,
        ),
{
    let best1 = spec_best_combo(evals, 4096, start1, cap1);
    lemma_best_combo_bounds(evals, 4096, start1, cap1);
    assert forall|i: int, j: int| 0 <= i <= j < 79 implies evals[best1].key@[i]
        <= evals[best1].key@[j] by {
        assert(evals[best1].key@[i] <= evals[best1].key@[j]);
    }
    lemma_combo_key_monotone(evals[best1], start1, start2, cap1, cap2);
    lemma_best_combo_max(evals, 4096, start2, cap2, best1);
}

} // verus!
