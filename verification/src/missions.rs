//! Mission scorer: ranks a list of time-boxed candidates (quests or
//! expeditions) under a selectable strategy and returns the single best one.
//!
//! Candidates that cost premium currency are excluded outright; premium
//! currency is only ever spent later, on skipping waits, under explicit
//! budgets. All scoring is integer-scaled so that identical inputs always
//! produce identical selections.

use vstd::prelude::*;

use crate::config::MissionStrategy;

verus! {

/// Scale factor for integer rate arithmetic: reward-per-minute values are
/// multiplied by this before division so that comparisons keep precision.
pub const RATE_SCALE: u64 = 1_000_000;

/// The facts about one candidate that scoring reads.
#[derive(Debug, Clone, Copy, PartialEq, Eq, Structural)]
pub struct MissionFacts {
    pub id: u32,
    pub minutes: u32,
    pub gold: u64,
    pub xp: u64,
    pub mushrooms: u8,
}

/// Anything that can be scored as a mission. The spec function `facts` is the
/// mathematical content of a candidate; the getters must agree with it.
pub trait MissionLike: Sized {
    spec fn facts(&self) -> MissionFacts;

    fn id(&self) -> (r: u32)
        ensures
            r == self.facts().id,
    ;

    fn minutes(&self) -> (r: u32)
        ensures
            r == self.facts().minutes,
    ;

    fn gold(&self) -> (r: u64)
        ensures
            r == self.facts().gold,
    ;

    fn xp(&self) -> (r: u64)
        ensures
            r == self.facts().xp,
    ;

    fn mushrooms(&self) -> (r: u8)
        ensures
            r == self.facts().mushrooms,
    ;
}

/// A tavern quest candidate.
#[derive(Debug, Clone)]
pub struct Quest {
    pub id: u32,
    pub minutes: u32,
    pub gold: u64,
    pub xp: u64,
    pub mushrooms: u8,
}

/// An expedition candidate.
#[derive(Debug, Clone)]
pub struct Expedition {
    pub id: u32,
    pub minutes: u32,
    pub gold: u64,
    pub xp: u64,
    pub mushrooms: u8,
}

impl MissionLike for Quest {
    open spec fn facts(&self) -> MissionFacts {
        MissionFacts {
            id: self.id,
            minutes: self.minutes,
            gold: self.gold,
            xp: self.xp,
            mushrooms: self.mushrooms,
        }
    }

    fn id(&self) -> u32 {
        self.id
    }

    fn minutes(&self) -> u32 {
        self.minutes
    }

    fn gold(&self) -> u64 {
        self.gold
    }

    fn xp(&self) -> u64 {
        self.xp
    }

    fn mushrooms(&self) -> u8 {
        self.mushrooms
    }
}

impl MissionLike for Expedition {
    open spec fn facts(&self) -> MissionFacts {
        MissionFacts {
            id: self.id,
            minutes: self.minutes,
            gold: self.gold,
            xp: self.xp,
            mushrooms: self.mushrooms,
        }
    }

    fn id(&self) -> u32 {
        self.id
    }

    fn minutes(&self) -> u32 {
        self.minutes
    }

    fn gold(&self) -> u64 {
        self.gold
    }

    fn xp(&self) -> u64 {
        self.xp
    }

    fn mushrooms(&self) -> u8 {
        self.mushrooms
    }
}

/// A candidate is free when it costs no premium currency.
pub open spec fn is_free(f: MissionFacts) -> bool {
    f.mushrooms == 0
}

/// Scaled reward-per-minute: `value * RATE_SCALE / minutes`, saturating to
/// the `i64::MAX` sentinel when `minutes` is zero or the quotient would not
/// fit.
pub open spec fn rate_spec(value: u64, minutes: u32) -> int {
    if minutes == 0 {
        i64::MAX as int
    } else if value * RATE_SCALE / (minutes as int) > i64::MAX as int {
        i64::MAX as int
    } else {
        value * RATE_SCALE / (minutes as int)
    }
}

proof fn lemma_rate_spec_bounds(value: u64, minutes: u32)
    ensures
        0 <= rate_spec(value, minutes) <= i64::MAX,
{
    if minutes != 0 {
        assert(value * RATE_SCALE >= 0) by (nonlinear_arith);
        assert(value * RATE_SCALE / (minutes as int) >= 0) by (nonlinear_arith)
            requires
                value * RATE_SCALE >= 0,
                minutes > 0,
        ;
    }
}

/// Scaled reward-per-minute with a saturating maximum sentinel.
pub fn rate(value: u64, minutes: u32) -> (r: i64)
    ensures
        r == rate_spec(value, minutes),
        0 <= r,
{
    proof {
        lemma_rate_spec_bounds(value, minutes);
    }
    if minutes == 0 {
        return i64::MAX;
    }
    let q: u128 = (value as u128) * 1_000_000u128 / (minutes as u128);
    assert(q == value * RATE_SCALE / (minutes as int));
    if q > i64::MAX as u128 {
        i64::MAX
    } else {
        q as i64
    }
}

/// The largest scaled gold rate among the free candidates; zero when there is
/// no free candidate.
pub open spec fn max_gold_rate(s: Seq<MissionFacts>) -> int
    decreases s.len(),
{
    if s.len() == 0 {
        0
    } else {
        let m = max_gold_rate(s.drop_last());
        let r = if is_free(s.last()) {
            rate_spec(s.last().gold, s.last().minutes)
        } else {
            0
        };
        if r > m {
            r
        } else {
            m
        }
    }
}

/// The largest scaled experience rate among the free candidates; zero when
/// there is no free candidate.
pub open spec fn max_xp_rate(s: Seq<MissionFacts>) -> int
    decreases s.len(),
{
    if s.len() == 0 {
        0
    } else {
        let m = max_xp_rate(s.drop_last());
        let r = if is_free(s.last()) {
            rate_spec(s.last().xp, s.last().minutes)
        } else {
            0
        };
        if r > m {
            r
        } else {
            m
        }
    }
}

/// The composite score used by the `Smartest` strategy, scaled by 100 and by
/// `RATE_SCALE`: 40 x normalized gold rate + 40 x normalized experience rate
/// + 20 x speed bonus, minus a penalty of 15 when the candidate costs
/// premium currency. Normalization divides by the batch maximum (`mg`, `mx`),
/// yielding zero when that maximum is zero.
pub open spec fn smartest_score_spec(f: MissionFacts, mg: int, mx: int) -> int {
    let rg = rate_spec(f.gold, f.minutes);
    let rx = rate_spec(f.xp, f.minutes);
    let ng = if mg == 0 {
        0
    } else {
        rg * RATE_SCALE / mg
    };
    let nx = if mx == 0 {
        0
    } else {
        rx * RATE_SCALE / mx
    };
    let sp = RATE_SCALE as int / (if f.minutes == 0 {
        1int
    } else {
        f.minutes as int
    });
    40 * ng + 40 * nx + 20 * sp - (if f.mushrooms > 0 {
        15 * RATE_SCALE as int
    } else {
        0int
    })
}

/// Whether candidate `a` strictly beats candidate `b` under the strategy.
/// Since replacement only happens on a strict win, the first seen of any
/// tied pair is kept.
pub open spec fn strictly_better(
    strat: MissionStrategy,
    a: MissionFacts,
    b: MissionFacts,
    mg: int,
    mx: int,
) -> bool {
    match strat {
        MissionStrategy::Shortest => a.minutes < b.minutes || (a.minutes == b.minutes && a.gold
            > b.gold),
        MissionStrategy::MostGold => a.gold > b.gold,
        MissionStrategy::BestGoldPerMinute => rate_spec(a.gold, a.minutes) > rate_spec(
            b.gold,
            b.minutes,
        ),
        MissionStrategy::BestXpPerMinute => rate_spec(a.xp, a.minutes) > rate_spec(b.xp, b.minutes),
        MissionStrategy::Smartest => smartest_score_spec(a, mg, mx) > smartest_score_spec(
            b,
            mg,
            mx,
        ),
    }
}

/// The index of the selected candidate among the first elements of `s`:
/// non-free candidates are skipped, and a later candidate replaces the
/// current selection only when it is strictly better.
pub open spec fn pick_rec(
    s: Seq<MissionFacts>,
    strat: MissionStrategy,
    mg: int,
    mx: int,
) -> Option<int>
    decreases s.len(),
{
    if s.len() == 0 {
        None
    } else {
        let prev = pick_rec(s.drop_last(), strat, mg, mx);
        if !is_free(s.last()) {
            prev
        } else {
            match prev {
                None => Some(s.len() - 1),
                Some(j) => if strictly_better(strat, s.last(), s[j], mg, mx) {
                    Some(s.len() - 1)
                } else {
                    Some(j)
                },
            }
        }
    }
}

/// The index of the candidate the scorer selects, or `None` when no free
/// candidate exists.
pub open spec fn pick_index(s: Seq<MissionFacts>, strat: MissionStrategy) -> Option<int> {
    pick_rec(s, strat, max_gold_rate(s), max_xp_rate(s))
}

/// The facts of each element of a candidate list.
pub open spec fn facts_of<T: MissionLike>(s: Seq<T>) -> Seq<MissionFacts> {
    s.map_values(|t: T| t.facts())
}

/// `strictly_better` orders candidates by a strategy-dependent key, so a win
/// over the current selection carries over every candidate the selection had
/// already beaten or tied.
proof fn lemma_better_negative_transitive(
    strat: MissionStrategy,
    a: MissionFacts,
    b: MissionFacts,
    c: MissionFacts,
    mg: int,
    mx: int,
)
    requires
        strictly_better(strat, a, c, mg, mx),
        !strictly_better(strat, b, c, mg, mx),
    ensures
        !strictly_better(strat, b, a, mg, mx),
{
}

/// When nothing is selected, no candidate is free.
proof fn lemma_pick_rec_none(s: Seq<MissionFacts>, strat: MissionStrategy, mg: int, mx: int)
    ensures
        (pick_rec(s, strat, mg, mx) is None) ==> forall|k: int|
            0 <= k < s.len() ==> !is_free(#[trigger] s[k]),
    decreases s.len(),
{
    if s.len() > 0 {
        lemma_pick_rec_none(s.drop_last(), strat, mg, mx);
        if pick_rec(s, strat, mg, mx) is None {
            assert forall|k: int| 0 <= k < s.len() implies !is_free(#[trigger] s[k]) by {
                if k < s.len() - 1 {
                    assert(s.drop_last()[k] == s[k]);
                }
            }
        }
    }
}

/// The selection, when it exists, is a free candidate inside the list, and no
/// free candidate strictly beats it.
pub proof fn lemma_pick_rec_optimal(s: Seq<MissionFacts>, strat: MissionStrategy, mg: int, mx: int)
    ensures
        pick_rec(s, strat, mg, mx) matches Some(j) ==> 0 <= j < s.len() && is_free(s[j]) && forall|
            k: int,
        |
            0 <= k < s.len() && is_free(#[trigger] s[k]) ==> !strictly_better(
                strat,
                s[k],
                s[j],
                mg,
                mx,
            ),
    decreases s.len(),
{
    if s.len() == 0 {
        return ;
    }
    let sub = s.drop_last();
    lemma_pick_rec_optimal(sub, strat, mg, mx);
    assert(forall|k: int| 0 <= k < sub.len() ==> sub[k] == s[k]);
    match pick_rec(s, strat, mg, mx) {
        None => {},
        Some(j) => {
            let last = s.last();
            let n = s.len() - 1;
        if !is_free(last) {
            // the selection is inherited from the prefix, and the last
            // candidate is not free, so it does not count
            assert forall|k: int|
                0 <= k < s.len() && is_free(#[trigger] s[k]) implies !strictly_better(
                strat,
                s[k],
                s[j],
                mg,
                mx,
            ) by {}
        } else {
            match pick_rec(sub, strat, mg, mx) {
                None => {
                    lemma_pick_rec_none(sub, strat, mg, mx);
                    assert(j == n);
                },
                Some(p) => {
                    if strictly_better(strat, last, s[p], mg, mx) {
                        assert(j == n);
                        assert forall|k: int|
                            0 <= k < s.len() && is_free(#[trigger] s[k]) implies !strictly_better(
                            strat,
                            s[k],
                            s[j],
                            mg,
                            mx,
                        ) by {
                            if k < n {
                                lemma_better_negative_transitive(
                                    strat,
                                    last,
                                    s[k],
                                    s[p],
                                    mg,
                                    mx,
                                );
                            }
                        }
                    } else {
                        assert(j == p);
                    }
                },
            }
        }
        },
    }
}

/// A candidate is selected exactly when some free candidate exists.
pub proof fn lemma_pick_rec_some_iff(s: Seq<MissionFacts>, strat: MissionStrategy, mg: int, mx: int)
    ensures
        (pick_rec(s, strat, mg, mx) is Some) <==> exists|i: int|
            0 <= i < s.len() && is_free(#[trigger] s[i]),
{
    lemma_pick_rec_none(s, strat, mg, mx);
    lemma_pick_rec_optimal(s, strat, mg, mx);
}

/// Law: a candidate list in which every candidate costs premium currency
/// yields no selection, whatever the strategy.
pub proof fn lemma_all_premium_rejected(s: Seq<MissionFacts>, strat: MissionStrategy)
    requires
        forall|i: int| 0 <= i < s.len() ==> (#[trigger] s[i]).mushrooms > 0,
    ensures
        pick_index(s, strat) is None,
{
    lemma_pick_rec_some_iff(s, strat, max_gold_rate(s), max_xp_rate(s));
}

/// Law: under the `Shortest` strategy the selected candidate's duration is
/// less than or equal to every free candidate's duration.
pub proof fn lemma_shortest_duration_minimal(s: Seq<MissionFacts>)
    ensures
        pick_index(s, MissionStrategy::Shortest) matches Some(j) ==> forall|k: int|
            0 <= k < s.len() && is_free(#[trigger] s[k]) ==> s[j].minutes <= s[k].minutes,
{
    lemma_pick_rec_optimal(s, MissionStrategy::Shortest, max_gold_rate(s), max_xp_rate(s));
}

/// Law: the scorer is a pure function of the candidate list and the strategy;
/// two evaluations of identical inputs select the same candidate.
pub proof fn lemma_pick_deterministic(
    s1: Seq<MissionFacts>,
    s2: Seq<MissionFacts>,
    strat: MissionStrategy,
)
    requires
        s1 == s2,
    ensures
        pick_index(s1, strat) == pick_index(s2, strat),
{
}

/// The `Smartest` composite score of one candidate, given the batch maxima.
fn smartest_score<T: MissionLike>(q: &T, mg: i64, mx: i64) -> (r: i128)
    requires
        0 <= mg,
        0 <= mx,
    ensures
        r == smartest_score_spec(q.facts(), mg as int, mx as int),
{
    let minutes = q.minutes();
    let gold = q.gold();
    let xp = q.xp();
    let mushrooms = q.mushrooms();
    proof {
        lemma_rate_spec_bounds(gold, minutes);
        lemma_rate_spec_bounds(xp, minutes);
    }
    let rg = rate(gold, minutes) as u128;
    let rx = rate(xp, minutes) as u128;
    let ng: u128 = if mg == 0 {
        0
    } else {
        let n = rg * 1_000_000u128 / (mg as u128);
        assert(n <= rg * 1_000_000) by {
            vstd::arithmetic::div_mod::lemma_div_is_ordered_by_denominator(
                (rg * 1_000_000) as int,
                1,
                mg as int,
            );
        }
        n
    };
    let nx: u128 = if mx == 0 {
        0
    } else {
        let n = rx * 1_000_000u128 / (mx as u128);
        assert(n <= rx * 1_000_000) by {
            vstd::arithmetic::div_mod::lemma_div_is_ordered_by_denominator(
                (rx * 1_000_000) as int,
                1,
                mx as int,
            );
        }
        n
    };
    let divisor: u128 = if minutes == 0 {
        1
    } else {
        minutes as u128
    };
    let sp: u128 = 1_000_000u128 / divisor;
    let base: u128 = 40 * ng + 40 * nx + 20 * sp;
    let penalty: i128 = if mushrooms > 0 {
        15_000_000i128
    } else {
        0
    };
    base as i128 - penalty
}

/// Whether candidate `a` strictly beats candidate `b` under the strategy;
/// `mg` and `mx` are the batch maxima used by `Smartest` normalization.
pub(crate) fn mission_better<T: MissionLike>(strat: MissionStrategy, a: &T, b: &T, mg: i64, mx: i64) -> (r:
    bool)
    requires
        0 <= mg,
        0 <= mx,
    ensures
        r == strictly_better(strat, a.facts(), b.facts(), mg as int, mx as int),
{
    match strat {
        MissionStrategy::Shortest => {
            let am = a.minutes();
            let bm = b.minutes();
            am < bm || (am == bm && a.gold() > b.gold())
        },
        MissionStrategy::MostGold => a.gold() > b.gold(),
        MissionStrategy::BestGoldPerMinute => rate(a.gold(), a.minutes()) > rate(
            b.gold(),
            b.minutes(),
        ),
        MissionStrategy::BestXpPerMinute => rate(a.xp(), a.minutes()) > rate(b.xp(), b.minutes()),
        MissionStrategy::Smartest => {
            let sa = smartest_score(a, mg, mx);
            let sb = smartest_score(b, mg, mx);
            sa > sb
        },
    }
}

/// The batch maxima of the scaled gold and experience rates over the free
/// candidates.
fn max_rates<T: MissionLike>(items: &Vec<T>) -> (r: (i64, i64))
    ensures
        r.0 == max_gold_rate(facts_of(items@)),
        r.1 == max_xp_rate(facts_of(items@)),
        0 <= r.0,
        0 <= r.1,
{
    let ghost facts = facts_of(items@);
    let mut mg: i64 = 0;
    let mut mx: i64 = 0;
    let mut i: usize = 0;
    while i < items.len()
        invariant
            0 <= i <= items@.len(),
            facts == facts_of(items@),
            facts.len() == items@.len(),
            mg == max_gold_rate(facts.take(i as int)),
            mx == max_xp_rate(facts.take(i as int)),
            0 <= mg,
            0 <= mx,
        decreases items@.len() - i,
    {
        let item = &items[i];
        assert(facts[i as int] == item.facts());
        if item.mushrooms() == 0 {
            let rg = rate(item.gold(), item.minutes());
            if rg > mg {
                mg = rg;
            }
            let rx = rate(item.xp(), item.minutes());
            if rx > mx {
                mx = rx;
            }
        }
        proof {
            assert(facts.take(i + 1).drop_last() =~= facts.take(i as int));
            assert(facts.take(i + 1).last() == facts[i as int]);
        }
        i = i + 1;
    }
    proof {
        assert(facts.take(items@.len() as int) =~= facts);
    }
    (mg, mx)
}

/// Selects the single best candidate under the strategy, or `None` when every
/// candidate costs premium currency. The selection is exactly the candidate
/// at `pick_index` of the list's facts: free candidates only, ranked by the
/// strategy, first seen kept on ties.
pub fn pick_mission<T: MissionLike + Clone>(items: Vec<T>, strat: MissionStrategy) -> (r: Option<
    T,
>)
    ensures
        match pick_index(facts_of(items@), strat) {
            Some(j) => r matches Some(q) && 0 <= j < items@.len() && q == items@[j],
            None => r is None,
        },
        (r is Some) <==> exists|i: int|
            0 <= i < items@.len() && is_free(#[trigger] facts_of(items@)[i]),
{
    let ghost orig = items@;
    let ghost facts = facts_of(items@);
    let (mg, mx) = max_rates(&items);
    let mut best: Option<usize> = None;
    let mut i: usize = 0;
    while i < items.len()
        invariant
            0 <= i <= items@.len(),
            items@ == orig,
            facts == facts_of(items@),
            facts.len() == items@.len(),
            mg == max_gold_rate(facts),
            mx == max_xp_rate(facts),
            0 <= mg,
            0 <= mx,
            match pick_rec(facts.take(i as int), strat, mg as int, mx as int) {
                Some(j) => best matches Some(b) && b == j,
                None => best is None,
            },
        decreases items@.len() - i,
    {
        proof {
            lemma_pick_rec_optimal(facts.take(i as int), strat, mg as int, mx as int);
        }
        let item = &items[i];
        assert(facts[i as int] == item.facts());
        if item.mushrooms() == 0 {
            best = match best {
                None => Some(i),
                Some(b) => {
                    assert(facts[b as int] == orig[b as int].facts());
                    if mission_better(strat, item, &items[b], mg, mx) {
                        Some(i)
                    } else {
                        Some(b)
                    }
                },
            };
        }
        proof {
            assert(facts.take(i + 1).drop_last() =~= facts.take(i as int));
            assert(facts.take(i + 1).last() == facts[i as int]);
        }
        i = i + 1;
    }
    proof {
        assert(facts.take(items@.len() as int) =~= facts);
        lemma_pick_rec_some_iff(facts, strat, mg as int, mx as int);
        lemma_pick_rec_optimal(facts, strat, mg as int, mx as int);
    }
    let mut items = items;
    match best {
        None => None,
        Some(b) => Some(items.remove(b)),
    }
}

} // verus!
