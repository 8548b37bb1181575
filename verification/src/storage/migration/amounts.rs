//! Amounts and times that upgrades derive for earlier saves.

use vstd::prelude::*;

use crate::model::network::ConstructionDifficulty;
use crate::model::state::AuthorityRules;
use crate::model::units::{charge, fits_i64, CalculationError, DurationSeconds, Money};

verus! {

/// A price for a distance in metres at a rate per kilometre, rounded up to a whole cent.
pub open spec fn rounded_up(metres: int, rate: int) -> int {
    (metres * rate + 999) / 1000
}

/// Construction cost of a kilometre of planned Rail Line, in cents.
pub open spec fn kilometre_cost(difficulty: ConstructionDifficulty) -> int {
    match difficulty {
        ConstructionDifficulty::Low => 120_000,
        ConstructionDifficulty::Moderate => 160_000,
        ConstructionDifficulty::High => 220_000,
    }
}

/// The length and difficulty of a planned Rail Line.
#[derive(Clone, Copy, Debug, PartialEq, Eq, Structural)]
pub struct PlannedLength {
    pub metres: u32,
    pub difficulty: ConstructionDifficulty,
}

pub open spec fn planned_cost(lines: Seq<PlannedLength>, count: int) -> int
    decreases count,
{
    if count <= 0 {
        0
    } else {
        planned_cost(lines, count - 1) + rounded_up(
            lines[count - 1].metres as int,
            kilometre_cost(lines[count - 1].difficulty),
        )
    }
}

proof fn lemma_planned_cost(lines: Seq<PlannedLength>, low: int, high: int)
    requires
        0 <= low <= high <= lines.len(),
    ensures
        0 <= planned_cost(lines, low) <= planned_cost(lines, high),
    decreases high,
{
    if low < high {
        lemma_planned_cost(lines, low, high - 1);
    } else if low > 0 {
        lemma_planned_cost(lines, low - 1, low - 1);
    }
}

/// The estimated cost of a new line from its planned Rail Lines, where it fits the unit.
pub fn estimated_cost(lines: &Vec<PlannedLength>) -> (result: Option<i64>)
    ensures
        match result {
            Some(cents) => cents == planned_cost(lines@, lines@.len() as int),
            None => planned_cost(lines@, lines@.len() as int) > i64::MAX,
        },
{
    let mut total: i64 = 0;
    let mut i: usize = 0;
    while i < lines.len()
        invariant
            i <= lines@.len(),
            total == planned_cost(lines@, i as int),
            total >= 0,
        decreases lines.len() - i,
    {
        let rate: i64 = match lines[i].difficulty {
            ConstructionDifficulty::Low => 120_000,
            ConstructionDifficulty::Moderate => 160_000,
            ConstructionDifficulty::High => 220_000,
        };
        let metres: i64 = lines[i].metres as i64;
        assert(0 <= metres * rate <= 0xffff_ffff * 220_000) by (nonlinear_arith)
            requires
                0 <= metres <= 0xffff_ffff,
                0 <= rate <= 220_000,
        ;
        let cost: i64 = (metres * rate + 999) / 1000;
        match total.checked_add(cost) {
            Some(sum) => {
                total = sum;
            },
            None => {
                proof {
                    lemma_planned_cost(lines@, i + 1, lines@.len() as int);
                }
                return None;
            },
        }
        i += 1;
    }
    Some(total)
}

/// The length and track count of a Rail Line.
#[derive(Clone, Copy, Debug, PartialEq, Eq, Structural)]
pub struct TrackLength {
    pub metres: u32,
    pub tracks: u32,
}

pub open spec fn upkeep(lines: Seq<TrackLength>, rate: int, count: int) -> int
    decreases count,
{
    if count <= 0 {
        0
    } else {
        upkeep(lines, rate, count - 1) + rounded_up(lines[count - 1].metres as int, rate)
            * lines[count - 1].tracks
    }
}

proof fn lemma_upkeep(lines: Seq<TrackLength>, rate: int, low: int, high: int)
    requires
        0 <= low <= high <= lines.len(),
        rate >= 0,
    ensures
        0 <= upkeep(lines, rate, low) <= upkeep(lines, rate, high),
    decreases high,
{
    if low < high {
        lemma_upkeep(lines, rate, low, high - 1);
        let metres = lines[high - 1].metres as int;
        let tracks = lines[high - 1].tracks as int;
        let price = rounded_up(metres, rate);
        assert(metres * rate >= 0) by (nonlinear_arith)
            requires
                metres >= 0,
                rate >= 0,
        ;
        assert(price * tracks >= 0) by (nonlinear_arith)
            requires
                price >= 0,
                tracks >= 0,
        ;
    } else if low > 0 {
        lemma_upkeep(lines, rate, low - 1, low - 1);
    }
}

/// What the tracks of a network cost to keep, but no more than the treasury holds beyond
/// committed investment.
pub open spec fn reserve_of(treasury: int, committed: int, lines: Seq<TrackLength>, rate: int) -> int {
    let cost = upkeep(lines, rate, lines.len() as int);
    if cost < treasury - committed {
        cost
    } else {
        treasury - committed
    }
}

/// The maintenance reserve that a network is seeded with.
pub fn seeded_reserve(
    treasury: i64,
    committed: i64,
    lines: &Vec<TrackLength>,
    rate: u32,
) -> (result: i64)
    requires
        0 <= treasury,
        0 <= committed,
    ensures
        result == reserve_of(treasury as int, committed as int, lines@, rate as int),
{
    let free: i64 = treasury - committed;
    let mut total: i64 = 0;
    let mut i: usize = 0;
    while i < lines.len()
        invariant
            i <= lines@.len(),
            total == upkeep(lines@, rate as int, i as int),
            total >= 0,
            free == treasury - committed,
            0 <= treasury,
            0 <= committed,
        decreases lines.len() - i,
    {
        let metres: i128 = lines[i].metres as i128;
        let price_rate: i128 = rate as i128;
        let tracks: i128 = lines[i].tracks as i128;
        assert(0 <= metres * price_rate <= 0xffff_ffff * 0xffff_ffff) by (nonlinear_arith)
            requires
                0 <= metres <= 0xffff_ffff,
                0 <= price_rate <= 0xffff_ffff,
        ;
        let price: i128 = (metres * price_rate + 999) / 1000;
        assert(0 <= price * tracks <= 0x1_0000_0000_0000_0000 * 0xffff_ffff) by (nonlinear_arith)
            requires
                0 <= price <= 0x1_0000_0000_0000_0000,
                0 <= tracks <= 0xffff_ffff,
        ;
        let sum: i128 = total as i128 + price * tracks;
        assert(sum == upkeep(lines@, rate as int, i + 1));
        if sum > i64::MAX as i128 {
            proof {
                lemma_upkeep(lines@, rate as int, i + 1, lines@.len() as int);
            }
            return free;
        }
        total = sum as i64;
        i += 1;
    }
    if total < free {
        total
    } else {
        free
    }
}

/// What the Authority of an earlier save receives for its Region.
pub const REGIONAL_PUBLIC_ALLOCATION_CENTS: i64 = 10_000_000;

/// What a kilometre of track holds in reserve.
pub const MAINTENANCE_RESERVE_CENTS_PER_TRACK_KILOMETRE: u32 = 25_000;

/// The Authority's treasury after an amount is credited to it, where it fits the unit.
pub fn credited_treasury(treasury: i64, amount: i64) -> (result: Option<i64>)
    ensures
        result == (if fits_i64(treasury + amount) {
            Some((treasury + amount) as i64)
        } else {
            None
        }),
{
    treasury.checked_add(amount)
}

/// The pace at which the Authority of an earlier save decides and builds from now on.
pub fn slower_authority_pace() -> (result: AuthorityRules)
    ensures
        result.request_queue_delay.seconds == 3_600,
        result.review_duration.seconds == 7_200,
        result.proposal_duration.seconds == 3_600,
        result.council_request_cooldown.seconds == 86_400,
        result.deferred_reconsideration_delay.seconds == 86_400,
        result.construction_mobilisation_delay.seconds == 3_600,
        result.new_line_base_construction_duration.seconds == 18_000,
        result.low_difficulty_seconds_per_kilometre == 120,
        result.moderate_difficulty_seconds_per_kilometre == 180,
        result.high_difficulty_seconds_per_kilometre == 240,
        result.max_active_expansion_projects == 2,
{
    AuthorityRules {
        request_queue_delay: DurationSeconds::from_seconds(3_600),
        review_duration: DurationSeconds::from_seconds(7_200),
        proposal_duration: DurationSeconds::from_seconds(3_600),
        council_request_cooldown: DurationSeconds::from_seconds(86_400),
        deferred_reconsideration_delay: DurationSeconds::from_seconds(86_400),
        construction_mobilisation_delay: DurationSeconds::from_seconds(3_600),
        new_line_base_construction_duration: DurationSeconds::from_seconds(18_000),
        low_difficulty_seconds_per_kilometre: 120,
        moderate_difficulty_seconds_per_kilometre: 180,
        high_difficulty_seconds_per_kilometre: 240,
        max_active_expansion_projects: 2,
    }
}

/// Fifteen percent more than was contributed, in whole cents.
pub open spec fn credit_of(contributed: int) -> int {
    contributed * 115 / 100
}

/// The access credit of an opened project, where it fits the unit.
pub fn access_credit(contributed: i64) -> (result: Option<i64>)
    requires
        contributed >= 0,
    ensures
        result == (if fits_i64(credit_of(contributed as int)) {
            Some(credit_of(contributed as int) as i64)
        } else {
            None
        }),
{
    let credit: i128 = contributed as i128 * 115 / 100;
    if credit > i64::MAX as i128 {
        None
    } else {
        Some(credit as i64)
    }
}

/// The whole days between a time and the epoch, counted away from it.
pub open spec fn whole_days(time: int) -> int {
    if time >= 0 {
        time / 86_400
    } else {
        -(-time / 86_400)
    }
}

fn count_days(time: i64) -> (result: i128)
    ensures
        result == whole_days(time as int),
        -0x8000_0000_0000_0000 <= result <= 0x7fff_ffff_ffff_ffff,
{
    let wide: i128 = time as i128;
    if wide >= 0 {
        wide / 86_400
    } else {
        -(-wide / 86_400)
    }
}

/// The midnight in UTC so many whole days after the day of a time.
pub open spec fn midnight(time: int, days: int) -> int {
    (whole_days(time) + days) * 86_400
}

/// The next midnight in UTC after a time, where it fits the unit.
pub fn next_utc_midnight(time: i64) -> (result: Option<i64>)
    ensures
        result == (if fits_i64(midnight(time as int, 1)) {
            Some(midnight(time as int, 1) as i64)
        } else {
            None
        }),
        result matches Some(later) ==> time < later && later % 86_400 == 0 && (time >= 0 ==> later
            <= time + 86_400),
{
    let next: i128 = (count_days(time) + 1) * 86_400;
    if next > i64::MAX as i128 {
        None
    } else {
        Some(next as i64)
    }
}

/// The discount that replaces remaining access credit, in basis points and with its end: half
/// the fee until seven midnights on.
pub open spec fn replacing_discount(remaining: int, time: int) -> Option<(i64, i64)> {
    if remaining > 0 && fits_i64(midnight(time, 7)) {
        Some((5_000i64, midnight(time, 7) as i64))
    } else {
        None
    }
}

pub fn discount_for_credit(remaining: i64, time: i64) -> (result: Option<(i64, i64)>)
    ensures
        result == replacing_discount(remaining as int, time as int),
{
    if remaining <= 0 {
        return None;
    }
    let expiry: i128 = (count_days(time) + 7) * 86_400;
    if expiry > i64::MAX as i128 {
        None
    } else {
        Some((5_000, expiry as i64))
    }
}

/// The operating rates after rebalancing: the former defaults give way to the new ones, and
/// rates that a player changed stay.
pub open spec fn rates_after(fare: i64, access: i64) -> (i64, i64) {
    if fare == 20 && access == 12 {
        (12i64, 35i64)
    } else {
        (fare, access)
    }
}

pub fn rebalanced_rates(fare: i64, access: i64) -> (result: (i64, i64))
    ensures
        result == rates_after(fare, access),
{
    if fare == 20 && access == 12 {
        (12, 35)
    } else {
        (fare, access)
    }
}

/// The fare rate that a Journey under way was sold at: its fare per kilometre of its path.
pub fn fare_rate_snapshot(fare_cents: i64, metres: i64) -> (result: Option<i64>)
    requires
        fare_cents >= 0,
    ensures
        result == (if metres > 0 && fits_i64(fare_cents * 1000 / (metres as int)) {
            Some((fare_cents * 1000 / (metres as int)) as i64)
        } else {
            None
        }),
{
    if metres <= 0 {
        return None;
    }
    let rate: i128 = fare_cents as i128 * 1000 / (metres as i128);
    if rate > i64::MAX as i128 {
        None
    } else {
        proof {
            assert(fare_cents * 1000 / (metres as int) >= 0) by (nonlinear_arith)
                requires
                    fare_cents >= 0,
                    metres > 0,
            ;
        }
        Some(rate as i64)
    }
}

/// The rate that an upgrade gives to a Journey under way: what it was sold at where that is a
/// positive rate, and the present rate, if there is one, otherwise.
pub open spec fn upgraded_rate(fare_cents: int, metres: int, current: Option<i64>) -> Option<i64> {
    let rate = fare_cents * 1000 / metres;
    if fare_cents >= 0 && metres > 0 && 0 < rate <= i64::MAX {
        Some(rate as i64)
    } else {
        current
    }
}

pub fn journey_fare_rate(fare_cents: i64, metres: i64, current: Option<i64>) -> (result: Option<
    i64,
>)
    ensures
        result == upgraded_rate(fare_cents as int, metres as int, current),
{
    if fare_cents < 0 {
        return current;
    }
    match fare_rate_snapshot(fare_cents, metres) {
        Some(rate) => {
            if rate > 0 {
                Some(rate)
            } else {
                current
            }
        },
        None => current,
    }
}

/// A Journey that was charged a rate over its path is charged the same fare at the rate that
/// an upgrade gives to it, whatever the present rate is.
pub proof fn upgraded_journeys_keep_their_fare(
    rate: int,
    metres: int,
    fare: Money,
    current: Option<i64>,
)
    requires
        rate > 0,
        metres > 0,
        charge(rate, metres) == Ok::<Money, CalculationError>(fare),
        fits_i64(fare.cents * 1000 / metres),
    ensures
        upgraded_rate(fare.cents as int, metres, current) == Some(
            (fare.cents * 1000 / metres) as i64,
        ),
        fare.cents * 1000 / metres >= rate,
        charge(fare.cents * 1000 / metres, metres) == Ok::<Money, CalculationError>(fare),
{
    let cents = fare.cents as int;
    let sold_at = cents * 1000 / metres;
    assert(rate * metres > 0) by (nonlinear_arith)
        requires
            rate > 0,
            metres > 0,
    ;
    assert(cents == (rate * metres + 999) / 1000);
    assert(rate * metres <= cents * 1000);
    assert(sold_at >= rate) by (nonlinear_arith)
        requires
            rate * metres <= cents * 1000,
            metres > 0,
            sold_at == cents * 1000 / metres,
    ;
    assert(rate * metres <= sold_at * metres <= cents * 1000) by (nonlinear_arith)
        requires
            rate <= sold_at,
            metres > 0,
            sold_at == cents * 1000 / metres,
    ;
    assert((sold_at * metres + 999) / 1000 == cents);
}

} // verus!
