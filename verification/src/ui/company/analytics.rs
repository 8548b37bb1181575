//! What the latest Journeys earned and what the present ones still owe.

use vstd::prelude::*;

use crate::model::company::{Journey, JourneyReceipt};
use crate::model::state::GameState;

verus! {

/// How many of the latest Journeys the dashboard looks back on.
pub const RECENT_JOURNEY_WINDOW: usize = 12;

pub open spec fn receipt_costs(receipt: JourneyReceipt) -> int {
    receipt.infrastructure_access_fee.cents + receipt.fuel_cost.cents
}

pub open spec fn receipt_result(receipt: JourneyReceipt) -> int {
    receipt.revenue.cents - receipt_costs(receipt)
}

/// The latest receipts.
pub open spec fn recent(receipts: Seq<JourneyReceipt>) -> Seq<JourneyReceipt> {
    if receipts.len() <= RECENT_JOURNEY_WINDOW {
        receipts
    } else {
        receipts.skip(receipts.len() - RECENT_JOURNEY_WINDOW)
    }
}

pub open spec fn total_revenue(receipts: Seq<JourneyReceipt>) -> int
    decreases receipts.len(),
{
    if receipts.len() == 0 {
        0
    } else {
        receipts[0].revenue.cents + total_revenue(receipts.skip(1))
    }
}

pub open spec fn total_costs(receipts: Seq<JourneyReceipt>) -> int
    decreases receipts.len(),
{
    if receipts.len() == 0 {
        0
    } else {
        receipt_costs(receipts[0]) + total_costs(receipts.skip(1))
    }
}

/// How many receipts show a profit.
pub open spec fn profitable(receipts: Seq<JourneyReceipt>) -> int
    decreases receipts.len(),
{
    if receipts.len() == 0 {
        0
    } else {
        profitable(receipts.skip(1)) + if receipt_result(receipts[0]) > 0 {
            1int
        } else {
            0
        }
    }
}

/// How many receipts show a loss.
pub open spec fn loss_making(receipts: Seq<JourneyReceipt>) -> int
    decreases receipts.len(),
{
    if receipts.len() == 0 {
        0
    } else {
        loss_making(receipts.skip(1)) + if receipt_result(receipts[0]) < 0 {
            1int
        } else {
            0
        }
    }
}

/// The passengers of all receipts, known only where every receipt tells its own.
pub open spec fn total_passengers(receipts: Seq<JourneyReceipt>) -> Option<int>
    decreases receipts.len(),
{
    if receipts.len() == 0 {
        Some(0)
    } else {
        match (receipts[0].passengers_carried, total_passengers(receipts.skip(1))) {
            (Some(passengers), Some(total)) => Some(passengers + total),
            _ => None,
        }
    }
}

/// The latest Journeys in figures.
#[derive(Clone, Copy, Debug, PartialEq, Eq, Structural)]
pub struct RecentJourneyPerformance {
    pub journey_count: usize,
    pub revenue_cents: i128,
    pub operating_costs_cents: i128,
    pub result_cents: i128,
    pub profitable_journeys: usize,
    pub loss_making_journeys: usize,
    pub passengers_carried: Option<u64>,
}

impl RecentJourneyPerformance {
    /// Whether these are the figures of receipts.
    pub open spec fn sums(self, receipts: Seq<JourneyReceipt>) -> bool {
        &&& self.journey_count == receipts.len()
        &&& self.revenue_cents == total_revenue(receipts)
        &&& self.operating_costs_cents == total_costs(receipts)
        &&& self.result_cents == total_revenue(receipts) - total_costs(receipts)
        &&& self.profitable_journeys == profitable(receipts)
        &&& self.loss_making_journeys == loss_making(receipts)
        &&& match self.passengers_carried {
            Some(passengers) => total_passengers(receipts) == Some(passengers as int),
            None => total_passengers(receipts) is None,
        }
    }

    pub fn from_state(state: &GameState) -> (result: Self)
        ensures
            result.sums(recent(state.financials.recent_journey_receipts@)),
    {
        Self::from_receipts(&state.financials.recent_journey_receipts)
    }

    /// The figures of the latest receipts.
    pub fn from_receipts(receipts: &Vec<JourneyReceipt>) -> (result: Self)
        ensures
            result.sums(recent(receipts@)),
    {
        let mut performance = RecentJourneyPerformance {
            journey_count: 0,
            revenue_cents: 0,
            operating_costs_cents: 0,
            result_cents: 0,
            profitable_journeys: 0,
            loss_making_journeys: 0,
            passengers_carried: Some(0),
        };
        let length: usize = receipts.len();
        let mut i: usize = length;
        assert(receipts@.skip(i as int) =~= Seq::<JourneyReceipt>::empty());
        while i > 0 && length - i < RECENT_JOURNEY_WINDOW
            invariant
                i <= length,
                length == receipts@.len(),
                length - i <= RECENT_JOURNEY_WINDOW,
                performance.sums(receipts@.skip(i as int)),
                performance.journey_count <= 12,
                performance.profitable_journeys <= 12,
                performance.loss_making_journeys <= 12,
                -0x1_0000_0000_0000_0000 * performance.journey_count <= performance.revenue_cents
                    <= 0x1_0000_0000_0000_0000 * performance.journey_count,
                -0x1_0000_0000_0000_0000 * performance.journey_count
                    <= performance.operating_costs_cents <= 0x1_0000_0000_0000_0000
                    * performance.journey_count,
                performance.profitable_journeys <= performance.journey_count,
                performance.loss_making_journeys <= performance.journey_count,
                performance.passengers_carried matches Some(total) ==> total <= 0x1_0000_0000
                    * performance.journey_count,
            decreases i,
        {
            let receipt = &receipts[i - 1];
            proof {
                let rest = receipts@.skip(i - 1);
                assert(rest[0] == *receipt);
                assert(rest.skip(1) =~= receipts@.skip(i as int));
            }
            let revenue: i128 = receipt.revenue.cents as i128;
            let costs: i128 = receipt.infrastructure_access_fee.cents as i128
                + receipt.fuel_cost.cents as i128;
            let result: i128 = revenue - costs;
            performance.journey_count = performance.journey_count + 1;
            performance.revenue_cents = performance.revenue_cents + revenue;
            performance.operating_costs_cents = performance.operating_costs_cents + costs;
            performance.result_cents = performance.result_cents + result;
            if result > 0 {
                performance.profitable_journeys = performance.profitable_journeys + 1;
            } else if result < 0 {
                performance.loss_making_journeys = performance.loss_making_journeys + 1;
            }
            performance.passengers_carried = match (
                performance.passengers_carried,
                receipt.passengers_carried,
            ) {
                (Some(total), Some(passengers)) => Some(total + passengers as u64),
                _ => None,
            };
            i = i - 1;
        }
        assert(receipts@.skip(0) =~= receipts@);
        performance
    }
}

proof fn lemma_outcomes(receipts: Seq<JourneyReceipt>)
    ensures
        0 <= profitable(receipts),
        0 <= loss_making(receipts),
        profitable(receipts) + loss_making(receipts) <= receipts.len(),
    decreases receipts.len(),
{
    if receipts.len() > 0 {
        lemma_outcomes(receipts.skip(1));
    }
}

/// Profits and losses are told apart: what is neither broke even.
pub proof fn every_journey_has_one_outcome(receipts: Seq<JourneyReceipt>)
    ensures
        0 <= profitable(recent(receipts)),
        0 <= loss_making(recent(receipts)),
        profitable(recent(receipts)) + loss_making(recent(receipts)) <= recent(receipts).len()
            <= RECENT_JOURNEY_WINDOW,
{
    lemma_outcomes(recent(receipts));
}

/// A single receipt without passengers leaves the total unknown.
pub proof fn unknown_passengers_stay_unknown(receipts: Seq<JourneyReceipt>, i: int)
    requires
        0 <= i < receipts.len(),
        receipts[i].passengers_carried is None,
    ensures
        total_passengers(receipts) is None,
    decreases receipts.len(),
{
    if i > 0 {
        assert(receipts.skip(1)[i - 1] == receipts[i]);
        unknown_passengers_stay_unknown(receipts.skip(1), i - 1);
    }
}

/// Booked revenue that the first `count` Journeys were not credited for yet.
pub open spec fn uncredited(journeys: Seq<Journey>, count: int) -> int
    decreases count,
{
    if count <= 0 {
        0
    } else {
        uncredited(journeys, count - 1) + journeys[count - 1].operating_revenue.cents
            - journeys[count - 1].credited_revenue.cents
    }
}

/// The passengers on board of the first `count` Journeys.
pub open spec fn on_board(journeys: Seq<Journey>, count: int) -> int
    decreases count,
{
    if count <= 0 {
        0
    } else {
        on_board(journeys, count - 1) + journeys[count - 1].onboard()
    }
}

/// Journeys under way in figures.
#[derive(Clone, Copy, Debug, PartialEq, Eq, Structural)]
pub struct ActiveJourneyExposure {
    pub journey_count: usize,
    pub onboard_passengers: u64,
    pub revenue_in_transit_cents: i128,
}

impl ActiveJourneyExposure {
    /// Whether these are the figures of Journeys.
    pub open spec fn sums(self, journeys: Seq<Journey>) -> bool {
        &&& self.journey_count == journeys.len()
        &&& self.onboard_passengers == (if on_board(journeys, journeys.len() as int) <= u64::MAX {
            on_board(journeys, journeys.len() as int)
        } else {
            u64::MAX as int
        })
        &&& self.revenue_in_transit_cents == uncredited(journeys, journeys.len() as int)
    }

    pub fn from_state(state: &GameState) -> (result: Self)
        requires
            state.active_journeys@.len() <= 0x4000_0000_0000_0000,
        ensures
            result.sums(state.active_journeys@),
    {
        let journeys = &state.active_journeys;
        let mut passengers: u64 = 0;
        let mut revenue: i128 = 0;
        let mut i: usize = 0;
        while i < journeys.len()
            invariant
                i <= journeys@.len(),
                journeys@.len() <= 0x4000_0000_0000_0000,
                on_board(journeys@, i as int) >= 0,
                passengers == (if on_board(journeys@, i as int) <= u64::MAX {
                    on_board(journeys@, i as int)
                } else {
                    u64::MAX as int
                }),
                revenue == uncredited(journeys@, i as int),
                -0x1_0000_0000_0000_0000 * i <= revenue <= 0x1_0000_0000_0000_0000 * i,
            decreases journeys.len() - i,
        {
            let booked: i128 = journeys[i].operating_revenue.cents as i128;
            let credited: i128 = journeys[i].credited_revenue.cents as i128;
            passengers = passengers.saturating_add(journeys[i].onboard_passengers() as u64);
            revenue = revenue + (booked - credited);
            i += 1;
        }
        ActiveJourneyExposure {
            journey_count: journeys.len(),
            onboard_passengers: passengers,
            revenue_in_transit_cents: revenue,
        }
    }
}

} // verus!
