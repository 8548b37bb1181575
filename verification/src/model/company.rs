//! The Player Company: its Fleet, its Passenger Services and its finances.

use vstd::prelude::*;

use super::identity::{EuropeanVehicleNumber, TrainModelId, TrainNickname, VehicleKeeperMark};
use super::ids::{JourneyId, RailLineId, RailStationId, ServiceId, TrainId};
use super::units::{
    MarketMaturity, Money, MoneyPerKilometre, PassengerArrivalRate, UtcSeconds,
};
use crate::text::same_text;

verus! {

#[derive(Clone, Copy, Debug, PartialEq, Eq, Structural)]
pub enum TrainStatus {
    Ready { at: RailStationId },
    Travelling { journey_id: JourneyId },
}

#[derive(Clone, Debug, PartialEq, Eq)]
pub struct Train {
    pub id: TrainId,
    pub evn: EuropeanVehicleNumber,
    pub nickname: Option<TrainNickname>,
    pub status: TrainStatus,
    pub model_id: TrainModelId,
    pub original_purchase_price: Money,
}

/// The next unit number that a model's vehicles will receive.
#[derive(Clone, Debug, PartialEq, Eq)]
pub struct ModelUnitSequence {
    pub model_id: TrainModelId,
    pub next_unit_number: u16,
}

/// The Passenger Service that a Train is assigned to.
#[derive(Clone, Copy, Debug, PartialEq, Eq, Structural)]
pub struct ServiceAssignment {
    pub train_id: TrainId,
    pub service_id: ServiceId,
}

#[derive(Clone, Debug, PartialEq, Eq)]
pub struct Fleet {
    pub trains: Vec<Train>,
    pub next_train_display_number: u64,
    pub next_evn_unit_by_model: Vec<ModelUnitSequence>,
    pub service_assignments: Vec<ServiceAssignment>,
}

impl Fleet {
    /// No Train is assigned twice, and no model has two unit sequences.
    pub open spec fn wf(self) -> bool {
        &&& forall|i: int, j: int|
            0 <= i < j < self.service_assignments@.len() ==> (
            #[trigger] self.service_assignments@[i]).train_id != (
            #[trigger] self.service_assignments@[j]).train_id
        &&& forall|i: int, j: int|
            0 <= i < j < self.next_evn_unit_by_model@.len() ==> (
            #[trigger] self.next_evn_unit_by_model@[i]).model_id.name@ != (
            #[trigger] self.next_evn_unit_by_model@[j]).model_id.name@
    }

    fn assigns_each_train_once(&self) -> (result: bool)
        ensures
            result == forall|i: int, j: int|
                0 <= i < j < self.service_assignments@.len() ==> (
                #[trigger] self.service_assignments@[i]).train_id != (
                #[trigger] self.service_assignments@[j]).train_id,
    {
        let assignments = &self.service_assignments;
        let mut j: usize = 0;
        while j < assignments.len()
            invariant
                j <= assignments@.len(),
                assignments == self.service_assignments,
                forall|a: int, b: int|
                    0 <= a < b < j ==> (#[trigger] assignments@[a]).train_id != (
                    #[trigger] assignments@[b]).train_id,
            decreases assignments.len() - j,
        {
            let mut i: usize = 0;
            while i < j
                invariant
                    i <= j < assignments@.len(),
                    assignments == self.service_assignments,
                    forall|a: int|
                        0 <= a < i ==> (#[trigger] assignments@[a]).train_id
                            != assignments@[j as int].train_id,
                decreases j - i,
            {
                if assignments[i].train_id == assignments[j].train_id {
                    assert(self.service_assignments@[i as int].train_id
                        == self.service_assignments@[j as int].train_id);
                    return false;
                }
                i += 1;
            }
            j += 1;
        }
        true
    }

    fn lists_each_model_once(&self) -> (result: bool)
        ensures
            result == forall|i: int, j: int|
                0 <= i < j < self.next_evn_unit_by_model@.len() ==> (
                #[trigger] self.next_evn_unit_by_model@[i]).model_id.name@ != (
                #[trigger] self.next_evn_unit_by_model@[j]).model_id.name@,
    {
        let sequences = &self.next_evn_unit_by_model;
        let mut j: usize = 0;
        while j < sequences.len()
            invariant
                j <= sequences@.len(),
                sequences == self.next_evn_unit_by_model,
                forall|a: int, b: int|
                    0 <= a < b < j ==> (#[trigger] sequences@[a]).model_id.name@ != (
                    #[trigger] sequences@[b]).model_id.name@,
            decreases sequences.len() - j,
        {
            let mut i: usize = 0;
            while i < j
                invariant
                    i <= j < sequences@.len(),
                    sequences == self.next_evn_unit_by_model,
                    forall|a: int|
                        0 <= a < i ==> (#[trigger] sequences@[a]).model_id.name@
                            != sequences@[j as int].model_id.name@,
                decreases j - i,
            {
                if same_text(sequences[i].model_id.as_str(), sequences[j].model_id.as_str()) {
                    assert(self.next_evn_unit_by_model@[i as int].model_id.name@
                        == self.next_evn_unit_by_model@[j as int].model_id.name@);
                    return false;
                }
                i += 1;
            }
            j += 1;
        }
        true
    }

    pub fn is_well_formed(&self) -> (result: bool)
        ensures
            result == self.wf(),
    {
        self.assigns_each_train_once() && self.lists_each_model_once()
    }

    /// The Passenger Service that a Train is assigned to.
    pub open spec fn assigned(self, train_id: TrainId) -> Option<ServiceId> {
        assignment_of(self.service_assignments@, train_id)
    }

    pub fn assigned_service_id(&self, train_id: TrainId) -> (result: Option<ServiceId>)
        ensures
            result == self.assigned(train_id),
    {
        let mut i: usize = self.service_assignments.len();
        assert(self.service_assignments@.take(i as int) =~= self.service_assignments@);
        while i > 0
            invariant
                i <= self.service_assignments@.len(),
                assignment_of(self.service_assignments@, train_id) == assignment_of(
                    self.service_assignments@.take(i as int),
                    train_id,
                ),
            decreases i,
        {
            i -= 1;
            let ghost shorter = self.service_assignments@.take(i as int);
            assert(self.service_assignments@.take(i + 1).drop_last() =~= shorter);
            if self.service_assignments[i].train_id == train_id {
                return Some(self.service_assignments[i].service_id);
            }
        }
        None
    }
}

/// The Service of the last assignment of a Train. In a well-formed Fleet it has at most one.
pub open spec fn assignment_of(assignments: Seq<ServiceAssignment>, train_id: TrainId) -> Option<
    ServiceId,
>
    decreases assignments.len(),
{
    if assignments.len() == 0 {
        None
    } else if assignments.last().train_id == train_id {
        Some(assignments.last().service_id)
    } else {
        assignment_of(assignments.drop_last(), train_id)
    }
}

#[derive(Clone, Copy, Debug, PartialEq, Eq, Structural)]
pub enum ServiceDirectionMode {
    BothDirections,
    ForwardOnly,
}

#[derive(Clone, Debug, PartialEq, Eq)]
pub struct PassengerService {
    pub id: ServiceId,
    pub name: String,
    pub custom_name: Option<String>,
    pub direction_mode: ServiceDirectionMode,
    pub forward_train_number: u32,
    pub reverse_train_number: Option<u32>,
    pub stop_station_ids: Vec<RailStationId>,
    pub rail_line_ids: Vec<RailLineId>,
}

impl PassengerService {
    /// The longest commercial name.
    pub const MAX_CUSTOM_NAME_CHARACTERS: usize = 32;

    pub open spec fn origin(self) -> Option<RailStationId> {
        if self.stop_station_ids@.len() > 0 {
            Some(self.stop_station_ids@[0])
        } else {
            None
        }
    }

    pub open spec fn destination(self) -> Option<RailStationId> {
        if self.stop_station_ids@.len() > 0 {
            Some(self.stop_station_ids@.last())
        } else {
            None
        }
    }

    /// The first stop.
    pub fn origin_station_id(&self) -> (result: Option<RailStationId>)
        ensures
            result == self.origin(),
    {
        if self.stop_station_ids.len() > 0 {
            Some(self.stop_station_ids[0])
        } else {
            None
        }
    }

    /// The last stop.
    pub fn destination_station_id(&self) -> (result: Option<RailStationId>)
        ensures
            result == self.destination(),
    {
        if self.stop_station_ids.len() > 0 {
            Some(self.stop_station_ids[self.stop_station_ids.len() - 1])
        } else {
            None
        }
    }

    /// Whether Journeys of the Service may depart from a Rail Station: from the first
    /// stop, and in both-direction Services from the last.
    pub open spec fn departs_from(self, station: RailStationId) -> bool {
        ||| self.origin() == Some(station)
        ||| self.direction_mode is BothDirections && self.destination() == Some(station)
    }

    pub fn accepts_departure_station(&self, station: RailStationId) -> (result: bool)
        ensures
            result == self.departs_from(station),
    {
        let at_origin = match self.origin_station_id() {
            Some(id) => id == station,
            None => false,
        };
        let at_destination = match self.destination_station_id() {
            Some(id) => id == station,
            None => false,
        };
        at_origin || (matches!(self.direction_mode, ServiceDirectionMode::BothDirections)
            && at_destination)
    }
}

#[derive(Clone, Debug, PartialEq, Eq)]
pub struct PlayerCompany {
    pub name: String,
    pub vehicle_keeper_mark: VehicleKeeperMark,
    pub funds: Money,
    pub fleet: Fleet,
    pub passenger_services: Vec<PassengerService>,
}

/// Waiting Passengers of one direction between two Rail Stations.
#[derive(Clone, Copy, Debug, PartialEq, Eq, Structural)]
pub struct OriginDestinationDemand {
    pub origin_station_id: RailStationId,
    pub destination_station_id: RailStationId,
    pub waiting_passengers: u32,
    pub market_maturity: MarketMaturity,
    pub passenger_arrival_rate_per_hour: PassengerArrivalRate,
    pub fractional_passenger_seconds: u64,
}

#[derive(Clone, Copy, Debug, PartialEq, Eq, Structural)]
pub enum JourneyPurpose {
    RevenueService,
    Positioning,
}

/// Passengers on board with a common origin and destination.
#[derive(Clone, Copy, Debug, PartialEq, Eq, Structural)]
pub struct JourneyPassengerGroup {
    pub origin_station_id: RailStationId,
    pub destination_station_id: RailStationId,
    pub passengers: u32,
    pub fare: Money,
}

#[derive(Clone, Debug, PartialEq, Eq)]
pub struct Journey {
    pub id: JourneyId,
    pub purpose: JourneyPurpose,
    pub service_id: ServiceId,
    pub train_id: TrainId,
    pub origin_station_id: RailStationId,
    pub destination_station_id: RailStationId,
    pub passengers_carried: u32,
    pub fare_rate: MoneyPerKilometre,
    pub fare: Money,
    pub operating_revenue: Money,
    pub credited_revenue: Money,
    pub infrastructure_access_fee: Money,
    pub fuel_cost: Money,
    pub current_stop_index: usize,
    pub passenger_groups: Vec<JourneyPassengerGroup>,
    pub started_at: Option<UtcSeconds>,
    pub departed_at: UtcSeconds,
    pub arrives_at: UtcSeconds,
}

/// The passengers of the first `count` groups.
pub open spec fn group_passengers(groups: Seq<JourneyPassengerGroup>, count: int) -> int
    decreases count,
{
    if count <= 0 {
        0
    } else {
        group_passengers(groups, count - 1) + groups[count - 1].passengers
    }
}

pub open spec fn at_most_u32(value: int) -> int {
    if value <= u32::MAX {
        value
    } else {
        u32::MAX as int
    }
}

impl Journey {
    pub open spec fn onboard(self) -> int {
        at_most_u32(group_passengers(self.passenger_groups@, self.passenger_groups@.len() as int))
    }

    /// The passengers on board, up to the largest count the unit holds.
    pub fn onboard_passengers(&self) -> (result: u32)
        ensures
            result == self.onboard(),
    {
        let mut total: u32 = 0;
        let mut i: usize = 0;
        while i < self.passenger_groups.len()
            invariant
                i <= self.passenger_groups@.len(),
                total == at_most_u32(group_passengers(self.passenger_groups@, i as int)),
                group_passengers(self.passenger_groups@, i as int) >= 0,
            decreases self.passenger_groups.len() - i,
        {
            total = total.saturating_add(self.passenger_groups[i].passengers);
            i += 1;
        }
        total
    }
}

/// The settled account of a finished Journey. Receipts of early saves carry no
/// operating context.
#[derive(Clone, Debug, PartialEq, Eq)]
pub struct JourneyReceipt {
    pub journey_id: JourneyId,
    pub revenue: Money,
    pub infrastructure_access_fee: Money,
    pub fuel_cost: Money,
    pub train_id: Option<TrainId>,
    pub train_model_name: Option<String>,
    pub origin_station_id: Option<RailStationId>,
    pub destination_station_id: Option<RailStationId>,
    pub passengers_carried: Option<u32>,
    pub passenger_capacity: Option<u32>,
    pub completed_at: Option<UtcSeconds>,
    pub service_id: Option<ServiceId>,
    pub service_code: Option<String>,
    pub purpose: Option<JourneyPurpose>,
    pub departed_at: Option<UtcSeconds>,
}

#[derive(Clone, Debug, PartialEq, Eq)]
pub struct Financials {
    pub operating_revenue: Money,
    pub infrastructure_access_fees: Money,
    pub fuel_costs: Money,
    pub recent_journey_receipts: Vec<JourneyReceipt>,
}

pub open spec fn has_train(trains: Seq<Train>, id: TrainId) -> bool {
    exists|i: int| 0 <= i < trains.len() && (#[trigger] trains[i]).id == id
}

/// Whether `i` is the first position with an identity.
pub open spec fn is_train_at(trains: Seq<Train>, i: int, id: TrainId) -> bool {
    &&& 0 <= i < trains.len()
    &&& trains[i].id == id
    &&& forall|j: int| 0 <= j < i ==> (#[trigger] trains[j]).id != id
}

/// The first Train with an identity, where there is one.
pub open spec fn the_train(trains: Seq<Train>, id: TrainId) -> Train {
    trains[choose|i: int| is_train_at(trains, i, id)]
}

pub fn find_train(trains: &Vec<Train>, id: TrainId) -> (result: Option<&Train>)
    ensures
        match result {
            Some(train) => has_train(trains@, id) && *train == the_train(trains@, id)
                && train.id == id,
            None => !has_train(trains@, id),
        },
{
    let mut i: usize = 0;
    while i < trains.len()
        invariant
            i <= trains.len(),
            forall|j: int| 0 <= j < i ==> (#[trigger] trains@[j]).id != id,
        decreases trains.len() - i,
    {
        if trains[i].id == id {
            proof {
                assert(is_train_at(trains@, i as int, id));
                let c = choose|c: int| is_train_at(trains@, c, id);
                if c < i {
                    assert(trains@[c].id != id);
                }
                if i < c {
                    assert(trains@[i as int].id != id);
                }
            }
            return Some(&trains[i]);
        }
        i += 1;
    }
    None
}

pub open spec fn has_service(services: Seq<PassengerService>, id: ServiceId) -> bool {
    exists|i: int| 0 <= i < services.len() && (#[trigger] services[i]).id == id
}

/// Whether `i` is the first position with an identity.
pub open spec fn is_service_at(services: Seq<PassengerService>, i: int, id: ServiceId) -> bool {
    &&& 0 <= i < services.len()
    &&& services[i].id == id
    &&& forall|j: int| 0 <= j < i ==> (#[trigger] services[j]).id != id
}

/// The first Passenger Service with an identity, where there is one.
pub open spec fn the_service(services: Seq<PassengerService>, id: ServiceId) -> PassengerService {
    services[choose|i: int| is_service_at(services, i, id)]
}

pub fn find_service(services: &Vec<PassengerService>, id: ServiceId) -> (result: Option<&PassengerService>)
    ensures
        match result {
            Some(service) => has_service(services@, id) && *service == the_service(services@, id)
                && service.id == id,
            None => !has_service(services@, id),
        },
{
    let mut i: usize = 0;
    while i < services.len()
        invariant
            i <= services.len(),
            forall|j: int| 0 <= j < i ==> (#[trigger] services@[j]).id != id,
        decreases services.len() - i,
    {
        if services[i].id == id {
            proof {
                assert(is_service_at(services@, i as int, id));
                let c = choose|c: int| is_service_at(services@, c, id);
                if c < i {
                    assert(services@[c].id != id);
                }
                if i < c {
                    assert(services@[i as int].id != id);
                }
            }
            return Some(&services[i]);
        }
        i += 1;
    }
    None
}

pub open spec fn has_journey(journeys: Seq<Journey>, id: JourneyId) -> bool {
    exists|i: int| 0 <= i < journeys.len() && (#[trigger] journeys[i]).id == id
}

/// Whether `i` is the first position with an identity.
pub open spec fn is_journey_at(journeys: Seq<Journey>, i: int, id: JourneyId) -> bool {
    &&& 0 <= i < journeys.len()
    &&& journeys[i].id == id
    &&& forall|j: int| 0 <= j < i ==> (#[trigger] journeys[j]).id != id
}

/// The first Journey with an identity, where there is one.
pub open spec fn the_journey(journeys: Seq<Journey>, id: JourneyId) -> Journey {
    journeys[choose|i: int| is_journey_at(journeys, i, id)]
}

pub fn find_journey(journeys: &Vec<Journey>, id: JourneyId) -> (result: Option<&Journey>)
    ensures
        match result {
            Some(journey) => has_journey(journeys@, id) && *journey == the_journey(journeys@, id)
                && journey.id == id,
            None => !has_journey(journeys@, id),
        },
{
    let mut i: usize = 0;
    while i < journeys.len()
        invariant
            i <= journeys.len(),
            forall|j: int| 0 <= j < i ==> (#[trigger] journeys@[j]).id != id,
        decreases journeys.len() - i,
    {
        if journeys[i].id == id {
            proof {
                assert(is_journey_at(journeys@, i as int, id));
                let c = choose|c: int| is_journey_at(journeys@, c, id);
                if c < i {
                    assert(journeys@[c].id != id);
                }
                if i < c {
                    assert(journeys@[i as int].id != id);
                }
            }
            return Some(&journeys[i]);
        }
        i += 1;
    }
    None
}

} // verus!
