//! Tables of the Player Company: unit sequences, Trains, Passenger Services and assignments.

use vstd::prelude::*;

use crate::model::company::{
    ModelUnitSequence, PassengerService, ServiceAssignment, ServiceDirectionMode, Train,
    TrainStatus,
};
use crate::model::identity::{
    is_vehicle_number, EuropeanVehicleNumber, TrainModelId, TrainNickname,
};
use crate::model::ids::{
    spells, uuid_of_text, JourneyId, RailLineId, RailStationId, ServiceId, TrainId,
};
use crate::model::units::Money;
use crate::storage::codec::{
    failed_row, first_fault, fits_u32, refused, row_fault, row_u32, store_position, stored_position,
    undecoded, unloaded, value_fault, LoadError, RowError, SaveCodecError, DECODE_ROW,
};
use crate::text::{lemma_trimmed, same_text, trimmed};

verus! {

/// A row of `train_model_sequences`.
#[derive(Clone, Debug, PartialEq, Eq)]
pub struct UnitRow {
    pub model_id: String,
    pub next_unit_number: i64,
}

pub open spec fn unit_written(row: UnitRow, index: int, sequence: ModelUnitSequence) -> bool {
    unit_read(row, sequence)
}

pub open spec fn unit_fault(row: UnitRow) -> Option<&'static str> {
    if !(0 <= row.next_unit_number <= u16::MAX) {
        Some("next EVN unit number")
    } else {
        None
    }
}

pub open spec fn unit_read(row: UnitRow, sequence: ModelUnitSequence) -> bool {
    &&& row.model_id@ == sequence.model_id.name@
    &&& row.next_unit_number == sequence.next_unit_number
}

pub open spec fn same_unit(first: ModelUnitSequence, second: ModelUnitSequence) -> bool {
    &&& first.model_id.name@ == second.model_id.name@
    &&& first.next_unit_number == second.next_unit_number
}

pub fn write_unit(index: usize, sequence: &ModelUnitSequence) -> (row: UnitRow)
    ensures
        unit_written(row, index as int, *sequence),
{
    UnitRow {
        model_id: sequence.model_id.name.clone(),
        next_unit_number: sequence.next_unit_number as i64,
    }
}

pub fn read_unit(row: &UnitRow) -> (result: Result<ModelUnitSequence, RowError>)
    ensures
        undecoded(result, unit_fault(*row)),
        result matches Ok(sequence) ==> unit_read(*row, sequence),
{
    if row.next_unit_number < 0 || row.next_unit_number > u16::MAX as i64 {
        return Err(RowError { field: "next EVN unit number" });
    }
    Ok(
        ModelUnitSequence {
            model_id: TrainModelId { name: row.model_id.clone() },
            next_unit_number: row.next_unit_number as u16,
        },
    )
}

/// A written unit sequence reads back as itself.
pub proof fn unit_round_trip(row: UnitRow, index: int, sequence: ModelUnitSequence)
    requires
        unit_written(row, index, sequence),
    ensures
        unit_fault(row) is None,
        forall|other: ModelUnitSequence| #[trigger]
            unit_read(row, other) ==> same_unit(sequence, other),
{
}

/// A row of `trains`.
#[derive(Clone, Debug, PartialEq, Eq)]
pub struct TrainRow {
    pub id: String,
    pub sequence: i64,
    pub evn: String,
    pub nickname: Option<String>,
    pub status_kind: String,
    pub status_ref_id: String,
    pub model_id: String,
    pub original_purchase_price_cents: i64,
}

/// A Train whose vehicle number and nickname are well formed.
pub open spec fn train_wf(train: Train) -> bool {
    &&& train.evn.wf()
    &&& train.nickname is Some ==> train.nickname->0.wf()
}

pub open spec fn status_written(kind: Seq<char>, reference: Seq<char>, status: TrainStatus) -> bool {
    match status {
        TrainStatus::Ready { at } => kind == "ready"@ && spells(reference, at.value),
        TrainStatus::Travelling { journey_id } => kind == "travelling"@ && spells(
            reference,
            journey_id.value,
        ),
    }
}

pub open spec fn status_read(kind: Seq<char>, reference: Seq<char>, status: TrainStatus) -> bool {
    match status {
        TrainStatus::Ready { at } => kind == "ready"@ && uuid_of_text(reference) == Some(at.value),
        TrainStatus::Travelling { journey_id } => kind == "travelling"@ && uuid_of_text(reference)
            == Some(journey_id.value),
    }
}

pub open spec fn train_written(row: TrainRow, index: int, train: Train) -> bool {
    &&& spells(row.id@, train.id.value)
    &&& row.sequence == stored_position(index)
    &&& row.evn@ == train.evn.digits@
    &&& match (row.nickname, train.nickname) {
        (Some(text), Some(nickname)) => text@ == nickname.name@,
        (None, None) => true,
        _ => false,
    }
    &&& status_written(row.status_kind@, row.status_ref_id@, train.status)
    &&& row.model_id@ == train.model_id.name@
    &&& row.original_purchase_price_cents == train.original_purchase_price.cents
}

pub open spec fn train_fault(row: TrainRow) -> Option<&'static str> {
    if !is_vehicle_number(row.evn@) {
        Some("European Vehicle Number")
    } else if row.nickname is Some && !(1 <= trimmed(row.nickname->0@).len() <= 32) {
        Some("Train nickname")
    } else if (row.status_kind@ != "ready"@ && row.status_kind@ != "travelling"@) || uuid_of_text(
        row.status_ref_id@,
    ) is None {
        Some("Train status")
    } else if uuid_of_text(row.id@) is None {
        Some("Train ID")
    } else {
        None
    }
}

pub open spec fn train_read(row: TrainRow, train: Train) -> bool {
    &&& uuid_of_text(row.id@) == Some(train.id.value)
    &&& row.evn@ == train.evn.digits@
    &&& match (row.nickname, train.nickname) {
        (Some(text), Some(nickname)) => trimmed(text@) == nickname.name@,
        (None, None) => true,
        _ => false,
    }
    &&& status_read(row.status_kind@, row.status_ref_id@, train.status)
    &&& row.model_id@ == train.model_id.name@
    &&& row.original_purchase_price_cents == train.original_purchase_price.cents
}

pub open spec fn same_train(first: Train, second: Train) -> bool {
    &&& first.id == second.id
    &&& first.evn.digits@ == second.evn.digits@
    &&& match (first.nickname, second.nickname) {
        (Some(a), Some(b)) => a.name@ == b.name@,
        (None, None) => true,
        _ => false,
    }
    &&& first.status == second.status
    &&& first.model_id.name@ == second.model_id.name@
    &&& first.original_purchase_price == second.original_purchase_price
}

pub fn write_train(index: usize, train: &Train) -> (row: TrainRow)
    ensures
        train_written(row, index as int, *train),
{
    let nickname = match &train.nickname {
        Some(nickname) => Some(nickname.name.clone()),
        None => None,
    };
    let (status_kind, status_ref_id) = match train.status {
        TrainStatus::Ready { at } => ("ready", at.text()),
        TrainStatus::Travelling { journey_id } => ("travelling", journey_id.text()),
    };
    TrainRow {
        id: train.id.text(),
        sequence: store_position(index),
        evn: train.evn.digits.clone(),
        nickname,
        status_kind: status_kind.to_owned(),
        status_ref_id,
        model_id: train.model_id.name.clone(),
        original_purchase_price_cents: train.original_purchase_price.cents,
    }
}

pub fn read_train(row: &TrainRow) -> (result: Result<Train, RowError>)
    ensures
        undecoded(result, train_fault(*row)),
        result matches Ok(train) ==> train_read(*row, train),
{
    let evn = match EuropeanVehicleNumber::parse(row.evn.as_str()) {
        Ok(evn) => evn,
        Err(_) => return Err(RowError { field: "European Vehicle Number" }),
    };
    let nickname = match &row.nickname {
        Some(text) => match TrainNickname::parse(text.as_str()) {
            Ok(nickname) => Some(nickname),
            Err(_) => return Err(RowError { field: "Train nickname" }),
        },
        None => None,
    };
    let status = if same_text(row.status_kind.as_str(), "ready") {
        match RailStationId::parse(row.status_ref_id.as_str()) {
            Some(at) => TrainStatus::Ready { at },
            None => return Err(RowError { field: "Train status" }),
        }
    } else if same_text(row.status_kind.as_str(), "travelling") {
        match JourneyId::parse(row.status_ref_id.as_str()) {
            Some(journey_id) => TrainStatus::Travelling { journey_id },
            None => return Err(RowError { field: "Train status" }),
        }
    } else {
        return Err(RowError { field: "Train status" });
    };
    let id = match TrainId::parse(row.id.as_str()) {
        Some(id) => id,
        None => return Err(RowError { field: "Train ID" }),
    };
    Ok(
        Train {
            id,
            evn,
            nickname,
            status,
            model_id: TrainModelId { name: row.model_id.clone() },
            original_purchase_price: Money { cents: row.original_purchase_price_cents },
        },
    )
}

/// A written Train reads back as itself.
pub proof fn train_round_trip(row: TrainRow, index: int, train: Train)
    requires
        train_written(row, index, train),
        train_wf(train),
    ensures
        train_fault(row) is None,
        forall|other: Train| #[trigger] train_read(row, other) ==> same_train(train, other),
{
    reveal_strlit("ready");
    reveal_strlit("travelling");
    assert("ready"@.len() == 5 && "travelling"@.len() == 10);
    if row.nickname is Some {
        lemma_trimmed(row.nickname->0@);
    }
}

/// A row of `train_service_assignments`.
#[derive(Clone, Debug, PartialEq, Eq)]
pub struct AssignmentRow {
    pub train_id: String,
    pub service_id: String,
}

pub open spec fn assignment_written(
    row: AssignmentRow,
    index: int,
    assignment: ServiceAssignment,
) -> bool {
    spells(row.train_id@, assignment.train_id.value) && spells(
        row.service_id@,
        assignment.service_id.value,
    )
}

pub open spec fn assignment_fault(row: AssignmentRow) -> Option<&'static str> {
    if uuid_of_text(row.train_id@) is None {
        Some("Train ID")
    } else if uuid_of_text(row.service_id@) is None {
        Some("Passenger Service ID")
    } else {
        None
    }
}

pub open spec fn assignment_read(row: AssignmentRow, assignment: ServiceAssignment) -> bool {
    uuid_of_text(row.train_id@) == Some(assignment.train_id.value) && uuid_of_text(row.service_id@)
        == Some(assignment.service_id.value)
}

pub open spec fn same_assignment(first: ServiceAssignment, second: ServiceAssignment) -> bool {
    first == second
}

pub fn write_assignment(index: usize, assignment: &ServiceAssignment) -> (row: AssignmentRow)
    ensures
        assignment_written(row, index as int, *assignment),
{
    AssignmentRow {
        train_id: assignment.train_id.text(),
        service_id: assignment.service_id.text(),
    }
}

pub fn read_assignment(row: &AssignmentRow) -> (result: Result<ServiceAssignment, RowError>)
    ensures
        undecoded(result, assignment_fault(*row)),
        result matches Ok(assignment) ==> assignment_read(*row, assignment),
{
    let train_id = match TrainId::parse(row.train_id.as_str()) {
        Some(id) => id,
        None => return Err(RowError { field: "Train ID" }),
    };
    let service_id = match ServiceId::parse(row.service_id.as_str()) {
        Some(id) => id,
        None => return Err(RowError { field: "Passenger Service ID" }),
    };
    Ok(ServiceAssignment { train_id, service_id })
}

/// A written assignment reads back as itself.
pub proof fn assignment_round_trip(row: AssignmentRow, index: int, assignment: ServiceAssignment)
    requires
        assignment_written(row, index, assignment),
    ensures
        assignment_fault(row) is None,
        forall|other: ServiceAssignment| #[trigger]
            assignment_read(row, other) ==> same_assignment(assignment, other),
{
}

/// A row of `passenger_services` with the Service's rows of `service_stops` and
/// `service_lines` in order.
#[derive(Clone, Debug, PartialEq, Eq)]
pub struct ServiceRow {
    pub id: String,
    pub sequence: i64,
    pub name: String,
    pub custom_name: Option<String>,
    pub direction_mode: String,
    pub forward_train_number: i64,
    pub reverse_train_number: Option<i64>,
    pub stop_station_ids: Vec<String>,
    pub rail_line_ids: Vec<String>,
}

pub open spec fn direction_text(mode: ServiceDirectionMode) -> Seq<char> {
    match mode {
        ServiceDirectionMode::BothDirections => "both"@,
        ServiceDirectionMode::ForwardOnly => "forward"@,
    }
}

pub open spec fn same_name(first: Option<String>, second: Option<String>) -> bool {
    match (first, second) {
        (Some(a), Some(b)) => a@ == b@,
        (None, None) => true,
        _ => false,
    }
}

pub open spec fn optional_number(number: Option<u32>) -> Option<i64> {
    match number {
        Some(number) => Some(number as i64),
        None => None,
    }
}

pub open spec fn stops_written(texts: Seq<String>, ids: Seq<RailStationId>) -> bool {
    &&& texts.len() == ids.len()
    &&& forall|i: int| 0 <= i < ids.len() ==> spells((#[trigger] texts[i])@, ids[i].value)
}

pub open spec fn stops_read(texts: Seq<String>, ids: Seq<RailStationId>) -> bool {
    &&& texts.len() == ids.len()
    &&& forall|i: int|
        0 <= i < ids.len() ==> uuid_of_text((#[trigger] texts[i])@) == Some(ids[i].value)
}

pub open spec fn path_written(texts: Seq<String>, ids: Seq<RailLineId>) -> bool {
    &&& texts.len() == ids.len()
    &&& forall|i: int| 0 <= i < ids.len() ==> spells((#[trigger] texts[i])@, ids[i].value)
}

pub open spec fn path_read(texts: Seq<String>, ids: Seq<RailLineId>) -> bool {
    &&& texts.len() == ids.len()
    &&& forall|i: int|
        0 <= i < ids.len() ==> uuid_of_text((#[trigger] texts[i])@) == Some(ids[i].value)
}

/// Whether some text of a list is no identity.
pub open spec fn unreadable(texts: Seq<String>) -> bool {
    exists|i: int| 0 <= i < texts.len() && uuid_of_text((#[trigger] texts[i])@) is None
}

pub open spec fn service_written(row: ServiceRow, index: int, service: PassengerService) -> bool {
    &&& spells(row.id@, service.id.value)
    &&& row.sequence == stored_position(index)
    &&& row.name@ == service.name@
    &&& same_name(row.custom_name, service.custom_name)
    &&& row.direction_mode@ == direction_text(service.direction_mode)
    &&& row.forward_train_number == service.forward_train_number
    &&& row.reverse_train_number == optional_number(service.reverse_train_number)
    &&& stops_written(row.stop_station_ids@, service.stop_station_ids@)
    &&& path_written(row.rail_line_ids@, service.rail_line_ids@)
}

/// What is wrong with a Service's row of `passenger_services`.
pub open spec fn service_fault(row: ServiceRow) -> Option<&'static str> {
    if uuid_of_text(row.id@) is None {
        Some("Passenger Service ID")
    } else if row.direction_mode@ != "both"@ && row.direction_mode@ != "forward"@ {
        Some("Passenger Service direction mode")
    } else if !fits_u32(row.forward_train_number) {
        Some("Passenger Service train number")
    } else if row.reverse_train_number is Some && !fits_u32(row.reverse_train_number->0) {
        Some("Passenger Service reverse train number")
    } else {
        None
    }
}

/// What is wrong with a Service's stops and path.
pub open spec fn route_fault(row: ServiceRow) -> Option<&'static str> {
    if unreadable(row.stop_station_ids@) {
        Some("Rail Station ID")
    } else if unreadable(row.rail_line_ids@) {
        Some("Rail Line ID")
    } else {
        None
    }
}

/// Whether a Service is what its row of `passenger_services` describes.
pub open spec fn service_row_read(row: ServiceRow, service: PassengerService) -> bool {
    &&& uuid_of_text(row.id@) == Some(service.id.value)
    &&& row.name@ == service.name@
    &&& same_name(row.custom_name, service.custom_name)
    &&& row.direction_mode@ == direction_text(service.direction_mode)
    &&& row.forward_train_number == service.forward_train_number
    &&& row.reverse_train_number == optional_number(service.reverse_train_number)
}

pub open spec fn service_read(row: ServiceRow, service: PassengerService) -> bool {
    &&& service_row_read(row, service)
    &&& stops_read(row.stop_station_ids@, service.stop_station_ids@)
    &&& path_read(row.rail_line_ids@, service.rail_line_ids@)
}

pub open spec fn same_service(first: PassengerService, second: PassengerService) -> bool {
    &&& first.id == second.id
    &&& first.name@ == second.name@
    &&& same_name(first.custom_name, second.custom_name)
    &&& first.direction_mode == second.direction_mode
    &&& first.forward_train_number == second.forward_train_number
    &&& first.reverse_train_number == second.reverse_train_number
    &&& first.stop_station_ids@ == second.stop_station_ids@
    &&& first.rail_line_ids@ == second.rail_line_ids@
}

fn write_stops(ids: &Vec<RailStationId>) -> (texts: Vec<String>)
    ensures
        stops_written(texts@, ids@),
{
    let mut texts: Vec<String> = Vec::new();
    let mut i: usize = 0;
    while i < ids.len()
        invariant
            i <= ids@.len(),
            texts@.len() == i,
            forall|j: int| 0 <= j < i ==> spells((#[trigger] texts@[j])@, ids@[j].value),
        decreases ids.len() - i,
    {
        texts.push(ids[i].text());
        i += 1;
    }
    texts
}

fn write_path(ids: &Vec<RailLineId>) -> (texts: Vec<String>)
    ensures
        path_written(texts@, ids@),
{
    let mut texts: Vec<String> = Vec::new();
    let mut i: usize = 0;
    while i < ids.len()
        invariant
            i <= ids@.len(),
            texts@.len() == i,
            forall|j: int| 0 <= j < i ==> spells((#[trigger] texts@[j])@, ids@[j].value),
        decreases ids.len() - i,
    {
        texts.push(ids[i].text());
        i += 1;
    }
    texts
}

fn read_stops(texts: &Vec<String>) -> (result: Option<Vec<RailStationId>>)
    ensures
        match result {
            Some(ids) => !unreadable(texts@) && stops_read(texts@, ids@),
            None => unreadable(texts@),
        },
{
    let mut ids: Vec<RailStationId> = Vec::new();
    let mut i: usize = 0;
    while i < texts.len()
        invariant
            i <= texts@.len(),
            ids@.len() == i,
            forall|j: int|
                0 <= j < i ==> uuid_of_text((#[trigger] texts@[j])@) == Some(ids@[j].value),
        decreases texts.len() - i,
    {
        match RailStationId::parse(texts[i].as_str()) {
            Some(id) => {
                ids.push(id);
            },
            None => {
                assert(uuid_of_text(texts@[i as int]@) is None);
                return None;
            },
        }
        i += 1;
    }
    Some(ids)
}

fn read_path(texts: &Vec<String>) -> (result: Option<Vec<RailLineId>>)
    ensures
        match result {
            Some(ids) => !unreadable(texts@) && path_read(texts@, ids@),
            None => unreadable(texts@),
        },
{
    let mut ids: Vec<RailLineId> = Vec::new();
    let mut i: usize = 0;
    while i < texts.len()
        invariant
            i <= texts@.len(),
            ids@.len() == i,
            forall|j: int|
                0 <= j < i ==> uuid_of_text((#[trigger] texts@[j])@) == Some(ids@[j].value),
        decreases texts.len() - i,
    {
        match RailLineId::parse(texts[i].as_str()) {
            Some(id) => {
                ids.push(id);
            },
            None => {
                assert(uuid_of_text(texts@[i as int]@) is None);
                return None;
            },
        }
        i += 1;
    }
    Some(ids)
}

pub fn write_service(index: usize, service: &PassengerService) -> (row: ServiceRow)
    ensures
        service_written(row, index as int, *service),
{
    let direction_mode = match service.direction_mode {
        ServiceDirectionMode::BothDirections => "both",
        ServiceDirectionMode::ForwardOnly => "forward",
    };
    let custom_name = match &service.custom_name {
        Some(name) => Some(name.clone()),
        None => None,
    };
    let reverse_train_number: Option<i64> = match service.reverse_train_number {
        Some(number) => Some(number as i64),
        None => None,
    };
    ServiceRow {
        id: service.id.text(),
        sequence: store_position(index),
        name: service.name.clone(),
        custom_name,
        direction_mode: direction_mode.to_owned(),
        forward_train_number: service.forward_train_number as i64,
        reverse_train_number,
        stop_station_ids: write_stops(&service.stop_station_ids),
        rail_line_ids: write_path(&service.rail_line_ids),
    }
}

/// Decodes a Service's own row. Its stops and path are read when all Services are decoded.
pub fn read_service(row: &ServiceRow) -> (result: Result<PassengerService, RowError>)
    ensures
        undecoded(result, service_fault(*row)),
        result matches Ok(service) ==> {
            &&& service_row_read(*row, service)
            &&& service.stop_station_ids@.len() == 0
            &&& service.rail_line_ids@.len() == 0
        },
{
    let id = match ServiceId::parse(row.id.as_str()) {
        Some(id) => id,
        None => return Err(RowError { field: "Passenger Service ID" }),
    };
    let direction_mode = if same_text(row.direction_mode.as_str(), "both") {
        ServiceDirectionMode::BothDirections
    } else if same_text(row.direction_mode.as_str(), "forward") {
        ServiceDirectionMode::ForwardOnly
    } else {
        return Err(RowError { field: "Passenger Service direction mode" });
    };
    let forward_train_number: u32 = match row_u32(
        row.forward_train_number,
        "Passenger Service train number",
    ) {
        Ok(number) => number,
        Err(error) => return Err(error),
    };
    let reverse_train_number: Option<u32> = match row.reverse_train_number {
        Some(number) => match row_u32(number, "Passenger Service reverse train number") {
            Ok(number) => Some(number),
            Err(error) => return Err(error),
        },
        None => None,
    };
    let custom_name = match &row.custom_name {
        Some(name) => Some(name.clone()),
        None => None,
    };
    Ok(
        PassengerService {
            id,
            name: row.name.clone(),
            custom_name,
            direction_mode,
            forward_train_number,
            reverse_train_number,
            stop_station_ids: Vec::new(),
            rail_line_ids: Vec::new(),
        },
    )
}

/// Reads the stops and the path of a Service whose own row was decoded.
pub fn read_route(row: &ServiceRow, service: PassengerService) -> (result: Result<
    PassengerService,
    SaveCodecError,
>)
    requires
        service_row_read(*row, service),
    ensures
        refused(result, route_fault(*row)),
        result matches Ok(service) ==> service_read(*row, service),
{
    let mut service = service;
    service.stop_station_ids = match read_stops(&row.stop_station_ids) {
        Some(ids) => ids,
        None => return Err(SaveCodecError::InvalidValue { field: "Rail Station ID" }),
    };
    service.rail_line_ids = match read_path(&row.rail_line_ids) {
        Some(ids) => ids,
        None => return Err(SaveCodecError::InvalidValue { field: "Rail Line ID" }),
    };
    Ok(service)
}

/// A written Passenger Service reads back as itself.
pub proof fn service_round_trip(row: ServiceRow, index: int, service: PassengerService)
    requires
        service_written(row, index, service),
    ensures
        service_fault(row) is None,
        route_fault(row) is None,
        forall|other: PassengerService| #[trigger]
            service_read(row, other) ==> same_service(service, other),
{
    reveal_strlit("both");
    reveal_strlit("forward");
    assert("both"@.len() == 4 && "forward"@.len() == 7);
    assert forall|other: PassengerService| #[trigger] service_read(row, other) implies same_service(
        service,
        other,
    ) by {
        assert(service.stop_station_ids@ =~= other.stop_station_ids@) by {
            assert forall|i: int| 0 <= i < service.stop_station_ids@.len() implies
                service.stop_station_ids@[i] == other.stop_station_ids@[i] by {
                assert(spells(row.stop_station_ids@[i]@, service.stop_station_ids@[i].value));
            }
        }
        assert(service.rail_line_ids@ =~= other.rail_line_ids@) by {
            assert forall|i: int| 0 <= i < service.rail_line_ids@.len() implies
                service.rail_line_ids@[i] == other.rail_line_ids@[i] by {
                assert(spells(row.rail_line_ids@[i]@, service.rail_line_ids@[i].value));
            }
        }
    }
}

/// Whether rows were written for a list of values.
pub open spec fn units_written(rows: Seq<UnitRow>, values: Seq<ModelUnitSequence>) -> bool {
    &&& rows.len() == values.len()
    &&& forall|i: int| 0 <= i < values.len() ==> unit_written(#[trigger] rows[i], i, values[i])
}

/// The first field that makes the first `count` rows unreadable.
pub open spec fn units_fault(rows: Seq<UnitRow>, count: int) -> Option<&'static str>
    decreases count,
{
    if count <= 0 {
        None
    } else if units_fault(rows, count - 1) is Some {
        units_fault(rows, count - 1)
    } else {
        unit_fault(rows[count - 1])
    }
}

proof fn lemma_units_fault(rows: Seq<UnitRow>, low: int, high: int)
    requires
        low <= high,
        units_fault(rows, low) is Some,
    ensures
        units_fault(rows, high) == units_fault(rows, low),
    decreases high - low,
{
    if low < high {
        lemma_units_fault(rows, low, high - 1);
    }
}

/// Whether a list of values is what the rows describe.
pub open spec fn units_read(rows: Seq<UnitRow>, values: Seq<ModelUnitSequence>) -> bool {
    &&& rows.len() == values.len()
    &&& forall|i: int| 0 <= i < values.len() ==> unit_read(rows[i], #[trigger] values[i])
}

/// Whether two lists hold the same values.
pub open spec fn same_units(first: Seq<ModelUnitSequence>, second: Seq<ModelUnitSequence>) -> bool {
    &&& first.len() == second.len()
    &&& forall|i: int| 0 <= i < first.len() ==> same_unit(first[i], #[trigger] second[i])
}

pub fn read_units(rows: &Vec<UnitRow>) -> (result: Result<Vec<ModelUnitSequence>, RowError>)
    ensures
        undecoded(result, units_fault(rows@, rows@.len() as int)),
        result matches Ok(values) ==> units_read(rows@, values@),
{
    let mut values: Vec<ModelUnitSequence> = Vec::new();
    let mut i: usize = 0;
    while i < rows.len()
        invariant
            i <= rows@.len(),
            units_fault(rows@, i as int) is None,
            values@.len() == i,
            forall|j: int| 0 <= j < i ==> unit_read(rows@[j], #[trigger] values@[j]),
        decreases rows.len() - i,
    {
        match read_unit(&rows[i]) {
            Ok(value) => {
                values.push(value);
            },
            Err(error) => {
                proof {
                    lemma_units_fault(rows@, i + 1, rows@.len() as int);
                }
                return Err(error);
            },
        }
        i += 1;
    }
    Ok(values)
}

pub fn write_units(values: &Vec<ModelUnitSequence>) -> (rows: Vec<UnitRow>)
    ensures
        units_written(rows@, values@),
{
    let mut rows: Vec<UnitRow> = Vec::new();
    let mut i: usize = 0;
    while i < values.len()
        invariant
            i <= values@.len(),
            rows@.len() == i,
            forall|j: int| 0 <= j < i ==> unit_written(#[trigger] rows@[j], j, values@[j]),
        decreases values.len() - i,
    {
        rows.push(write_unit(i, &values[i]));
        i += 1;
    }
    rows
}

proof fn lemma_units_readable(rows: Seq<UnitRow>, values: Seq<ModelUnitSequence>, count: int)
    requires
        units_written(rows, values),
        0 <= count <= rows.len(),
    ensures
        units_fault(rows, count) is None,
    decreases count,
{
    if count > 0 {
        lemma_units_readable(rows, values, count - 1);
        assert(unit_written(rows[count - 1], count - 1, values[count - 1]));
        unit_round_trip(rows[count - 1], count - 1, values[count - 1]);
        assert(unit_fault(rows[count - 1]) is None);
    }
}

/// Written rows read back as the values they were written for.
pub proof fn units_round_trip(rows: Seq<UnitRow>, values: Seq<ModelUnitSequence>)
    requires
        units_written(rows, values),
    ensures
        units_fault(rows, rows.len() as int) is None,
        forall|others: Seq<ModelUnitSequence>| #[trigger] units_read(rows, others) ==> same_units(values, others),
{
    lemma_units_readable(rows, values, rows.len() as int);
    assert forall|others: Seq<ModelUnitSequence>| #[trigger] units_read(rows, others) implies same_units(
        values,
        others,
    ) by {
        assert forall|i: int| 0 <= i < values.len() implies same_unit(values[i], #[trigger] others[i]) by {
            assert(unit_written(rows[i], i, values[i]));
            unit_round_trip(rows[i], i, values[i]);
            assert(unit_read(rows[i], others[i]));
        }
    }
}

/// Whether rows were written for a list of values.
pub open spec fn trains_written(rows: Seq<TrainRow>, values: Seq<Train>) -> bool {
    &&& rows.len() == values.len()
    &&& forall|i: int| 0 <= i < values.len() ==> train_written(#[trigger] rows[i], i, values[i])
}

/// The first field that makes the first `count` rows unreadable.
pub open spec fn trains_fault(rows: Seq<TrainRow>, count: int) -> Option<&'static str>
    decreases count,
{
    if count <= 0 {
        None
    } else if trains_fault(rows, count - 1) is Some {
        trains_fault(rows, count - 1)
    } else {
        train_fault(rows[count - 1])
    }
}

proof fn lemma_trains_fault(rows: Seq<TrainRow>, low: int, high: int)
    requires
        low <= high,
        trains_fault(rows, low) is Some,
    ensures
        trains_fault(rows, high) == trains_fault(rows, low),
    decreases high - low,
{
    if low < high {
        lemma_trains_fault(rows, low, high - 1);
    }
}

/// Whether a list of values is what the rows describe.
pub open spec fn trains_read(rows: Seq<TrainRow>, values: Seq<Train>) -> bool {
    &&& rows.len() == values.len()
    &&& forall|i: int| 0 <= i < values.len() ==> train_read(rows[i], #[trigger] values[i])
}

/// Whether two lists hold the same values.
pub open spec fn same_trains(first: Seq<Train>, second: Seq<Train>) -> bool {
    &&& first.len() == second.len()
    &&& forall|i: int| 0 <= i < first.len() ==> same_train(first[i], #[trigger] second[i])
}

pub fn read_trains(rows: &Vec<TrainRow>) -> (result: Result<Vec<Train>, RowError>)
    ensures
        undecoded(result, trains_fault(rows@, rows@.len() as int)),
        result matches Ok(values) ==> trains_read(rows@, values@),
{
    let mut values: Vec<Train> = Vec::new();
    let mut i: usize = 0;
    while i < rows.len()
        invariant
            i <= rows@.len(),
            trains_fault(rows@, i as int) is None,
            values@.len() == i,
            forall|j: int| 0 <= j < i ==> train_read(rows@[j], #[trigger] values@[j]),
        decreases rows.len() - i,
    {
        match read_train(&rows[i]) {
            Ok(value) => {
                values.push(value);
            },
            Err(error) => {
                proof {
                    lemma_trains_fault(rows@, i + 1, rows@.len() as int);
                }
                return Err(error);
            },
        }
        i += 1;
    }
    Ok(values)
}

pub fn write_trains(values: &Vec<Train>) -> (rows: Vec<TrainRow>)
    ensures
        trains_written(rows@, values@),
{
    let mut rows: Vec<TrainRow> = Vec::new();
    let mut i: usize = 0;
    while i < values.len()
        invariant
            i <= values@.len(),
            rows@.len() == i,
            forall|j: int| 0 <= j < i ==> train_written(#[trigger] rows@[j], j, values@[j]),
        decreases values.len() - i,
    {
        rows.push(write_train(i, &values[i]));
        i += 1;
    }
    rows
}

proof fn lemma_trains_readable(rows: Seq<TrainRow>, values: Seq<Train>, count: int)
    requires
        trains_written(rows, values),
        0 <= count <= rows.len(),
        forall|i: int| 0 <= i < values.len() ==> train_wf(#[trigger] values[i]),
    ensures
        trains_fault(rows, count) is None,
    decreases count,
{
    if count > 0 {
        lemma_trains_readable(rows, values, count - 1);
        assert(train_written(rows[count - 1], count - 1, values[count - 1]));
        assert(train_wf(values[count - 1]));
        train_round_trip(rows[count - 1], count - 1, values[count - 1]);
        assert(train_fault(rows[count - 1]) is None);
    }
}

/// Written rows read back as the values they were written for.
pub proof fn trains_round_trip(rows: Seq<TrainRow>, values: Seq<Train>)
    requires
        trains_written(rows, values),
        forall|i: int| 0 <= i < values.len() ==> train_wf(#[trigger] values[i]),
    ensures
        trains_fault(rows, rows.len() as int) is None,
        forall|others: Seq<Train>| #[trigger] trains_read(rows, others) ==> same_trains(values, others),
{
    lemma_trains_readable(rows, values, rows.len() as int);
    assert forall|others: Seq<Train>| #[trigger] trains_read(rows, others) implies same_trains(
        values,
        others,
    ) by {
        assert forall|i: int| 0 <= i < values.len() implies same_train(values[i], #[trigger] others[i]) by {
            assert(train_written(rows[i], i, values[i]));
            assert(train_wf(values[i]));
            train_round_trip(rows[i], i, values[i]);
            assert(train_read(rows[i], others[i]));
        }
    }
}

/// Whether rows were written for a list of values.
pub open spec fn assignments_written(rows: Seq<AssignmentRow>, values: Seq<ServiceAssignment>) -> bool {
    &&& rows.len() == values.len()
    &&& forall|i: int| 0 <= i < values.len() ==> assignment_written(#[trigger] rows[i], i, values[i])
}

/// The first field that makes the first `count` rows unreadable.
pub open spec fn assignments_fault(rows: Seq<AssignmentRow>, count: int) -> Option<&'static str>
    decreases count,
{
    if count <= 0 {
        None
    } else if assignments_fault(rows, count - 1) is Some {
        assignments_fault(rows, count - 1)
    } else {
        assignment_fault(rows[count - 1])
    }
}

proof fn lemma_assignments_fault(rows: Seq<AssignmentRow>, low: int, high: int)
    requires
        low <= high,
        assignments_fault(rows, low) is Some,
    ensures
        assignments_fault(rows, high) == assignments_fault(rows, low),
    decreases high - low,
{
    if low < high {
        lemma_assignments_fault(rows, low, high - 1);
    }
}

/// Whether a list of values is what the rows describe.
pub open spec fn assignments_read(rows: Seq<AssignmentRow>, values: Seq<ServiceAssignment>) -> bool {
    &&& rows.len() == values.len()
    &&& forall|i: int| 0 <= i < values.len() ==> assignment_read(rows[i], #[trigger] values[i])
}

/// Whether two lists hold the same values.
pub open spec fn same_assignments(first: Seq<ServiceAssignment>, second: Seq<ServiceAssignment>) -> bool {
    &&& first.len() == second.len()
    &&& forall|i: int| 0 <= i < first.len() ==> same_assignment(first[i], #[trigger] second[i])
}

pub fn read_assignments(rows: &Vec<AssignmentRow>) -> (result: Result<Vec<ServiceAssignment>, RowError>)
    ensures
        undecoded(result, assignments_fault(rows@, rows@.len() as int)),
        result matches Ok(values) ==> assignments_read(rows@, values@),
{
    let mut values: Vec<ServiceAssignment> = Vec::new();
    let mut i: usize = 0;
    while i < rows.len()
        invariant
            i <= rows@.len(),
            assignments_fault(rows@, i as int) is None,
            values@.len() == i,
            forall|j: int| 0 <= j < i ==> assignment_read(rows@[j], #[trigger] values@[j]),
        decreases rows.len() - i,
    {
        match read_assignment(&rows[i]) {
            Ok(value) => {
                values.push(value);
            },
            Err(error) => {
                proof {
                    lemma_assignments_fault(rows@, i + 1, rows@.len() as int);
                }
                return Err(error);
            },
        }
        i += 1;
    }
    Ok(values)
}

pub fn write_assignments(values: &Vec<ServiceAssignment>) -> (rows: Vec<AssignmentRow>)
    ensures
        assignments_written(rows@, values@),
{
    let mut rows: Vec<AssignmentRow> = Vec::new();
    let mut i: usize = 0;
    while i < values.len()
        invariant
            i <= values@.len(),
            rows@.len() == i,
            forall|j: int| 0 <= j < i ==> assignment_written(#[trigger] rows@[j], j, values@[j]),
        decreases values.len() - i,
    {
        rows.push(write_assignment(i, &values[i]));
        i += 1;
    }
    rows
}

proof fn lemma_assignments_readable(rows: Seq<AssignmentRow>, values: Seq<ServiceAssignment>, count: int)
    requires
        assignments_written(rows, values),
        0 <= count <= rows.len(),
    ensures
        assignments_fault(rows, count) is None,
    decreases count,
{
    if count > 0 {
        lemma_assignments_readable(rows, values, count - 1);
        assert(assignment_written(rows[count - 1], count - 1, values[count - 1]));
        assignment_round_trip(rows[count - 1], count - 1, values[count - 1]);
        assert(assignment_fault(rows[count - 1]) is None);
    }
}

/// Written rows read back as the values they were written for.
pub proof fn assignments_round_trip(rows: Seq<AssignmentRow>, values: Seq<ServiceAssignment>)
    requires
        assignments_written(rows, values),
    ensures
        assignments_fault(rows, rows.len() as int) is None,
        forall|others: Seq<ServiceAssignment>| #[trigger] assignments_read(rows, others) ==> same_assignments(values, others),
{
    lemma_assignments_readable(rows, values, rows.len() as int);
    assert forall|others: Seq<ServiceAssignment>| #[trigger] assignments_read(rows, others) implies same_assignments(
        values,
        others,
    ) by {
        assert forall|i: int| 0 <= i < values.len() implies same_assignment(values[i], #[trigger] others[i]) by {
            assert(assignment_written(rows[i], i, values[i]));
            assignment_round_trip(rows[i], i, values[i]);
            assert(assignment_read(rows[i], others[i]));
        }
    }
}

/// Whether rows were written for a list of values.
pub open spec fn services_written(rows: Seq<ServiceRow>, values: Seq<PassengerService>) -> bool {
    &&& rows.len() == values.len()
    &&& forall|i: int| 0 <= i < values.len() ==> service_written(#[trigger] rows[i], i, values[i])
}

/// The first field that makes the first `count` rows undecodable, stops and paths aside.
pub open spec fn services_fault(rows: Seq<ServiceRow>, count: int) -> Option<&'static str>
    decreases count,
{
    if count <= 0 {
        None
    } else if services_fault(rows, count - 1) is Some {
        services_fault(rows, count - 1)
    } else {
        service_fault(rows[count - 1])
    }
}

proof fn lemma_services_fault(rows: Seq<ServiceRow>, low: int, high: int)
    requires
        low <= high,
        services_fault(rows, low) is Some,
    ensures
        services_fault(rows, high) == services_fault(rows, low),
    decreases high - low,
{
    if low < high {
        lemma_services_fault(rows, low, high - 1);
    }
}

proof fn lemma_no_service_fault(rows: Seq<ServiceRow>, count: int, i: int)
    requires
        0 <= i < count,
        services_fault(rows, count) is None,
    ensures
        service_fault(rows[i]) is None,
    decreases count,
{
    if i < count - 1 {
        lemma_no_service_fault(rows, count - 1, i);
    }
}

/// The first fault among the stops and paths of the first `count` Services.
pub open spec fn routes_fault(rows: Seq<ServiceRow>, count: int) -> Option<&'static str>
    decreases count,
{
    if count <= 0 {
        None
    } else if routes_fault(rows, count - 1) is Some {
        routes_fault(rows, count - 1)
    } else {
        route_fault(rows[count - 1])
    }
}

proof fn lemma_routes_fault(rows: Seq<ServiceRow>, low: int, high: int)
    requires
        low <= high,
        routes_fault(rows, low) is Some,
    ensures
        routes_fault(rows, high) == routes_fault(rows, low),
    decreases high - low,
{
    if low < high {
        lemma_routes_fault(rows, low, high - 1);
    }
}

/// Why no Services can be read, if so: a row of `passenger_services` that cannot be decoded
/// comes before any stop or path that names nothing.
pub open spec fn services_failure(rows: Seq<ServiceRow>) -> Option<LoadError> {
    first_fault(
        row_fault(DECODE_ROW, services_fault(rows, rows.len() as int)),
        value_fault(routes_fault(rows, rows.len() as int)),
    )
}

/// Whether a list of values is what the rows describe.
pub open spec fn services_read(rows: Seq<ServiceRow>, values: Seq<PassengerService>) -> bool {
    &&& rows.len() == values.len()
    &&& forall|i: int| 0 <= i < values.len() ==> service_read(rows[i], #[trigger] values[i])
}

/// Whether two lists hold the same values.
pub open spec fn same_services(first: Seq<PassengerService>, second: Seq<PassengerService>) -> bool {
    &&& first.len() == second.len()
    &&& forall|i: int| 0 <= i < first.len() ==> same_service(first[i], #[trigger] second[i])
}

fn check_services(rows: &Vec<ServiceRow>) -> (result: Result<(), RowError>)
    ensures
        undecoded(result, services_fault(rows@, rows@.len() as int)),
{
    let mut i: usize = 0;
    while i < rows.len()
        invariant
            i <= rows@.len(),
            services_fault(rows@, i as int) is None,
        decreases rows.len() - i,
    {
        match read_service(&rows[i]) {
            Ok(_) => {},
            Err(error) => {
                proof {
                    lemma_services_fault(rows@, i + 1, rows@.len() as int);
                }
                return Err(error);
            },
        }
        i += 1;
    }
    Ok(())
}

pub fn read_services(rows: &Vec<ServiceRow>) -> (result: Result<Vec<PassengerService>, LoadError>)
    ensures
        unloaded(result, services_failure(rows@)),
        result matches Ok(values) ==> services_read(rows@, values@),
{
    match check_services(rows) {
        Ok(()) => {},
        Err(error) => return Err(failed_row(DECODE_ROW, error)),
    }
    let mut values: Vec<PassengerService> = Vec::new();
    let mut i: usize = 0;
    while i < rows.len()
        invariant
            i <= rows@.len(),
            services_fault(rows@, rows@.len() as int) is None,
            routes_fault(rows@, i as int) is None,
            values@.len() == i,
            forall|j: int| 0 <= j < i ==> service_read(rows@[j], #[trigger] values@[j]),
        decreases rows.len() - i,
    {
        proof {
            lemma_no_service_fault(rows@, rows@.len() as int, i as int);
        }
        let service = match read_service(&rows[i]) {
            Ok(service) => service,
            Err(error) => return Err(failed_row(DECODE_ROW, error)),
        };
        match read_route(&rows[i], service) {
            Ok(value) => {
                values.push(value);
            },
            Err(error) => {
                proof {
                    lemma_routes_fault(rows@, i + 1, rows@.len() as int);
                }
                return Err(LoadError::Save(error));
            },
        }
        i += 1;
    }
    Ok(values)
}

pub fn write_services(values: &Vec<PassengerService>) -> (rows: Vec<ServiceRow>)
    ensures
        services_written(rows@, values@),
{
    let mut rows: Vec<ServiceRow> = Vec::new();
    let mut i: usize = 0;
    while i < values.len()
        invariant
            i <= values@.len(),
            rows@.len() == i,
            forall|j: int| 0 <= j < i ==> service_written(#[trigger] rows@[j], j, values@[j]),
        decreases values.len() - i,
    {
        rows.push(write_service(i, &values[i]));
        i += 1;
    }
    rows
}

proof fn lemma_services_readable(rows: Seq<ServiceRow>, values: Seq<PassengerService>, count: int)
    requires
        services_written(rows, values),
        0 <= count <= rows.len(),
    ensures
        services_fault(rows, count) is None,
        routes_fault(rows, count) is None,
    decreases count,
{
    if count > 0 {
        lemma_services_readable(rows, values, count - 1);
        assert(service_written(rows[count - 1], count - 1, values[count - 1]));
        service_round_trip(rows[count - 1], count - 1, values[count - 1]);
        assert(service_fault(rows[count - 1]) is None);
        assert(route_fault(rows[count - 1]) is None);
    }
}

/// Written rows read back as the values they were written for.
pub proof fn services_round_trip(rows: Seq<ServiceRow>, values: Seq<PassengerService>)
    requires
        services_written(rows, values),
    ensures
        services_failure(rows) is None,
        forall|others: Seq<PassengerService>| #[trigger] services_read(rows, others) ==> same_services(values, others),
{
    lemma_services_readable(rows, values, rows.len() as int);
    assert forall|others: Seq<PassengerService>| #[trigger] services_read(rows, others) implies same_services(
        values,
        others,
    ) by {
        assert forall|i: int| 0 <= i < values.len() implies same_service(values[i], #[trigger] others[i]) by {
            assert(service_written(rows[i], i, values[i]));
            service_round_trip(rows[i], i, values[i]);
            assert(service_read(rows[i], others[i]));
        }
    }
}

} // verus!
