//! Race incidents and safety-car periods.

use vstd::prelude::*;
use crate::types::CarId;
use crate::types::LapNumber;
use crate::types::Sector;

verus! {

/// Reason for retirement.
#[derive(Debug, Clone, Copy, PartialEq, Eq, Structural)]
pub enum RetirementReason {
    Accident,
    Mechanical,
    PowerUnit,
    Gearbox,
    Transmission,
    Hydraulics,
    Electrical,
    Brakes,
    Collision,
    Disqualified,
}

/// Type of race incident.
#[derive(Debug, Clone, Copy, PartialEq, Eq, Structural)]
pub enum IncidentType {
    Collision,
    Spin,
    OffTrack,
    Debris,
    Mechanical,
    Penalty,
    Investigation,
}

/// Race incident.
#[derive(Debug, Clone)]
pub struct RaceIncident {
    pub lap: LapNumber,
    pub sector: Option<Sector>,
    pub incident_type: IncidentType,
    pub involved_cars: Vec<CarId>,
    pub description: String,
}

/// Safety car period.
#[derive(Debug, Clone)]
pub struct SafetyCarPeriod {
    pub start_lap: LapNumber,
    pub end_lap: Option<LapNumber>,
    pub is_virtual: bool,
    pub reason: String,
}

} // verus!
