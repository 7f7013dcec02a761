//! Telemetry-side enumerations and processing summaries.

use vstd::prelude::*;

verus! {

/// ERS deployment modes as reported by telemetry.
#[derive(Debug, Clone, Copy, PartialEq, Eq, Structural)]
pub enum ErsMode {
    Off,
    Low,
    Medium,
    High,
    Hotlap,
    Overtake,
}

/// DRS activation status.
#[derive(Debug, Clone, Copy, PartialEq, Eq, Structural)]
pub enum DrsStatus {
    Unavailable,
    Available,
    Activated,
}

/// Telemetry processing failures.
#[derive(Debug, Clone, PartialEq, Eq)]
pub enum TelemetryError {
    InvalidData(String),
    ProcessingError(String),
    AnomalyDetectionError(String),
}

/// Running totals of a telemetry processor.
#[derive(Debug, Clone, Copy, PartialEq, Eq, Structural)]
pub struct ProcessingStats {
    pub total_processed: u64,
    pub total_errors: u64,
    pub average_latency_us: u64,
}

/// Anomaly severity levels, ordered from least to most urgent.
#[derive(Debug, Clone, Copy, PartialEq, Eq, PartialOrd, Ord, Structural)]
pub enum AnomalySeverity {
    Low,
    Medium,
    High,
}

/// Kinds of telemetry anomaly.
#[derive(Debug, Clone, Copy, PartialEq, Eq, Structural)]
pub enum AnomalyType {
    CriticalTireTemperature,
    TireDamage,
    SuddenSpeedLoss,
    PowerUnitIssue,
    FuelShortage,
    BrakeFailure,
    AerodynamicDamage,
    SensorMalfunction,
}

/// Severity levels of detected anomalies, ordered from least to most
/// urgent.
#[derive(Debug, Clone, Copy, PartialEq, Eq, PartialOrd, Ord, Structural)]
pub enum Severity {
    Low,
    Medium,
    High,
    Critical,
}

} // verus!
