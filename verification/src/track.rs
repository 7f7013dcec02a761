//! Track definitions and characteristics.
//!
//! Lengths are in meters, lap records in milliseconds, speeds in km/h,
//! and dimensionless characteristics in thousandths (1000 = 1.0).

use vstd::prelude::*;
use crate::types::Sector;

verus! {

/// Track-specific characteristics.
#[derive(Debug, Clone, PartialEq, Eq, Structural)]
pub struct TrackCharacteristics {
    /// Tire degradation severity (1000 = average).
    pub tire_severity: u32,
    /// Fuel consumption rate (1000 = average).
    pub fuel_consumption: u32,
    /// Overtaking difficulty (0 = easy, 1000 = very hard).
    pub overtaking_difficulty: u32,
    /// Downforce level (0 = low, 1000 = high).
    pub downforce_level: u32,
    /// Average speed (km/h).
    pub average_speed: u32,
    /// Maximum speed (km/h).
    pub maximum_speed: u32,
    /// Elevation change (meters).
    pub elevation_change: u32,
    /// Weather variability (0 = stable, 1000 = highly variable).
    pub weather_variability: u32,
}

/// Sector type characteristics.
#[derive(Debug, Clone, Copy, PartialEq, Eq, Structural)]
pub enum SectorType {
    Straights,
    Technical,
    HighSpeed,
    MixedSpeed,
}

/// Corner classification.
#[derive(Debug, Clone, Copy, PartialEq, Eq, Structural)]
pub enum CornerType {
    Slow,
    Medium,
    Fast,
    VeryFast,
    Hairpin,
    Chicane,
}

/// Corner definition.
#[derive(Debug, Clone)]
pub struct Corner {
    pub number: u8,
    pub name: Option<String>,
    /// Apex speed (km/h).
    pub apex_speed: u32,
    /// Entry speed (km/h).
    pub entry_speed: u32,
    /// Exit speed (km/h).
    pub exit_speed: u32,
    pub corner_type: CornerType,
    pub gear: u8,
}

/// Sector information.
#[derive(Debug, Clone)]
pub struct SectorInfo {
    pub sector: Sector,
    /// Sector length (meters).
    pub length: u32,
    /// Average time (milliseconds).
    pub average_time: u64,
    pub sector_type: SectorType,
    pub key_corners: Vec<Corner>,
}

/// DRS (drag reduction system) zone.
#[derive(Debug, Clone)]
pub struct DrsZone {
    pub zone_id: u8,
    /// Detection point (meters from start/finish).
    pub detection_point: u32,
    /// Activation point (meters from start/finish).
    pub activation_point: u32,
    /// End point (meters from start/finish).
    pub end_point: u32,
    /// Expected lap time gain (milliseconds).
    pub expected_time_gain: u64,
}

/// Circuit definition.
#[derive(Debug, Clone)]
pub struct Circuit {
    /// Unique track identifier.
    pub id: String,
    /// Full track name.
    pub name: String,
    /// Country.
    pub country: String,
    /// Track length (meters).
    pub length: u32,
    /// Number of turns.
    pub num_turns: u8,
    /// Lap record (milliseconds).
    pub lap_record: u64,
    /// Track characteristics.
    pub characteristics: TrackCharacteristics,
    /// Sector information.
    pub sectors: Vec<SectorInfo>,
    /// DRS zones.
    pub drs_zones: Vec<DrsZone>,
    /// Typical race distance (laps).
    pub typical_race_laps: u16,
}

impl Circuit {
    /// Well-formed circuit: values inside the ranges the race models need.
    pub open spec fn wf(self) -> bool {
        &&& self.lap_record <= 10000000
        &&& 0 < self.characteristics.tire_severity <= 100000
        &&& self.characteristics.fuel_consumption <= 10000
        &&& self.length <= 100000
    }

    /// Total track length in meters.
    pub fn total_length(&self) -> (r: u32)
        ensures
            r == self.length,
    {
        self.length
    }

    /// Race distance in whole kilometers over the typical race laps.
    pub fn race_distance_km(&self) -> (r: u64)
        requires
            self.length <= 100000,
        ensures
            r == self.length * self.typical_race_laps / 1000,
    {
        proof {
            assert(self.length * self.typical_race_laps <= 100000 * 65535) by (nonlinear_arith)
                requires self.length <= 100000 && self.typical_race_laps <= 65535;
            assert(self.length * self.typical_race_laps >= 0) by (nonlinear_arith)
                requires self.length >= 0 && self.typical_race_laps >= 0;
        }
        (self.length as u64 * self.typical_race_laps as u64) / 1000
    }

    /// First sector entry matching the given sector, if any.
    pub fn sector(&self, sector: Sector) -> (r: Option<&SectorInfo>)
        ensures
            r is Some <==> exists|i: int| 0 <= i < self.sectors@.len() && self.sectors@[i].sector == sector,
            r is Some ==> r->Some_0.sector == sector,
    {
        let mut i: usize = 0;
        while i < self.sectors.len()
            invariant
                0 <= i <= self.sectors@.len(),
                forall|j: int| 0 <= j < i ==> self.sectors@[j].sector != sector,
            decreases self.sectors@.len() - i,
        {
            if self.sectors[i].sector == sector {
                return Some(&self.sectors[i]);
            }
            i = i + 1;
        }
        None
    }

    /// Whether the circuit has any DRS zone.
    pub fn has_drs(&self) -> (r: bool)
        ensures
            r == (self.drs_zones@.len() > 0),
    {
        self.drs_zones.len() > 0
    }

    /// The five reference circuits.
    pub fn famous_circuits() -> (r: Vec<Circuit>)
        ensures
            r@.len() == 5,
            r@[0].id@ == "monaco"@,
            r@[1].id@ == "spa"@,
            r@[2].id@ == "silverstone"@,
            r@[3].id@ == "monza"@,
            r@[4].id@ == "suzuka"@,
            forall|i: int| 0 <= i < 5 ==> #[trigger] r@[i].wf(),
    {
        let mut circuits: Vec<Circuit> = Vec::new();
        circuits.push(Self::monaco());
        circuits.push(Self::spa());
        circuits.push(Self::silverstone());
        circuits.push(Self::monza());
        circuits.push(Self::suzuka());
        circuits
    }

    /// Monaco circuit definition.
    pub fn monaco() -> (r: Circuit)
        ensures
            r.id@ == "monaco"@,
            r.length == 3337,
            r.num_turns == 19,
            r.lap_record == 70246,
            r.characteristics == (TrackCharacteristics {
                tire_severity: 800,
                fuel_consumption: 850,
                overtaking_difficulty: 950,
                downforce_level: 950,
                average_speed: 160,
                maximum_speed: 290,
                elevation_change: 42,
                weather_variability: 300,
            }),
            r.sectors@.len() == 0,
            r.drs_zones@.len() == 0,
            r.typical_race_laps == 78,
            r.wf(),
    {
        Circuit {
            id: "monaco".to_owned(),
            name: "Circuit de Monaco".to_owned(),
            country: "Monaco".to_owned(),
            length: 3337,
            num_turns: 19,
            lap_record: 70246,
            characteristics: TrackCharacteristics {
                tire_severity: 800,
                fuel_consumption: 850,
                overtaking_difficulty: 950,
                downforce_level: 950,
                average_speed: 160,
                maximum_speed: 290,
                elevation_change: 42,
                weather_variability: 300,
            },
            sectors: Vec::new(),
            drs_zones: Vec::new(),
            typical_race_laps: 78,
        }
    }

    /// Spa-Francorchamps circuit.
    pub fn spa() -> (r: Circuit)
        ensures
            r.id@ == "spa"@,
            r.length == 7004,
            r.num_turns == 19,
            r.lap_record == 103458,
            r.characteristics == (TrackCharacteristics {
                tire_severity: 1200,
                fuel_consumption: 1300,
                overtaking_difficulty: 400,
                downforce_level: 600,
                average_speed: 237,
                maximum_speed: 340,
                elevation_change: 105,
                weather_variability: 900,
            }),
            r.sectors@.len() == 0,
            r.drs_zones@.len() == 0,
            r.typical_race_laps == 44,
            r.wf(),
    {
        Circuit {
            id: "spa".to_owned(),
            name: "Circuit de Spa-Francorchamps".to_owned(),
            country: "Belgium".to_owned(),
            length: 7004,
            num_turns: 19,
            lap_record: 103458,
            characteristics: TrackCharacteristics {
                tire_severity: 1200,
                fuel_consumption: 1300,
                overtaking_difficulty: 400,
                downforce_level: 600,
                average_speed: 237,
                maximum_speed: 340,
                elevation_change: 105,
                weather_variability: 900,
            },
            sectors: Vec::new(),
            drs_zones: Vec::new(),
            typical_race_laps: 44,
        }
    }

    /// Silverstone circuit.
    pub fn silverstone() -> (r: Circuit)
        ensures
            r.id@ == "silverstone"@,
            r.length == 5891,
            r.num_turns == 18,
            r.lap_record == 86089,
            r.characteristics == (TrackCharacteristics {
                tire_severity: 1100,
                fuel_consumption: 1100,
                overtaking_difficulty: 500,
                downforce_level: 700,
                average_speed: 230,
                maximum_speed: 330,
                elevation_change: 30,
                weather_variability: 700,
            }),
            r.sectors@.len() == 0,
            r.drs_zones@.len() == 0,
            r.typical_race_laps == 52,
            r.wf(),
    {
        Circuit {
            id: "silverstone".to_owned(),
            name: "Silverstone Circuit".to_owned(),
            country: "United Kingdom".to_owned(),
            length: 5891,
            num_turns: 18,
            lap_record: 86089,
            characteristics: TrackCharacteristics {
                tire_severity: 1100,
                fuel_consumption: 1100,
                overtaking_difficulty: 500,
                downforce_level: 700,
                average_speed: 230,
                maximum_speed: 330,
                elevation_change: 30,
                weather_variability: 700,
            },
            sectors: Vec::new(),
            drs_zones: Vec::new(),
            typical_race_laps: 52,
        }
    }

    /// Monza circuit.
    pub fn monza() -> (r: Circuit)
        ensures
            r.id@ == "monza"@,
            r.length == 5793,
            r.num_turns == 11,
            r.lap_record == 81046,
            r.characteristics == (TrackCharacteristics {
                tire_severity: 900,
                fuel_consumption: 1400,
                overtaking_difficulty: 300,
                downforce_level: 300,
                average_speed: 264,
                maximum_speed: 360,
                elevation_change: 28,
                weather_variability: 400,
            }),
            r.sectors@.len() == 0,
            r.drs_zones@.len() == 0,
            r.typical_race_laps == 53,
            r.wf(),
    {
        Circuit {
            id: "monza".to_owned(),
            name: "Autodromo Nazionale di Monza".to_owned(),
            country: "Italy".to_owned(),
            length: 5793,
            num_turns: 11,
            lap_record: 81046,
            characteristics: TrackCharacteristics {
                tire_severity: 900,
                fuel_consumption: 1400,
                overtaking_difficulty: 300,
                downforce_level: 300,
                average_speed: 264,
                maximum_speed: 360,
                elevation_change: 28,
                weather_variability: 400,
            },
            sectors: Vec::new(),
            drs_zones: Vec::new(),
            typical_race_laps: 53,
        }
    }

    /// Suzuka circuit.
    pub fn suzuka() -> (r: Circuit)
        ensures
            r.id@ == "suzuka"@,
            r.length == 5807,
            r.num_turns == 18,
            r.lap_record == 87435,
            r.characteristics == (TrackCharacteristics {
                tire_severity: 1300,
                fuel_consumption: 1200,
                overtaking_difficulty: 700,
                downforce_level: 800,
                average_speed: 226,
                maximum_speed: 315,
                elevation_change: 43,
                weather_variability: 600,
            }),
            r.sectors@.len() == 0,
            r.drs_zones@.len() == 0,
            r.typical_race_laps == 53,
            r.wf(),
    {
        Circuit {
            id: "suzuka".to_owned(),
            name: "Suzuka International Racing Course".to_owned(),
            country: "Japan".to_owned(),
            length: 5807,
            num_turns: 18,
            lap_record: 87435,
            characteristics: TrackCharacteristics {
                tire_severity: 1300,
                fuel_consumption: 1200,
                overtaking_difficulty: 700,
                downforce_level: 800,
                average_speed: 226,
                maximum_speed: 315,
                elevation_change: 43,
                weather_variability: 600,
            },
            sectors: Vec::new(),
            drs_zones: Vec::new(),
            typical_race_laps: 53,
        }
    }
}

} // verus!
