//! Session and driver records as an open timing API reports them, and the
//! domain types they map to.

use vstd::prelude::*;

verus! {

/// Session record from the timing API.
#[derive(Debug, Clone, PartialEq, Eq)]
pub struct OpenF1Session {
    pub session_key: u32,
    pub session_name: String,
    pub date_start: String,
    pub date_end: String,
    pub gmt_offset: String,
    pub session_type: String,
    pub meeting_key: u32,
    pub location: String,
    pub country_name: String,
    pub circuit_short_name: String,
    pub year: u32,
}

/// Driver record from the timing API.
#[derive(Debug, Clone, PartialEq, Eq)]
pub struct OpenF1Driver {
    pub session_key: u32,
    pub driver_number: u8,
    pub broadcast_name: String,
    pub full_name: String,
    pub name_acronym: String,
    pub team_name: String,
    pub team_colour: String,
    pub headshot_url: Option<String>,
    pub country_code: String,
}

/// Driver information in domain form.
#[derive(Debug, Clone, PartialEq, Eq)]
pub struct DriverInfo {
    pub driver_number: u8,
    pub name: String,
    pub acronym: String,
    pub team: String,
    pub country_code: String,
}

impl DriverInfo {
    /// Map a raw driver record to domain form: the full name, acronym,
    /// team, and country carry over unchanged. The mapping is total.
    pub fn try_from(driver: OpenF1Driver) -> (r: Result<DriverInfo, String>)
        ensures
            r is Ok,
            ({
                let info = r->Ok_0;
                &&& info.driver_number == driver.driver_number
                &&& info.name == driver.full_name
                &&& info.acronym == driver.name_acronym
                &&& info.team == driver.team_name
                &&& info.country_code == driver.country_code
            }),
    {
        Ok(DriverInfo {
            driver_number: driver.driver_number,
            name: driver.full_name,
            acronym: driver.name_acronym,
            team: driver.team_name,
            country_code: driver.country_code,
        })
    }
}

} // verus!
