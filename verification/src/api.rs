//! Request-side parameter handling: the extraction parameters, their
//! defaults, and the pre-validation the request layer applies before a
//! simulation is started.

use vstd::prelude::*;
use crate::simulation::{
    press_in_range, temp_in_range, time_in_range, CoffeeType, GrindSize, RoastLevel,
};

verus! {

/// The error the request layer answers with: a human-readable message and
/// the HTTP status code to map it to.
#[derive(Clone, Debug)]
pub struct ApiError {
    pub message: String,
    pub status: u16,
}

/// Parameters of one extraction request. Temperature and pressure are in
/// hundredths of their unit, as everywhere in this crate.
#[derive(Clone, Copy, Debug)]
pub struct ExtractionParams {
    pub temperature: u64,
    pub pressure: u64,
    pub time_seconds: u64,
    pub coffee_type: Option<CoffeeType>,
    pub roast_level: Option<RoastLevel>,
    pub grind_size: Option<GrindSize>,
}

/// The temperature a request falls back to, hundredths of a degree.
pub fn default_temperature() -> (r: u64)
    ensures
        r == 9300,
{
    9300
}

/// The pressure a request falls back to, hundredths of a bar.
pub fn default_pressure() -> (r: u64)
    ensures
        r == 900,
{
    900
}

/// The extraction time a request falls back to, whole seconds.
pub fn default_time_seconds() -> (r: u64)
    ensures
        r == 25,
{
    25
}

impl ExtractionParams {
    /// Accepts the parameters exactly when temperature, pressure and time
    /// each sit in their ideal window; otherwise the first violated check
    /// (temperature, then pressure, then time) decides the error.
    pub fn validate(&self) -> (r: Result<(), ApiError>)
        ensures
            r is Ok <==> temp_in_range(self.temperature) && press_in_range(self.pressure)
                && time_in_range(self.time_seconds),
            !temp_in_range(self.temperature) ==> (r matches Err(e) && e.message@
                == "Temperature must be between 90.0 and 96.0"@ && e.status == 400),
            temp_in_range(self.temperature) && !press_in_range(self.pressure) ==> (r matches Err(e)
                && e.message@ == "Pressure must be between 8.0 and 10.0"@ && e.status == 400),
            temp_in_range(self.temperature) && press_in_range(self.pressure) && !time_in_range(
                self.time_seconds,
            ) ==> (r matches Err(e) && e.message@ == "Time must be between 20 and 30 seconds"@
                && e.status == 400),
    {
        if !(9000 <= self.temperature && self.temperature <= 9600) {
            return Err(
                ApiError {
                    message: "Temperature must be between 90.0 and 96.0".to_owned(),
                    status: 400,
                },
            );
        }
        if !(800 <= self.pressure && self.pressure <= 1000) {
            return Err(
                ApiError {
                    message: "Pressure must be between 8.0 and 10.0".to_owned(),
                    status: 400,
                },
            );
        }
        if !(20 <= self.time_seconds && self.time_seconds <= 30) {
            return Err(
                ApiError {
                    message: "Time must be between 20 and 30 seconds".to_owned(),
                    status: 400,
                },
            );
        }
        Ok(())
    }
}

} // verus!
