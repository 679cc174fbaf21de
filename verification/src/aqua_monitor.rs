//! The rules of the tank monitor: which requests for readings are accepted,
//! and how a failure is answered.

use vstd::prelude::*;

verus! {

/// What can go wrong in the tank monitor.
#[derive(Debug, Clone)]
pub enum ApiError {
    /// The data store failed; the text is what it said.
    Database(String),
    SensorError(String),
    TankNotFound(String),
    /// A service that was called failed; the text is what it said.
    ExternalService(String),
    InternalError(String),
}

impl ApiError {
    /// The HTTP status that answers the error.
    pub open spec fn status(self) -> u16 {
        match self {
            ApiError::Database(_) => 500,
            ApiError::SensorError(_) => 503,
            ApiError::TankNotFound(_) => 404,
            ApiError::ExternalService(_) => 502,
            ApiError::InternalError(_) => 500,
        }
    }

    /// The message that answers the error. What the data store or another
    /// service said is not passed on.
    pub open spec fn response_text(self) -> Seq<char> {
        match self {
            ApiError::Database(_) => "Database error"@,
            ApiError::SensorError(msg) => "Sensor error: "@ + msg@,
            ApiError::TankNotFound(id) => "Tank not found: "@ + id@,
            ApiError::ExternalService(_) => "External service error"@,
            ApiError::InternalError(msg) => msg@,
        }
    }

    /// The error in words, as it is logged.
    pub open spec fn text(self) -> Seq<char> {
        match self {
            ApiError::Database(e) => "Database error: "@ + e@,
            ApiError::SensorError(msg) => "Sensor error: "@ + msg@,
            ApiError::TankNotFound(id) => "Tank not found: "@ + id@,
            ApiError::ExternalService(e) => "External service error: "@ + e@,
            ApiError::InternalError(msg) => "Internal server error: "@ + msg@,
        }
    }

    /// The HTTP status that answers the error.
    pub fn status_code(&self) -> (code: u16)
        ensures
            code == self.status(),
    {
        match self {
            ApiError::Database(_) => 500,
            ApiError::SensorError(_) => 503,
            ApiError::TankNotFound(_) => 404,
            ApiError::ExternalService(_) => 502,
            ApiError::InternalError(_) => 500,
        }
    }

    /// The message that answers the error.
    pub fn error_message(&self) -> (m: String)
        ensures
            m@ == self.response_text(),
    {
        match self {
            ApiError::Database(_) => "Database error".to_owned(),
            ApiError::SensorError(msg) => "Sensor error: ".to_owned().concat(msg.as_str()),
            ApiError::TankNotFound(id) => "Tank not found: ".to_owned().concat(id.as_str()),
            ApiError::ExternalService(_) => "External service error".to_owned(),
            ApiError::InternalError(msg) => msg.clone(),
        }
    }

    /// The error in words.
    pub fn to_string(&self) -> (m: String)
        ensures
            m@ == self.text(),
    {
        match self {
            ApiError::Database(e) => "Database error: ".to_owned().concat(e.as_str()),
            ApiError::SensorError(msg) => "Sensor error: ".to_owned().concat(msg.as_str()),
            ApiError::TankNotFound(id) => "Tank not found: ".to_owned().concat(id.as_str()),
            ApiError::ExternalService(e) => "External service error: ".to_owned().concat(
                e.as_str(),
            ),
            ApiError::InternalError(msg) => "Internal server error: ".to_owned().concat(
                msg.as_str(),
            ),
        }
    }
}

/// Accepts the name of a tank unless it is empty.
pub fn check_tank_id(tank_id: &str) -> (r: Result<(), ApiError>)
    ensures
        tank_id@.len() > 0 ==> r is Ok,
        tank_id@.len() == 0 ==> (r matches Err(ApiError::TankNotFound(m)) && m@
            == "empty tank ID"@),
{
    if tank_id.is_empty() {
        Err(ApiError::TankNotFound("empty tank ID".to_owned()))
    } else {
        Ok(())
    }
}

/// Accepts what the data store holds of a tank unless it holds no reading.
pub fn check_readings(tank_id: &str, readings: usize) -> (r: Result<(), ApiError>)
    ensures
        readings > 0 ==> r is Ok,
        readings == 0 ==> (r matches Err(ApiError::TankNotFound(m)) && m@
            == "No readings for tank ID: "@ + tank_id@),
{
    if readings == 0 {
        Err(ApiError::TankNotFound("No readings for tank ID: ".to_owned().concat(tank_id)))
    } else {
        Ok(())
    }
}

} // verus!
