//! Volunteers and the requests and replies about them.
use vstd::prelude::*;
use crate::clock::Timestamp;

verus! {

/// A registered volunteer. `C` is the type of a GPS coordinate (degrees);
/// the library carries coordinates without reading them.
#[derive(Debug, Clone, PartialEq)]
pub struct Volunteer<C> {
    pub volunteer_id: String,
    pub name: String,
    pub phone: String,
    pub skills: Vec<String>,
    pub area: String,
    /// `available` or `busy`.
    pub availability: String,
    pub last_lat: Option<C>,
    pub last_lng: Option<C>,
    pub location_updated_at: Option<Timestamp>,
    pub created_at: Timestamp,
}

/// A request to register a volunteer.
#[derive(Debug, Clone, PartialEq, Eq)]
pub struct RegisterVolunteerRequest {
    /// Full name.
    pub name: String,
    /// Phone number.
    pub phone: String,
    /// Skills, such as `driving` or `boat`.
    pub skills: Vec<String>,
    /// The area (a location id) where the volunteer can help.
    pub area: String,
}

/// The reply to a registration.
#[derive(Debug, Clone, PartialEq, Eq)]
pub struct RegisterVolunteerResponse {
    pub volunteer_id: String,
    pub availability: String,
    pub created_at: Timestamp,
}

/// A volunteer's last known position.
#[derive(Debug, Clone, PartialEq)]
pub struct LocationResponse<C> {
    pub volunteer_id: String,
    pub lat: C,
    pub lng: C,
    pub location_updated_at: Timestamp,
}

} // verus!
