//! Registering volunteers and answering for their location.
use vstd::prelude::*;
use crate::clock::{Timestamp, utc_now};
use crate::errors::AppError;
use crate::ids::{identifier_shape, new_identifier};
use crate::models::volunteer::{LocationResponse, RegisterVolunteerRequest, RegisterVolunteerResponse, Volunteer};
use crate::text::{blank, concat3, is_blank};

verus! {

/// A registration lacks a name, a phone number, skills or an area.
pub open spec fn registration_incomplete(req: RegisterVolunteerRequest) -> bool {
    ||| blank(req.name@)
    ||| blank(req.phone@)
    ||| req.skills@.len() == 0
    ||| blank(req.area@)
}

/// `e` is a bad-request error with message `m`.
pub open spec fn is_bad_request(e: AppError, m: Seq<char>) -> bool {
    e matches AppError::BadRequest(t) && t@ == m
}

/// `e` is a not-found error with message `m`.
pub open spec fn is_not_found(e: AppError, m: Seq<char>) -> bool {
    e matches AppError::NotFound(t) && t@ == m
}

pub open spec fn missing_fields_message() -> Seq<char> {
    "missing required fields: name, phone, skills, area"@
}

pub open spec fn volunteer_not_found_message(volunteer_id: Seq<char>) -> Seq<char> {
    "volunteer "@ + volunteer_id + " not found"@
}

/// Checks that a registration names the volunteer, a phone number, at least
/// one skill and an area.
pub fn validate_registration(req: &RegisterVolunteerRequest) -> (r: Result<(), AppError>)
    ensures
        r is Ok <==> !registration_incomplete(*req),
        r matches Err(e) ==> is_bad_request(e, missing_fields_message()),
        r is Ok <==> (!blank(req.name@) && !blank(req.phone@) && req.skills@.len() >= 1
            && !blank(req.area@)),
        r matches Err(e) ==> (e matches AppError::BadRequest(m) && m@
            == "missing required fields: name, phone, skills, area"@),
{
    if is_blank(req.name.as_str()) || is_blank(req.phone.as_str()) || req.skills.len() == 0
        || is_blank(req.area.as_str()) {
        return Err(
            AppError::BadRequest(
                String::from_str("missing required fields: name, phone, skills, area"),
            ),
        );
    }
    Ok(())
}

/// The record of a newly registered volunteer: available, with no position
/// reported yet.
pub fn volunteer_record<C>(req: RegisterVolunteerRequest, volunteer_id: String, now: Timestamp) -> (v: Volunteer<C>)
    ensures
        v.volunteer_id == volunteer_id,
        v.name == req.name,
        v.phone == req.phone,
        v.skills == req.skills,
        v.area == req.area,
        v.availability@ == "available"@,
        v.last_lat is None,
        v.last_lng is None,
        v.location_updated_at is None,
        v.created_at == now,
{
    Volunteer {
        volunteer_id,
        name: req.name,
        phone: req.phone,
        skills: req.skills,
        area: req.area,
        availability: String::from_str("available"),
        last_lat: None,
        last_lng: None,
        location_updated_at: None,
        created_at: now,
    }
}

/// Validates a registration and builds the new volunteer's record, with a
/// fresh `VOL-` identifier and the current time.
pub fn register_volunteer<C>(req: RegisterVolunteerRequest) -> (r: Result<Volunteer<C>, AppError>)
    ensures
        r is Ok <==> !registration_incomplete(req),
        r matches Err(e) ==> is_bad_request(e, missing_fields_message()),
        r is Ok <==> (!blank(req.name@) && !blank(req.phone@) && req.skills@.len() >= 1
            && !blank(req.area@)),
        r matches Err(e) ==> (e matches AppError::BadRequest(m) && m@
            == "missing required fields: name, phone, skills, area"@),
        r matches Ok(v) ==> {
            &&& identifier_shape("VOL-"@, v.volunteer_id@)
            &&& v.name == req.name
            &&& v.phone == req.phone
            &&& v.skills == req.skills
            &&& v.area == req.area
            &&& v.availability@ == "available"@
            &&& v.last_lat is None
            &&& v.last_lng is None
            &&& v.location_updated_at is None
        },
{
    validate_registration(&req)?;
    let volunteer_id = new_identifier("VOL-");
    let now = utc_now();
    Ok(volunteer_record(req, volunteer_id, now))
}

/// The reply to a registration.
pub fn registration_response<C>(v: &Volunteer<C>) -> (resp: RegisterVolunteerResponse)
    ensures
        resp.volunteer_id == v.volunteer_id,
        resp.availability == v.availability,
        resp.created_at == v.created_at,
{
    RegisterVolunteerResponse {
        volunteer_id: v.volunteer_id.clone(),
        availability: v.availability.clone(),
        created_at: v.created_at,
    }
}

/// The outcome of storing a new position, given how many volunteer rows the
/// store changed: none means that no such volunteer exists.
pub fn location_update_result(volunteer_id: &String, rows_affected: u64) -> (r: Result<(), AppError>)
    ensures
        r is Ok <==> rows_affected != 0,
        r matches Err(e) ==> is_not_found(e, volunteer_not_found_message(volunteer_id@)),
{
    if rows_affected == 0 {
        return Err(AppError::NotFound(concat3("volunteer ", volunteer_id.as_str(), " not found")));
    }
    Ok(())
}

/// The last known position of the volunteer `volunteer_id`, given the record
/// that the store found for it. Where the record has no time of the last
/// report, the current time stands in its place.
pub fn locate<C>(volunteer_id: &String, found: Option<Volunteer<C>>) -> (r: Result<LocationResponse<C>, AppError>)
    ensures
        found is None ==> (r matches Err(e) && is_not_found(e, volunteer_not_found_message(volunteer_id@))),
        found matches Some(v) ==> {
            if v.last_lat is Some && v.last_lng is Some {
                &&& r matches Ok(loc)
                &&& loc.volunteer_id == v.volunteer_id
                &&& loc.lat == v.last_lat->0
                &&& loc.lng == v.last_lng->0
                &&& v.location_updated_at matches Some(t) ==> loc.location_updated_at == t
            } else {
                (r matches Err(e) && is_not_found(e, "no GPS data yet"@))
            }
        },
{
    match found {
        None => Err(AppError::NotFound(concat3("volunteer ", volunteer_id.as_str(), " not found"))),
        Some(v) => match (v.last_lat, v.last_lng) {
            (Some(lat), Some(lng)) => {
                let location_updated_at = match v.location_updated_at {
                    Some(t) => t,
                    None => utc_now(),
                };
                Ok(LocationResponse { volunteer_id: v.volunteer_id, lat, lng, location_updated_at })
            },
            _ => Err(AppError::NotFound(String::from_str("no GPS data yet"))),
        },
    }
}

/// A registration is refused exactly when its name, phone number or area
/// is blank or it lists no skill; one skill is enough.
pub proof fn lemma_registration_rule(req: RegisterVolunteerRequest)
    ensures
        registration_incomplete(req) <==> (blank(req.name@) || blank(req.phone@)
            || req.skills@.len() == 0 || blank(req.area@)),
        missing_fields_message() == "missing required fields: name, phone, skills, area"@,
{
}

} // verus!
