use volunteer_match::clock::Timestamp;
use volunteer_match::errors::AppError;
use volunteer_match::models::volunteer::{RegisterVolunteerRequest, Volunteer};
use volunteer_match::text::is_blank;
use volunteer_match::volunteers::{
    locate, location_update_result, register_volunteer, registration_response, validate_registration,
};

fn request() -> RegisterVolunteerRequest {
    RegisterVolunteerRequest {
        name: "Somchai".to_string(),
        phone: "0812345678".to_string(),
        skills: vec!["driving".to_string(), "boat".to_string()],
        area: "LOC-1".to_string(),
    }
}

fn missing() -> AppError {
    AppError::BadRequest("missing required fields: name, phone, skills, area".to_string())
}

fn is_upper_hex(s: &str) -> bool {
    s.chars().all(|c| c.is_ascii_digit() || ('A'..='F').contains(&c))
}

#[test]
fn blank_text_is_only_whitespace() {
    assert!(is_blank(""));
    assert!(is_blank("  \t\n"));
    assert!(is_blank("\u{3000}\u{a0}"));
    assert!(!is_blank(" a "));
    assert!(!is_blank("x"));
}

#[test]
fn registration_needs_every_field() {
    assert_eq!(validate_registration(&request()), Ok(()));
    let mut r = request();
    r.name = "   ".to_string();
    assert_eq!(validate_registration(&r), Err(missing()));
    let mut r = request();
    r.phone = String::new();
    assert_eq!(validate_registration(&r), Err(missing()));
    let mut r = request();
    r.skills = vec![];
    assert_eq!(validate_registration(&r), Err(missing()));
    let mut r = request();
    r.area = "\t".to_string();
    assert_eq!(validate_registration(&r), Err(missing()));
}

#[test]
fn registered_volunteer_is_available_without_position() {
    let v: Volunteer<f64> = register_volunteer(request()).unwrap();
    assert!(v.volunteer_id.starts_with("VOL-"));
    assert_eq!(v.volunteer_id.len(), 12);
    assert!(is_upper_hex(&v.volunteer_id[4..]));
    assert_eq!(v.name, "Somchai");
    assert_eq!(v.skills, vec!["driving".to_string(), "boat".to_string()]);
    assert_eq!(v.availability, "available");
    assert_eq!(v.last_lat, None);
    assert_eq!(v.last_lng, None);
    assert_eq!(v.location_updated_at, None);
    let resp = registration_response(&v);
    assert_eq!(resp.volunteer_id, v.volunteer_id);
    assert_eq!(resp.availability, "available");
    assert_eq!(resp.created_at, v.created_at);
}

#[test]
fn fresh_ids_differ() {
    let a: Volunteer<f64> = register_volunteer(request()).unwrap();
    let b: Volunteer<f64> = register_volunteer(request()).unwrap();
    assert_ne!(a.volunteer_id, b.volunteer_id);
}

#[test]
fn incomplete_registration_is_refused() {
    let mut r = request();
    r.skills = vec![];
    let out: Result<Volunteer<f64>, AppError> = register_volunteer(r);
    assert_eq!(out, Err(missing()));
}

#[test]
fn location_update_of_unknown_volunteer() {
    let id = "VOL-1234ABCD".to_string();
    assert_eq!(location_update_result(&id, 1), Ok(()));
    assert_eq!(
        location_update_result(&id, 0),
        Err(AppError::NotFound("volunteer VOL-1234ABCD not found".to_string()))
    );
}

fn stored(lat: Option<f64>, lng: Option<f64>, at: Option<Timestamp>) -> Volunteer<f64> {
    Volunteer {
        volunteer_id: "VOL-1".to_string(),
        name: "n".to_string(),
        phone: "p".to_string(),
        skills: vec!["boat".to_string()],
        area: "LOC-1".to_string(),
        availability: "available".to_string(),
        last_lat: lat,
        last_lng: lng,
        location_updated_at: at,
        created_at: Timestamp { secs: 1, nanos: 0 },
    }
}

#[test]
fn locate_reports_last_position() {
    let at = Timestamp { secs: 1_700_000_000, nanos: 5 };
    let loc = locate(&"VOL-1".to_string(), Some(stored(Some(13.75), Some(100.5), Some(at)))).unwrap();
    assert_eq!(loc.volunteer_id, "VOL-1");
    assert_eq!(loc.lat, 13.75);
    assert_eq!(loc.lng, 100.5);
    assert_eq!(loc.location_updated_at, at);
}

#[test]
fn locate_without_time_uses_now() {
    let loc = locate(&"VOL-1".to_string(), Some(stored(Some(13.75), Some(100.5), None))).unwrap();
    assert!(loc.location_updated_at.secs > 1_600_000_000);
}

#[test]
fn locate_errors() {
    let id = "VOL-9".to_string();
    assert_eq!(
        locate::<f64>(&id, None),
        Err(AppError::NotFound("volunteer VOL-9 not found".to_string()))
    );
    assert_eq!(
        locate(&id, Some(stored(Some(1.0), None, None))),
        Err(AppError::NotFound("no GPS data yet".to_string()))
    );
    assert_eq!(
        locate(&id, Some(stored(None, None, None))),
        Err(AppError::NotFound("no GPS data yet".to_string()))
    );
}

#[test]
fn message_ids_are_uuid_text() {
    let a = volunteer_match::ids::new_message_id();
    let b = volunteer_match::ids::new_message_id();
    assert_eq!(a.len(), 36);
    assert_eq!(&a[8..9], "-");
    assert_ne!(a, b);
}
