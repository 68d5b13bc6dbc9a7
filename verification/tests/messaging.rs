use volunteer_match::messaging::{envelope, health_report, match_status_body, sns_attributes, SnsAttribute};

fn attr(name: &str, value: &str) -> SnsAttribute {
    SnsAttribute { name: name.to_string(), data_type: "String".to_string(), string_value: value.to_string() }
}

#[test]
fn attributes_of_an_event() {
    let a = sns_attributes("match.status_changed", "id-1", "2024-01-01T00:00:00+00:00", None);
    assert_eq!(
        a,
        vec![
            attr("messageType", "match.status_changed"),
            attr("messageId", "id-1"),
            attr("sentAt", "2024-01-01T00:00:00+00:00"),
        ]
    );
    let a = sns_attributes("t", "i", "s", Some("trace-9"));
    assert_eq!(a.len(), 4);
    assert_eq!(a[3], attr("traceId", "trace-9"));
}

#[test]
fn empty_topic_means_log_only() {
    let e = envelope(&String::new(), "volunteer.location_updated", &"m".to_string(), &"s".to_string());
    assert_eq!(e.topic_arn, None);
    assert_eq!(e.attributes[0], attr("messageType", "volunteer.location_updated"));
    let arn = "arn:aws:sns:ap-southeast-1:1:match".to_string();
    let e = envelope(&arn, "match.status_changed", &"m".to_string(), &"s".to_string());
    assert_eq!(e.topic_arn, Some(arn));
}

#[test]
fn match_status_body_is_json() {
    let body = match_status_body(
        &"MATCH-1".to_string(),
        &"TASK-1".to_string(),
        &"VOL-1".to_string(),
        &"pending".to_string(),
        &"2024-01-01T00:00:00+00:00".to_string(),
    );
    assert_eq!(
        body,
        "{\"event\":\"match.status_changed\",\"match_id\":\"MATCH-1\",\"status\":\"pending\",\"task_id\":\"TASK-1\",\"timestamp\":\"2024-01-01T00:00:00+00:00\",\"volunteer_id\":\"VOL-1\"}"
    );
}

#[test]
fn health_report_body() {
    assert_eq!(
        health_report(),
        "{\"service\":\"VolunteerMatch Service\",\"status\":\"ok\",\"version\":\"1.0.0\"}"
    );
}
