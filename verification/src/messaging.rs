//! The events that the service announces on its message topics.
use vstd::prelude::*;
use crate::json::{field_views, json_object_of_strings, json_object_text};

verus! {

/// A string-typed message attribute.
#[derive(Debug, Clone, PartialEq, Eq)]
pub struct SnsAttribute {
    pub name: String,
    pub data_type: String,
    pub string_value: String,
}

/// Where and with which attributes an event is published. No topic means
/// that none is configured: the event is only logged.
#[derive(Debug, Clone, PartialEq, Eq)]
pub struct Envelope {
    pub topic_arn: Option<String>,
    pub attributes: Vec<SnsAttribute>,
}

/// The attribute `(name, "String", value)`.
pub open spec fn string_attribute(a: SnsAttribute, name: Seq<char>, value: Seq<char>) -> bool {
    a.name@ == name && a.data_type@ == "String"@ && a.string_value@ == value
}

/// The attributes of every event: its type, its id, when it was sent and,
/// where there is one, the trace it belongs to.
pub open spec fn attributes_match(
    attrs: Seq<SnsAttribute>,
    message_type: Seq<char>,
    message_id: Seq<char>,
    sent_at: Seq<char>,
    trace_id: Option<Seq<char>>,
) -> bool {
    &&& attrs.len() == if trace_id is Some { 4int } else { 3int }
    &&& string_attribute(attrs[0], "messageType"@, message_type)
    &&& string_attribute(attrs[1], "messageId"@, message_id)
    &&& string_attribute(attrs[2], "sentAt"@, sent_at)
    &&& trace_id matches Some(t) ==> string_attribute(attrs[3], "traceId"@, t)
}

fn string_attribute_of(name: &str, value: &str) -> (a: SnsAttribute)
    ensures
        string_attribute(a, name@, value@),
{
    SnsAttribute {
        name: String::from_str(name),
        data_type: String::from_str("String"),
        string_value: String::from_str(value),
    }
}

/// The attributes of an event.
pub fn sns_attributes(message_type: &str, message_id: &str, sent_at: &str, trace_id: Option<&str>) -> (attrs: Vec<SnsAttribute>)
    ensures
        attributes_match(
            attrs@,
            message_type@,
            message_id@,
            sent_at@,
            match trace_id {
                Some(t) => Some(t@),
                None => None,
            },
        ),
{
    let mut attrs: Vec<SnsAttribute> = Vec::new();
    attrs.push(string_attribute_of("messageType", message_type));
    attrs.push(string_attribute_of("messageId", message_id));
    attrs.push(string_attribute_of("sentAt", sent_at));
    match trace_id {
        Some(t) => attrs.push(string_attribute_of("traceId", t)),
        None => {},
    }
    attrs
}

/// How an event of type `message_type` is sent to `topic_arn`: to that topic,
/// or, where the topic is empty, nowhere.
pub fn envelope(topic_arn: &String, message_type: &str, message_id: &String, sent_at: &String) -> (env: Envelope)
    ensures
        topic_arn@.len() == 0 <==> env.topic_arn is None,
        env.topic_arn matches Some(t) ==> t == topic_arn,
        attributes_match(env.attributes@, message_type@, message_id@, sent_at@, None),
{
    let attributes = sns_attributes(message_type, message_id.as_str(), sent_at.as_str(), None);
    let topic = if topic_arn.as_str().unicode_len() == 0 {
        None
    } else {
        Some(topic_arn.clone())
    };
    Envelope { topic_arn: topic, attributes }
}

/// The members of a `match.status_changed` event, in the order they are
/// written.
pub open spec fn match_status_fields(
    match_id: Seq<char>,
    task_id: Seq<char>,
    volunteer_id: Seq<char>,
    status: Seq<char>,
    timestamp: Seq<char>,
) -> Seq<(Seq<char>, Seq<char>)> {
    seq![
        ("event"@, "match.status_changed"@),
        ("match_id"@, match_id),
        ("task_id"@, task_id),
        ("volunteer_id"@, volunteer_id),
        ("status"@, status),
        ("timestamp"@, timestamp),
    ]
}

fn field(key: &str, value: &str) -> (f: (String, String))
    ensures
        f.0@ == key@,
        f.1@ == value@,
{
    (String::from_str(key), String::from_str(value))
}

/// The JSON body of a `match.status_changed` event.
pub fn match_status_body(
    match_id: &String,
    task_id: &String,
    volunteer_id: &String,
    status: &String,
    timestamp: &String,
) -> (body: String)
    ensures
        body@ == json_object_text(
            match_status_fields(match_id@, task_id@, volunteer_id@, status@, timestamp@),
        ),
{
    let mut fields: Vec<(String, String)> = Vec::new();
    fields.push(field("event", "match.status_changed"));
    fields.push(field("match_id", match_id.as_str()));
    fields.push(field("task_id", task_id.as_str()));
    fields.push(field("volunteer_id", volunteer_id.as_str()));
    fields.push(field("status", status.as_str()));
    fields.push(field("timestamp", timestamp.as_str()));
    assert(field_views(fields@) =~= match_status_fields(
        match_id@,
        task_id@,
        volunteer_id@,
        status@,
        timestamp@,
    ));
    json_object_of_strings(&fields)
}

/// The JSON body of the health check: the service's status, name and
/// version.
pub fn health_report() -> (body: String)
    ensures
        body@ == json_object_text(
            seq![
                ("status"@, "ok"@),
                ("service"@, "VolunteerMatch Service"@),
                ("version"@, "1.0.0"@),
            ],
        ),
{
    let mut fields: Vec<(String, String)> = Vec::new();
    fields.push(field("status", "ok"));
    fields.push(field("service", "VolunteerMatch Service"));
    fields.push(field("version", "1.0.0"));
    assert(field_views(fields@) =~= seq![
        ("status"@, "ok"@),
        ("service"@, "VolunteerMatch Service"@),
        ("version"@, "1.0.0"@),
    ]);
    json_object_of_strings(&fields)
}

} // verus!
