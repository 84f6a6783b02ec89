use sami_bridge::codec::{decode_data, decode_data_list, decode_page};
use sami_bridge::error::AkcClientError;
use sami_bridge::json::{Json, JsonMember};
use sami_bridge::model::{Device, FieldData, FieldEntry, FieldValue, Snapshot, User};
use sami_bridge::nlp::{Intent, NlpResponse};
use sami_bridge::pipeline::{generate_response, Caches, Fetch, MessageToUser, Progress, Reply, Resolution, Status};
use sami_bridge::token::Token;

fn token() -> Token {
    Token::from_access_token("tok-123".to_string())
}

fn ada() -> User {
    User { id: "u1".to_string(), full_name: "Ada Lovelace".to_string(), email: "ada@example.com".to_string() }
}

fn lamp() -> Device {
    Device { id: "d1".to_string(), dtid: "t1".to_string(), name: "Kitchen Lamp".to_string() }
}

fn get_field(device: &[&str], field: &str) -> NlpResponse {
    NlpResponse {
        intent: Intent::GetField,
        device: Some(device.iter().map(|d| d.to_string()).collect()),
        field: Some(field.to_string()),
        ..NlpResponse::default()
    }
}

fn snapshot(entries: Vec<FieldEntry>) -> Snapshot {
    Snapshot { sdid: "d1".to_string(), data: FieldData::Group(entries) }
}

fn brightness_leaf() -> FieldEntry {
    FieldEntry { name: "brightness".to_string(), data: FieldData::Field { ts: Some(100), value: FieldValue::Int(42) } }
}

fn waiting(p: Progress) -> (Resolution, Fetch) {
    match p {
        Progress::Await(r, f) => (r, f),
        Progress::Done(_) => panic!("expected a fetch"),
    }
}

fn done(p: Progress) -> MessageToUser {
    match p {
        Progress::Done(m) => m,
        Progress::Await(..) => panic!("expected a reply"),
    }
}

/// Drives a field request through user, devices and snapshot answers.
fn field_request(snap: Vec<Snapshot>) -> MessageToUser {
    let mut caches = Caches::new();
    let (res, fetch) = waiting(generate_response(token(), get_field(&["lamp"], "brightness"), &caches, 0));
    assert!(matches!(fetch, Fetch::User));
    let (res, fetch) = waiting(res.resume(Reply::User(Ok(ada())), &mut caches, 0));
    assert!(matches!(fetch, Fetch::Devices { ref owner_id } if owner_id == "u1"));
    let (res, fetch) = waiting(res.resume(Reply::Devices(Ok(vec![lamp()])), &mut caches, 0));
    assert!(matches!(fetch, Fetch::Snapshots { ref device_id } if device_id == "d1"));
    done(res.resume(Reply::Snapshots(Ok(snap)), &mut caches, 0))
}

#[test]
fn get_self_reports_full_name() {
    let mut caches = Caches::new();
    let nlp = NlpResponse { intent: Intent::GetSelf, ..NlpResponse::default() };
    let (res, fetch) = waiting(generate_response(token(), nlp, &caches, 0));
    assert!(matches!(fetch, Fetch::User));
    let m = done(res.resume(Reply::User(Ok(ada())), &mut caches, 0));
    assert_eq!(m.intent, Intent::GetSelf);
    assert_eq!(m.data, vec!["Ada Lovelace".to_string()]);
    assert_eq!(m.status, Status::Info);
}

#[test]
fn get_self_uses_cached_user() {
    let mut caches = Caches::new();
    caches.users.store("tok-123".to_string(), ada(), 10);
    let nlp = NlpResponse { intent: Intent::GetSelf, ..NlpResponse::default() };
    let m = done(generate_response(token(), nlp, &caches, 20));
    assert_eq!(m.data, vec!["Ada Lovelace".to_string()]);
}

#[test]
fn get_field_reports_value() {
    let m = field_request(vec![snapshot(vec![brightness_leaf()])]);
    assert_eq!(m.intent, Intent::GetField);
    assert_eq!(m.status, Status::Info);
    assert_eq!(m.data, vec!["Kitchen Lamp".to_string(), "brightness".to_string(), "42".to_string()]);
}

#[test]
fn get_field_without_leaf_is_not_found() {
    let other = FieldEntry { name: "temp".to_string(), data: FieldData::Field { ts: None, value: FieldValue::Int(20) } };
    let m = field_request(vec![snapshot(vec![other])]);
    assert_eq!(m.intent, Intent::GetField);
    assert_eq!(m.status, Status::Error);
    assert_eq!(m.data, vec!["Kitchen Lamp".to_string(), "brightness".to_string()]);
}

#[test]
fn get_field_remote_failure_forces_logout() {
    let rejected = || AkcClientError::AkcError(401, "unauthorized".to_string());
    // At the user lookup.
    let mut caches = Caches::new();
    let (res, _) = waiting(generate_response(token(), get_field(&["lamp"], "brightness"), &caches, 0));
    let m = done(res.resume(Reply::User(Err(rejected())), &mut caches, 0));
    assert_eq!(m.intent, Intent::ForcedLogout);
    assert_eq!(m.data, vec!["tok-123".to_string()]);
    assert_eq!(m.status, Status::Error);
    // At the device lookup.
    let (res, _) = waiting(generate_response(token(), get_field(&["lamp"], "brightness"), &caches, 0));
    let (res, _) = waiting(res.resume(Reply::User(Ok(ada())), &mut caches, 0));
    let m = done(res.resume(Reply::Devices(Err(rejected())), &mut caches, 0));
    assert_eq!(m.intent, Intent::ForcedLogout);
    assert_eq!(m.data, vec!["tok-123".to_string()]);
    // At the snapshot lookup.
    let (res, _) = waiting(generate_response(token(), get_field(&["lamp"], "brightness"), &caches, 0));
    let (res, _) = waiting(res.resume(Reply::Devices(Ok(vec![lamp()])), &mut caches, 0));
    let m = done(res.resume(Reply::Snapshots(Err(rejected())), &mut caches, 0));
    assert_eq!(m.intent, Intent::ForcedLogout);
    assert_eq!(m.data, vec!["tok-123".to_string()]);
}

#[test]
fn no_snapshot_counts_as_remote_failure() {
    let m = field_request(Vec::new());
    assert_eq!(m.intent, Intent::ForcedLogout);
}

#[test]
fn unmatched_device_hint_is_not_found() {
    let mut caches = Caches::new();
    caches.users.store("tok-123".to_string(), ada(), 0);
    let (res, _) = waiting(generate_response(token(), get_field(&["kitchen", "fan"], "brightness"), &caches, 0));
    let m = done(res.resume(Reply::Devices(Ok(vec![lamp()])), &mut caches, 0));
    assert_eq!(m.intent, Intent::GetField);
    assert_eq!(m.status, Status::Error);
    assert_eq!(m.data, vec!["kitchen fan".to_string()]);
}

#[test]
fn devices_come_from_cache_within_ttl() {
    let mut caches = Caches::new();
    caches.users.store("tok-123".to_string(), ada(), 0);
    caches.devices.store("tok-123".to_string(), vec![lamp()], 0);
    let (_, fetch) = waiting(generate_response(token(), get_field(&["lamp"], "brightness"), &caches, 60));
    assert!(matches!(fetch, Fetch::Snapshots { .. }));
    let (_, fetch) = waiting(generate_response(token(), get_field(&["lamp"], "brightness"), &caches, 60 * 30));
    assert!(matches!(fetch, Fetch::Devices { .. }));
}

#[test]
fn mismatched_reply_keeps_waiting() {
    let mut caches = Caches::new();
    let (res, _) = waiting(generate_response(token(), get_field(&["lamp"], "brightness"), &caches, 0));
    let (_, fetch) = waiting(res.resume(Reply::Devices(Ok(vec![lamp()])), &mut caches, 0));
    assert!(matches!(fetch, Fetch::User));
}

#[test]
fn logout_echoes_credential() {
    let caches = Caches::new();
    let nlp = NlpResponse { intent: Intent::Logout, ..NlpResponse::default() };
    let m = done(generate_response(token(), nlp, &caches, 0));
    assert_eq!(m.intent, Intent::Logout);
    assert_eq!(m.data, vec!["tok-123".to_string()]);
    assert_eq!(m.status, Status::Confirmation);
}

#[test]
fn other_intent_passes_meta_through() {
    let caches = Caches::new();
    let nlp = NlpResponse { intent: Intent::Unknown, meta: Some(vec!["dance".to_string()]), ..NlpResponse::default() };
    let m = done(MessageToUser::from(token(), nlp, &caches, 0));
    assert_eq!(m.intent, Intent::Unknown);
    assert_eq!(m.data, vec!["dance".to_string()]);
    assert_eq!(m.status, Status::Error);
}

#[test]
fn missing_hints_get_defaults() {
    let mut caches = Caches::new();
    caches.users.store("tok-123".to_string(), ada(), 0);
    let nlp = NlpResponse { intent: Intent::GetField, ..NlpResponse::default() };
    let (res, _) = waiting(generate_response(token(), nlp, &caches, 0));
    assert_eq!(res.device_hints, vec!["no device specified".to_string()]);
    assert_eq!(res.field_hint, "no field");
}

fn obj(members: Vec<(&str, Json)>) -> Json {
    Json::Object(members.into_iter().map(|(k, v)| JsonMember { key: k.to_string(), value: v }).collect())
}

#[test]
fn get_field_from_wire_answers() {
    let s = |t: &str| Json::Str(t.to_string());
    let user_body = obj(vec![("data", obj(vec![("id", s("u1")), ("fullName", s("Ada Lovelace")), ("email", s("a@b.c"))]))]);
    let devices_body = obj(vec![
        ("data", obj(vec![("devices", Json::Array(vec![obj(vec![("id", s("d1")), ("dtid", s("t1")), ("name", s("Kitchen Lamp"))])]))])),
        ("total", Json::Int(1)),
        ("count", Json::Int(1)),
    ]);
    let snapshot_body = obj(vec![("data", Json::Array(vec![obj(vec![
        ("sdid", s("d1")),
        ("data", obj(vec![("brightness", obj(vec![("ts", Json::Int(100)), ("value", Json::Int(42))]))])),
    ])]))]);
    let mut caches = Caches::new();
    let (res, _) = waiting(generate_response(token(), get_field(&["lamp"], "brightness"), &caches, 0));
    let (res, _) = waiting(res.resume(Reply::User(decode_data(200, &user_body)), &mut caches, 0));
    let devices = decode_page::<Device>(200, &devices_body, "devices").map(|p| p.items);
    let (res, _) = waiting(res.resume(Reply::Devices(devices), &mut caches, 0));
    let m = done(res.resume(Reply::Snapshots(decode_data_list(200, &snapshot_body)), &mut caches, 0));
    assert_eq!(m.status, Status::Info);
    assert_eq!(m.data, vec!["Kitchen Lamp".to_string(), "brightness".to_string(), "42".to_string()]);
}
