use sami_bridge::codec::{decode_data, decode_data_list, decode_envelope, decode_page, Page};
use sami_bridge::error::AkcClientError;
use sami_bridge::json::{Json, JsonMember};
use sami_bridge::model::{Device, DeviceType, FieldData, FieldValue, FromJson, Snapshot, User};
use sami_bridge::text::{contains_text, name_matches};

fn obj(members: Vec<(&str, Json)>) -> Json {
    Json::Object(members.into_iter().map(|(k, v)| JsonMember { key: k.to_string(), value: v }).collect())
}

fn s(t: &str) -> Json {
    Json::Str(t.to_string())
}

#[test]
fn envelope_success_gives_data() {
    let body = obj(vec![("data", Json::Int(5))]);
    assert!(matches!(decode_envelope(200, &body), Ok(Json::Int(5))));
}

#[test]
fn envelope_failure_gives_remote_error() {
    let body = obj(vec![("error", obj(vec![("code", Json::Int(401)), ("message", s("Please provide a valid authorization header"))]))]);
    match decode_envelope(401, &body) {
        Err(AkcClientError::AkcError(code, message)) => {
            assert_eq!(code, 401);
            assert_eq!(message, "Please provide a valid authorization header");
        }
        _ => panic!("expected a remote error"),
    }
}

#[test]
fn envelope_of_wrong_shape_is_decode_error() {
    let body = obj(vec![("oops", Json::Null)]);
    for status in [200u16, 500u16] {
        match decode_envelope(status, &body) {
            Err(AkcClientError::InternalError(m)) => assert_eq!(m, "error parsing json: unexpected shape"),
            _ => panic!("expected a decode error"),
        }
    }
}

#[test]
fn user_payload_decodes() {
    let body = obj(vec![("data", obj(vec![("id", s("u1")), ("fullName", s("Ada Lovelace")), ("email", s("ada@example.com"))]))]);
    let user: User = match decode_data(200, &body) {
        Ok(u) => u,
        Err(_) => panic!("expected a user"),
    };
    assert_eq!(user.full_name, "Ada Lovelace");
    assert_eq!(user.id, "u1");
    let missing = obj(vec![("data", obj(vec![("id", s("u1"))]))]);
    assert!(decode_data::<User>(200, &missing).is_err());
}

#[test]
fn device_page_decodes() {
    let body = obj(vec![
        ("data", obj(vec![("devices", Json::Array(vec![obj(vec![("id", s("d1")), ("dtid", s("t1")), ("name", s("Kitchen Lamp"))])]))])),
        ("total", Json::Int(1)),
        ("count", Json::Int(1)),
        ("offset", Json::Int(0)),
    ]);
    let page: Page<Device> = match decode_page(200, &body, "devices") {
        Ok(p) => p,
        Err(_) => panic!("expected a page"),
    };
    assert_eq!(page.total, 1);
    assert_eq!(page.count, 1);
    assert_eq!(page.items.len(), 1);
    assert_eq!(page.items[0].name, "Kitchen Lamp");
    let bad_total = obj(vec![("data", obj(vec![("devices", Json::Array(vec![]))])), ("total", Json::Int(-1)), ("count", Json::Int(0))]);
    assert!(decode_page::<Device>(200, &bad_total, "devices").is_err());
}

#[test]
fn device_type_decodes() {
    let j = obj(vec![("id", s("t1")), ("uniqueName", s("cloud.lamp")), ("name", s("Lamp"))]);
    let t = DeviceType::from_json(&j).expect("a device type");
    assert_eq!(t.unique_name, "cloud.lamp");
}

#[test]
fn leaf_and_group_are_told_apart_by_keys() {
    let leaf = obj(vec![("ts", Json::Int(100)), ("value", Json::Int(42))]);
    assert!(matches!(FieldData::from_json(&leaf), Some(FieldData::Field { ts: Some(100), value: FieldValue::Int(42) })));
    let no_ts = obj(vec![("value", Json::Bool(true))]);
    assert!(matches!(FieldData::from_json(&no_ts), Some(FieldData::Field { ts: None, value: FieldValue::Boolean(true) })));
    let group = obj(vec![("value", obj(vec![("ts", Json::Int(1)), ("value", Json::Int(2))]))]);
    match FieldData::from_json(&group) {
        Some(FieldData::Group(entries)) => {
            assert_eq!(entries.len(), 1);
            assert_eq!(entries[0].name, "value");
        }
        _ => panic!("expected a group"),
    }
    let bare_scalar = obj(vec![("x", Json::Int(5))]);
    assert!(FieldData::from_json(&bare_scalar).is_none());
    assert!(FieldData::from_json(&Json::Int(5)).is_none());
}

#[test]
fn snapshot_list_decodes() {
    let body = obj(vec![("data", Json::Array(vec![obj(vec![
        ("sdid", s("d1")),
        ("data", obj(vec![("brightness", obj(vec![("ts", Json::Int(100)), ("value", Json::Int(42))]))])),
    ])]))]);
    let snaps: Vec<Snapshot> = match decode_data_list(200, &body) {
        Ok(v) => v,
        Err(_) => panic!("expected snapshots"),
    };
    assert_eq!(snaps.len(), 1);
    assert_eq!(snaps[0].sdid, "d1");
}

#[test]
fn field_values_render() {
    assert_eq!(FieldValue::Int(42).text(), "42");
    assert_eq!(FieldValue::Int(-7).text(), "-7");
    assert_eq!(FieldValue::Boolean(false).text(), "false");
    assert_eq!(FieldValue::String("on".to_string()).text(), "\"on\"");
    assert_eq!(FieldValue::Float("21.5".to_string()).text(), "21.5");
    let huge = FieldValue::from_json(&Json::Int(u64::MAX as i128)).expect("a value");
    assert!(matches!(huge, FieldValue::Float(ref t) if t == "18446744073709551615"));
}

#[test]
fn name_matching_ignores_case() {
    assert!(name_matches("Kitchen Lamp", "lamp"));
    assert!(name_matches("Kitchen Lamp", "LAMP"));
    assert!(!name_matches("Kitchen Lamp", "fan"));
    assert!(contains_text("abc", ""));
    assert!(!contains_text("Lamp", "lamp"));
    assert!(contains_text("kitchen lamp", "n l"));
}
