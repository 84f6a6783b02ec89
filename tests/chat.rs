use sami_bridge::akc::Akc;
use sami_bridge::hipchat::{notification_from_message, Color, Database as Installations, Installation};
use sami_bridge::json::{Json, JsonMember};
use sami_bridge::keyed::Keyed;
use sami_bridge::model::FromJson;
use sami_bridge::nlp::{Intent, NlpResponse, Response};
use sami_bridge::oauth2::{exchange_outcome, AuthorizationCode, Error, Oauth2ErrorMessage};
use sami_bridge::pipeline::{join_words, MessageToUser, Status};
use sami_bridge::report::{passes_unlogged, LogMessage, MyError};
use sami_bridge::token::{Database, Token};

fn msg(intent: Intent, data: &[&str], status: Status) -> MessageToUser {
    MessageToUser { intent, data: data.iter().map(|d| d.to_string()).collect(), status }
}

fn entity(name: &str, values: &[&str]) -> Keyed<Vec<String>> {
    Keyed { key: name.to_string(), value: values.iter().map(|v| v.to_string()).collect() }
}

fn obj(members: Vec<(&str, Json)>) -> Json {
    Json::Object(members.into_iter().map(|(k, v)| JsonMember { key: k.to_string(), value: v }).collect())
}

#[test]
fn field_value_notification() {
    let mut db = Database::new();
    let n = notification_from_message(msg(Intent::GetField, &["Kitchen Lamp", "brightness", "42"], Status::Info), &mut db);
    assert_eq!(n.message, "Kitchen Lamp's brightness is 42.");
    assert_eq!(n.color, Color::Purple);
    let n = notification_from_message(msg(Intent::GetField, &["Kitchen Lamp", "brightness"], Status::Error), &mut db);
    assert_eq!(n.message, "No field 'brightness' found for device 'Kitchen Lamp'.");
    assert_eq!(n.color, Color::Red);
    let n = notification_from_message(msg(Intent::GetField, &["lamp"], Status::Error), &mut db);
    assert_eq!(n.message, "No device found for 'lamp'.");
}

#[test]
fn other_notifications() {
    let mut db = Database::new();
    let n = notification_from_message(msg(Intent::GetSelf, &["Ada Lovelace"], Status::Info), &mut db);
    assert_eq!(n.message, "You are connected as Ada Lovelace.");
    let n = notification_from_message(msg(Intent::Unknown, &["dance"], Status::Error), &mut db);
    assert_eq!(n.message, "Unknown intent: \"dance\"");
    let n = notification_from_message(msg(Intent::Unknown, &[], Status::Error), &mut db);
    assert_eq!(n.message, "Unknown intent: \"'no intent found'\"");
    let n = notification_from_message(msg(Intent::SetField, &[], Status::ActionRequired), &mut db);
    assert_eq!(n.message, "SetField not yet done");
    assert_eq!(n.color, Color::Yellow);
}

#[test]
fn logout_forgets_every_conversation_with_the_credential() {
    let mut db = Database::new();
    db.add_token("room-1".to_string(), Token::from_access_token("tok".to_string()));
    db.add_token("room-2".to_string(), Token::from_access_token("tok".to_string()));
    db.add_token("room-3".to_string(), Token::from_access_token("other".to_string()));
    let n = notification_from_message(msg(Intent::ForcedLogout, &["tok"], Status::Error), &mut db);
    assert_eq!(n.message, "Error communicating with ARTIK Cloud. You have been logged out.");
    assert!(db.get_token("room-1".to_string()).is_none());
    assert!(db.get_token("room-2".to_string()).is_none());
    assert_eq!(db.get_token("room-3".to_string()).map(|t| t.access_token().to_string()), Some("other".to_string()));
    let n = notification_from_message(msg(Intent::Logout, &["other"], Status::Confirmation), &mut db);
    assert_eq!(n.message, "You are now logged out.");
    assert_eq!(n.color, Color::Green);
    assert!(db.tokens.is_empty());
}

#[test]
fn token_store_replaces_and_reports_bearer() {
    let mut db = Database::new();
    db.add_token("room".to_string(), Token::from_access_token("a".to_string()));
    db.add_token("room".to_string(), Token::from_access_token("b".to_string()));
    assert_eq!(db.tokens.len(), 1);
    assert_eq!(db.bearer_for("room".to_string()), "b");
    assert_eq!(db.bearer_for("nobody".to_string()), "missing_bearer");
}

#[test]
fn language_answer_is_understood() {
    let resp = Response {
        msg_id: "m".to_string(),
        text: "what is the kitchen lamp brightness".to_string(),
        entities: vec![entity("intent", &["get_field"]), entity("target", &["Kitchen", "LAMP"]), entity("field", &["Brightness", "x"])],
    };
    let n = NlpResponse::from_response(resp);
    assert_eq!(n.intent, Intent::GetField);
    assert_eq!(n.device, Some(vec!["kitchen".to_string(), "lamp".to_string()]));
    assert_eq!(n.field, Some("brightness".to_string()));
    let resp = Response { msg_id: "m".to_string(), text: "hi".to_string(), entities: vec![entity("intent", &["get_self"])] };
    assert_eq!(NlpResponse::from_response(resp).intent, Intent::GetSelf);
    let resp = Response { msg_id: "m".to_string(), text: "hi".to_string(), entities: vec![entity("intent", &["dance", "sing"])] };
    let n = NlpResponse::from_response(resp);
    assert_eq!(n.intent, Intent::Unknown);
    assert_eq!(n.meta, Some(vec!["dance".to_string(), "sing".to_string()]));
    let resp = Response { msg_id: "m".to_string(), text: "hi".to_string(), entities: vec![] };
    let n = NlpResponse::from_response(resp);
    assert_eq!(n.intent, Intent::Unknown);
    assert_eq!(n.meta, None);
}

#[test]
fn installations_are_found_by_oauth_id() {
    let mut db = Installations::new();
    let inst = |id: &str, room: i32| Installation {
        oauth_id: id.to_string(),
        oauth_secret: "s".to_string(),
        room_id: room,
        group_id: 1,
        capabilities_url: "https://example.com/cap".to_string(),
    };
    db.add_installation(inst("a", 1));
    db.add_installation(inst("b", 2));
    db.add_installation(inst("a", 3));
    assert_eq!(db.get_installation("a".to_string()).map(|i| i.room_id), Some(1));
    assert_eq!(db.get_installation("b".to_string()).map(|i| i.room_id), Some(2));
    assert!(db.get_installation("c".to_string()).is_none());
}

#[test]
fn records_and_helpers() {
    let e = MyError::new("missing body");
    assert_eq!(e.error, "missing body");
    assert_eq!(e.id.len(), 36);
    let l = LogMessage::new("oops");
    assert_eq!(l.details, "oops");
    assert!(l.url.is_none());
    assert!(passes_unlogged(None));
    assert!(passes_unlogged(Some(201)));
    assert!(!passes_unlogged(Some(404)));
    assert_eq!(join_words(&vec!["a".to_string(), "b".to_string()]), "a b");
    assert_eq!(AuthorizationCode { code: "xyz".to_string() }.form_body(), "grant_type=authorization_code&code=xyz");
}

#[test]
fn api_addresses() {
    assert_eq!(Akc::user_self_url(), "https://api.artik.cloud/v1.1/users/self");
    assert_eq!(Akc::devices_url("u1"), "https://api.artik.cloud/v1.1/users/u1/devices");
    let q = Akc::page_query(200);
    assert_eq!((q[0].key.as_str(), q[0].value.as_str()), ("offset", "200"));
    assert_eq!((q[1].key.as_str(), q[1].value.as_str()), ("count", "100"));
    let q = Akc::snapshots_query(&vec!["d1".to_string(), "d2".to_string()]);
    assert_eq!(q[0].value, "d1,d2");
}

#[test]
fn token_exchange_answers() {
    let ok = obj(vec![
        ("access_token", Json::Str("at".to_string())),
        ("refresh_token", Json::Str("rt".to_string())),
        ("token_type", Json::Str("bearer".to_string())),
        ("expires_in", Json::Int(3600)),
    ]);
    match exchange_outcome(200, &ok, 1000) {
        Ok(t) => {
            assert_eq!(t.access_token, "at");
            assert_eq!(t.refresh_token, Some("rt".to_string()));
            assert_eq!(t.expires_at, Some(4600));
        }
        Err(_) => panic!("expected a token"),
    }
    let refused = obj(vec![("error", Json::Str("invalid_grant".to_string()))]);
    match exchange_outcome(400, &refused, 0) {
        Err(Error::Oauth2Error(e)) => {
            assert_eq!(e.error, Oauth2ErrorMessage::InvalidGrant);
            assert!(e.error_description.is_none());
        }
        _ => panic!("expected a refusal"),
    }
    match exchange_outcome(400, &Json::Null, 0) {
        Err(Error::CommunicationError(m)) => assert_eq!(m, "error parsing response: unexpected shape"),
        _ => panic!("expected a communication error"),
    }
    let t = Token::expiring("x".to_string(), 10, u64::MAX - 5);
    assert_eq!(t.expires_at, Some(u64::MAX));
}

#[test]
fn language_answer_decodes_from_json() {
    let candidate = |v: &str| obj(vec![("confidence", Json::Float("0.9".to_string())), ("value", Json::Str(v.to_string()))]);
    let body = obj(vec![
        ("msg_id", Json::Str("m1".to_string())),
        ("_text", Json::Str("lamp brightness".to_string())),
        ("entities", obj(vec![
            ("intent", Json::Array(vec![candidate("get_field")])),
            ("target", Json::Array(vec![candidate("Lamp")])),
        ])),
    ]);
    let resp = Response::from_json(&body).expect("an answer");
    assert_eq!(resp.msg_id, "m1");
    assert_eq!(resp.entities.len(), 2);
    assert_eq!(resp.entities[1].key, "target");
    assert_eq!(resp.entities[1].value, vec!["Lamp".to_string()]);
    let n = NlpResponse::from_response(resp);
    assert_eq!(n.device, Some(vec!["lamp".to_string()]));
    assert_eq!(n.field, None);
    let broken = obj(vec![
        ("msg_id", Json::Str("m1".to_string())),
        ("_text", Json::Str("x".to_string())),
        ("entities", obj(vec![("intent", Json::Array(vec![obj(vec![])]))])),
    ]);
    assert!(Response::from_json(&broken).is_none());
}
