use user_service::broker::{request_queue_name, AMQPClient, AMQPClientExt, ClientPhase};
use user_service::config::{require_config, ConfigKey, StartupError};
use user_service::handler::{plan_delivery, HandlerAction};
use user_service::json::parse_object;
use user_service::payload::{CreateWithPassword, DecodeError, Field, User};
use user_service::store::{
    collection_name, database_name, user_document, user_from_document, AddUserError,
    StoreFailure, UserDAO,
};

const ADA: &str = r#"{"first_name":"Ada","last_name":"Lovelace","username":"ada","password":"x","avatar":"a.png","email":"ada@example.com"}"#;

fn ada() -> User {
    User {
        first_name: "Ada".to_string(),
        last_name: "Lovelace".to_string(),
        username: "ada".to_string(),
        password: "x".to_string(),
        avatar: "a.png".to_string(),
        email: "ada@example.com".to_string(),
    }
}

fn assert_ada(u: &User) {
    assert_eq!(u.first_name, "Ada");
    assert_eq!(u.last_name, "Lovelace");
    assert_eq!(u.username, "ada");
    assert_eq!(u.password, "x");
    assert_eq!(u.avatar, "a.png");
    assert_eq!(u.email, "ada@example.com");
}

#[test]
fn ada_delivery_is_persisted_once() {
    match plan_delivery(&ADA.as_bytes().to_vec()) {
        HandlerAction::Persist(u) => assert_ada(&u),
        HandlerAction::Reject(e) => panic!("rejected: {:?}", e),
    }
}

#[test]
fn decode_reads_six_fields() {
    let r = CreateWithPassword::decode(ADA).ok().unwrap();
    assert_ada(&User::from_request(r));
}

#[test]
fn decode_allows_whitespace_and_other_keys() {
    let text = " {\n \"email\" : \"e\", \"extra\":\"ignored\",\t\"first_name\":\"f\",\"last_name\":\"l\",\"username\":\"u\",\"password\":\"p\",\"avatar\":\"\" } \n";
    let r = CreateWithPassword::decode(text).ok().unwrap();
    assert_eq!(r.first_name, "f");
    assert_eq!(r.email, "e");
    assert_eq!(r.avatar, "");
}

#[test]
fn decode_unescapes_values() {
    let text = r#"{"first_name":"A\"d\\a\/\n\t","last_name":"L","username":"u","password":"p","avatar":"a","email":"e"}"#;
    let r = CreateWithPassword::decode(text).ok().unwrap();
    assert_eq!(r.first_name, "A\"d\\a/\n\t");
}

#[test]
fn decode_reports_first_missing_field() {
    let text = r#"{"first_name":"A","last_name":"L","username":"u","password":"p","avatar":"a"}"#;
    assert_eq!(CreateWithPassword::decode(text).err(), Some(DecodeError::Missing(Field::Email)));
    let text = r#"{"avatar":"a"}"#;
    assert_eq!(CreateWithPassword::decode(text).err(), Some(DecodeError::Missing(Field::FirstName)));
}

#[test]
fn decode_reports_duplicate_field() {
    let text = r#"{"first_name":"A","last_name":"L","username":"u","username":"v","password":"p","avatar":"a","email":"e"}"#;
    assert_eq!(CreateWithPassword::decode(text).err(), Some(DecodeError::Duplicate(Field::Username)));
}

#[test]
fn decode_rejects_malformed_bodies() {
    for text in [
        "",
        "{",
        "[]",
        r#"{"first_name":1}"#,
        r#"{"a":"b",}"#,
        r#"{"a":"b"} x"#,
        r#"{"a":"\q"}"#,
        "{\"a\":\"line\nbreak\"}",
        r#"{"a" "b"}"#,
    ] {
        assert_eq!(CreateWithPassword::decode(text).err(), Some(DecodeError::Malformed), "{}", text);
    }
}

#[test]
fn undecodable_delivery_is_rejected() {
    match plan_delivery(&b"{\"first_name\":\"Ada\"}".to_vec()) {
        HandlerAction::Reject(e) => assert_eq!(e, DecodeError::Missing(Field::LastName)),
        HandlerAction::Persist(_) => panic!("persisted an incomplete request"),
    }
    match plan_delivery(&vec![0xff, 0xfe, b'{']) {
        HandlerAction::Reject(e) => assert_eq!(e, DecodeError::NotText),
        HandlerAction::Persist(_) => panic!("persisted bytes that are not text"),
    }
}

#[test]
fn decode_body_reads_utf8() {
    let body = "{\"first_name\":\"Zoë\",\"last_name\":\"L\",\"username\":\"u\",\"password\":\"p\",\"avatar\":\"a\",\"email\":\"e\"}";
    let r = CreateWithPassword::decode_body(&body.as_bytes().to_vec()).ok().unwrap();
    assert_eq!(r.first_name, "Zoë");
}

#[test]
fn parse_object_keeps_member_order() {
    let chars: Vec<char> = r#"{"b":"1","a":"2"}"#.chars().collect();
    let ms = parse_object(&chars).unwrap();
    assert_eq!(ms.len(), 2);
    assert_eq!(ms[0].key, vec!['b']);
    assert_eq!(ms[1].value, vec!['2']);
    let empty: Vec<char> = "{ }".chars().collect();
    assert_eq!(parse_object(&empty).unwrap().len(), 0);
}

#[test]
fn connect_without_uri_fails_before_queue_work() {
    let mut client = AMQPClient::new();
    assert_eq!(client.phase(), ClientPhase::Idle);
    let r = client.connect(None);
    assert_eq!(r, Err(StartupError::MissingConfig(ConfigKey::AmqpUri)));
    assert_eq!(client.phase(), ClientPhase::Failed);
}

#[test]
fn connect_with_uri_starts_connecting() {
    let mut client = AMQPClient::new();
    let r = client.connect(Some("amqp://localhost:5672/%2f".to_string()));
    assert_eq!(r, Ok("amqp://localhost:5672/%2f".to_string()));
    assert_eq!(client.phase(), ClientPhase::Connecting);
    assert_eq!(client.connect_failed(), StartupError::BrokerUnreachable);
    assert_eq!(client.phase(), ClientPhase::Failed);
}

#[test]
fn config_names_and_lookup() {
    assert_eq!(ConfigKey::AmqpUri.name(), "AMQP_URI");
    assert_eq!(ConfigKey::MongoConn.name(), "MONGODB_CONN");
    assert_eq!(require_config(ConfigKey::MongoConn, None), Err(StartupError::MissingConfig(ConfigKey::MongoConn)));
    assert_eq!(require_config(ConfigKey::MongoConn, Some("mongodb://h".to_string())), Ok("mongodb://h".to_string()));
}

#[test]
fn record_round_trips_through_document() {
    let d = user_document(&ada());
    assert_eq!(d.get_str("email").unwrap(), "ada@example.com");
    assert_eq!(d.len(), 6);
    let back = user_from_document(&d).unwrap();
    assert_ada(&back);
}

#[test]
fn document_without_a_field_reads_as_none() {
    let mut d = user_document(&ada());
    d.remove("avatar");
    assert!(user_from_document(&d).is_none());
    let mut d = user_document(&ada());
    d.insert("email", 7i32);
    assert!(user_from_document(&d).is_none());
}

#[test]
fn add_user_outcome_normalizes_failures() {
    assert_eq!(UserDAO::add_user_outcome(Ok("abc".to_string())), Ok("abc".to_string()));
    for cause in [StoreFailure::DuplicateKey, StoreFailure::ConnectionLost, StoreFailure::Timeout, StoreFailure::Unknown] {
        assert_eq!(UserDAO::add_user_outcome(Err(cause)), Err(AddUserError { cause }));
    }
}

#[test]
fn store_names() {
    assert_eq!(database_name(), "warpy");
    assert_eq!(collection_name(), "users");
    assert_eq!(Field::FirstName.key(), "first_name");
    assert_eq!(Field::Email.key(), "email");
}

#[test]
fn store_errors_are_classified() {
    assert_eq!(StoreFailure::classify(Some(11000), true, true), StoreFailure::DuplicateKey);
    assert_eq!(StoreFailure::classify(Some(121), true, true), StoreFailure::Timeout);
    assert_eq!(StoreFailure::classify(None, false, true), StoreFailure::ConnectionLost);
    assert_eq!(StoreFailure::classify(Some(121), false, false), StoreFailure::Unknown);
    assert_eq!(
        UserDAO::add_user_outcome(Err(StoreFailure::classify(None, false, true))),
        Err(AddUserError { cause: StoreFailure::ConnectionLost })
    );
}

#[test]
fn request_queue_is_user_request() {
    assert_eq!(request_queue_name(), "user.request");
}
