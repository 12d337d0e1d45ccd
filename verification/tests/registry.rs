use lib_broker::message::{JsonMessage, Message, TextMessage, TypeKey};
use lib_broker::registry::Registry;

struct Ping;

impl Message for Ping {}

struct Pong;

impl Message for Pong {}

#[test]
fn key_is_the_same_for_one_type() {
    assert!(TypeKey::of::<Ping>().same(&TypeKey::of::<Ping>()));
    assert_eq!(TypeKey::of::<TextMessage>(), TypeKey::of::<TextMessage>());
}

#[test]
fn keys_of_different_types_differ() {
    assert!(!TypeKey::of::<Ping>().same(&TypeKey::of::<Pong>()));
    assert!(!TypeKey::of::<TextMessage>().same(&TypeKey::of::<JsonMessage>()));
    assert_ne!(TypeKey::of::<Ping>(), TypeKey::of::<TextMessage>());
}

#[test]
fn messages_carry_their_payload() {
    let text = TextMessage("hello".to_string());
    assert_eq!(text.0, "hello");
    let json = JsonMessage(serde_json::Value::Bool(true));
    assert_eq!(json.0, serde_json::Value::Bool(true));
}

#[test]
fn json_message_clones_its_document() {
    let document = serde_json::Value::String("payload".to_string());
    let message = JsonMessage(serde_json::Value::Array(vec![document, serde_json::Value::Null]));
    let copy = message.clone();
    assert_eq!(copy.0, message.0);
    assert_eq!(copy.0[0], serde_json::Value::String("payload".to_string()));
}

#[test]
fn new_registry_finds_nothing() {
    let registry: Registry<u32> = Registry::new();
    assert_eq!(registry.lookup(TypeKey::of::<Ping>()), None);
}

#[test]
fn lookup_finds_what_was_registered() {
    let mut registry: Registry<&str> = Registry::new();
    registry.register(TypeKey::of::<Ping>(), "ping handler");
    registry.register(TypeKey::of::<Pong>(), "pong handler");
    assert_eq!(registry.lookup(TypeKey::of::<Ping>()), Some(&"ping handler"));
    assert_eq!(registry.lookup(TypeKey::of::<Pong>()), Some(&"pong handler"));
    assert_eq!(registry.lookup(TypeKey::of::<TextMessage>()), None);
}

#[test]
fn second_registration_replaces_the_first() {
    let mut registry: Registry<&str> = Registry::new();
    registry.register(TypeKey::of::<Ping>(), "first");
    registry.register(TypeKey::of::<Pong>(), "other");
    registry.register(TypeKey::of::<Ping>(), "second");
    assert_eq!(registry.lookup(TypeKey::of::<Ping>()), Some(&"second"));
    assert_eq!(registry.lookup(TypeKey::of::<Pong>()), Some(&"other"));
}

#[test]
fn registration_leaves_other_types_alone() {
    let mut registry: Registry<u8> = Registry::new();
    registry.register(TypeKey::of::<Ping>(), 1);
    assert_eq!(registry.lookup(TypeKey::of::<Pong>()), None);
    registry.register(TypeKey::of::<Pong>(), 2);
    registry.register(TypeKey::of::<Ping>(), 3);
    assert_eq!(registry.lookup(TypeKey::of::<Pong>()), Some(&2));
}
