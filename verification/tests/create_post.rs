use mattermost_api::models::{CreatePost, CreatePostMetadata, Priority, PriorityLevel};
use mattermost_api::wire::{encode, Wire};
use serde_json::Value;

fn text(s: &str) -> String {
    s.to_string()
}

#[test]
fn create_post_sends_null_for_an_unset_root_id() {
    let request = CreatePost {
        channel_id: text("c1"),
        message: text("hi"),
        root_id: None,
        ..CreatePost::default()
    };
    let printed = encode(&request).unwrap();
    assert!(printed.contains("\"root_id\":null"));
    let value = request.to_value();
    assert_eq!(value.get("root_id"), Some(&Value::Null));
    assert_eq!(value.get("channel_id"), Some(&Value::String(text("c1"))));
    assert_eq!(value.get("message"), Some(&Value::String(text("hi"))));
}

#[test]
fn create_post_sends_every_member() {
    let request = CreatePost { channel_id: text("c1"), message: text("hi"), ..CreatePost::default() };
    assert_eq!(
        encode(&request),
        Some(text(
            "{\"channel_id\":\"c1\",\"file_ids\":null,\"hashtag\":null,\"message\":\"hi\",\
            \"metadata\":null,\"props\":null,\"root_id\":null}"
        ))
    );
}

#[test]
fn create_post_sends_what_is_set() {
    let request = CreatePost {
        channel_id: text("c1"),
        message: text("hi"),
        root_id: Some(text("p0")),
        props: None,
        hashtag: None,
        file_ids: Some(vec![text("f1"), text("f2")]),
        metadata: Some(CreatePostMetadata {
            priority: Some(Priority { priority: PriorityLevel::Urgent, requested_ack: true }),
        }),
    };
    assert_eq!(
        encode(&request),
        Some(text(
            "{\"channel_id\":\"c1\",\"file_ids\":[\"f1\",\"f2\"],\"hashtag\":null,\
            \"message\":\"hi\",\"metadata\":{\"priority\":{\"priority\":\"urgent\",\
            \"requested_ack\":true}},\"props\":null,\"root_id\":\"p0\"}"
        ))
    );
}

#[test]
fn create_post_metadata_sends_null_for_no_priority() {
    assert_eq!(encode(&CreatePostMetadata { priority: None }), Some(text("{\"priority\":null}")));
}

#[test]
fn create_post_default_sets_nothing() {
    assert_eq!(
        CreatePost::default(),
        CreatePost {
            channel_id: text(""),
            message: text(""),
            root_id: None,
            props: None,
            hashtag: None,
            file_ids: None,
            metadata: None,
        }
    );
}
