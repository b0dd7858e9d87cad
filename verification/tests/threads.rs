use mattermost_api::fault::{DecodeError, FaultKind, PathStep};
use mattermost_api::keyed::StringMap;
use mattermost_api::models::{Metadata, Post, Thread};
use mattermost_api::wire::{decode, encode};
use serde_json::Value;

fn text(s: &str) -> String {
    s.to_string()
}

fn post(id: &str) -> Post {
    Post {
        id: text(id),
        create_at: 1,
        update_at: 1,
        delete_at: 0,
        edit_at: 0,
        user_id: text("u1"),
        channel_id: text("c1"),
        root_id: text(""),
        original_id: text(""),
        message: text("m"),
        post_type: text(""),
        props: Value::Object(serde_json::Map::new()),
        hashtag: None,
        file_ids: None,
        pending_post_id: text(""),
        metadata: Metadata {
            embeds: None,
            emojis: None,
            files: None,
            images: None,
            reactions: None,
            priority: None,
            acknowledgements: None,
        },
    }
}

fn thread(order: &[&str], posts: &[&str]) -> Thread {
    let mut map = StringMap::new();
    for id in posts {
        map.insert(text(id), post(id));
    }
    Thread {
        order: order.iter().map(|id| text(id)).collect(),
        posts: map,
        next_post_id: text(""),
        prev_post_id: text(""),
        has_next: false,
    }
}

#[test]
fn empty_thread_is_valid() {
    let t = thread(&[], &[]);
    assert!(t.is_consistent());
    assert_eq!(t.missing_post(), None);
    let body = "{\"order\":[],\"posts\":{},\"next_post_id\":\"\",\"prev_post_id\":\"\",\
        \"has_next\":false}";
    assert_eq!(decode::<Thread>(body), Ok(t));
}

#[test]
fn thread_with_a_post_for_every_id_round_trips() {
    let t = thread(&["a", "b"], &["a", "b"]);
    assert!(t.is_consistent());
    let printed = encode(&t).unwrap();
    assert_eq!(decode::<Thread>(&printed), Ok(t));
}

#[test]
fn thread_may_hold_posts_that_are_not_in_order() {
    let t = thread(&["b"], &["a", "b", "c"]);
    assert!(t.is_consistent());
    assert_eq!(decode::<Thread>(&encode(&t).unwrap()), Ok(t));
}

#[test]
fn thread_order_keeps_its_sequence() {
    let t = thread(&["c", "a", "b", "a"], &["a", "b", "c"]);
    let back = decode::<Thread>(&encode(&t).unwrap()).unwrap();
    assert_eq!(back.order, vec![text("c"), text("a"), text("b"), text("a")]);
}

#[test]
fn thread_with_an_id_without_post_fails() {
    let t = thread(&["a", "x", "y"], &["a"]);
    assert!(!t.is_consistent());
    assert_eq!(t.missing_post(), Some(1));
    let printed = encode(&t).unwrap();
    assert_eq!(
        decode::<Thread>(&printed),
        Err(DecodeError {
            entity: text("Thread"),
            kind: FaultKind::Inconsistent,
            path: vec![PathStep::Field(text("order")), PathStep::Index(1)],
        })
    );
}

#[test]
fn thread_with_order_but_no_posts_fails() {
    let body = "{\"order\":[\"a\"],\"posts\":{},\"next_post_id\":\"\",\"prev_post_id\":\"\",\
        \"has_next\":true}";
    assert_eq!(
        decode::<Thread>(body),
        Err(DecodeError {
            entity: text("Thread"),
            kind: FaultKind::Inconsistent,
            path: vec![PathStep::Field(text("order")), PathStep::Index(0)],
        })
    );
}

#[test]
fn thread_reports_a_broken_post_by_its_key() {
    let body = "{\"order\":[\"a\"],\"posts\":{\"a\":{\"id\":\"a\"}},\"next_post_id\":\"\",\
        \"prev_post_id\":\"\",\"has_next\":true}";
    assert_eq!(
        decode::<Thread>(body),
        Err(DecodeError {
            entity: text("Thread"),
            kind: FaultKind::Missing,
            path: vec![
                PathStep::Field(text("posts")),
                PathStep::Field(text("a")),
                PathStep::Field(text("create_at")),
            ],
        })
    );
}

#[test]
fn string_map_finds_what_was_inserted() {
    let mut m: StringMap<u64> = StringMap::new();
    assert_eq!(m.get(&text("a")), None);
    assert!(!m.contains_key(&text("a")));
    m.insert(text("a"), 1);
    m.insert(text("b"), 2);
    assert_eq!(m.get(&text("a")), Some(&1));
    assert_eq!(m.get(&text("b")), Some(&2));
    assert_eq!(m.get(&text("c")), None);
    assert!(m.contains_key(&text("b")));
    assert_eq!(m.position(&text("b")), Some(1));
}

#[test]
fn string_map_counts_the_last_entry_for_a_key() {
    let mut m: StringMap<u64> = StringMap::new();
    m.insert(text("a"), 1);
    m.insert(text("b"), 2);
    m.insert(text("a"), 3);
    assert_eq!(m.get(&text("a")), Some(&3));
    assert_eq!(m.position(&text("a")), Some(2));
    assert_eq!(encode(&m), Some(text("{\"a\":3,\"b\":2}")));
}

#[test]
fn string_map_decodes_every_member() {
    let m = decode::<StringMap<bool>>("{\"u2\":false,\"u1\":true}").unwrap();
    assert_eq!(m.entries.len(), 2);
    assert_eq!(m.get(&text("u1")), Some(&true));
    assert_eq!(m.get(&text("u2")), Some(&false));
    assert_eq!(
        decode::<StringMap<bool>>("{\"u1\":true,\"u2\":1}"),
        Err(DecodeError {
            entity: text("boolean"),
            kind: FaultKind::Mismatch,
            path: vec![PathStep::Field(text("u2"))],
        })
    );
    assert!(decode::<StringMap<bool>>("[]").is_err());
}
