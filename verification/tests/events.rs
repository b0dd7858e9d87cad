use mattermost_api::fault::{DecodeError, FaultKind, PathStep};
use mattermost_api::models::{Post, Reaction};
use mattermost_api::socket::{
    dispatch_frame, dispatch_frames, ChannelType, Dispatch, Dispatcher, EventKind, WebsocketEvent,
    WebsocketEventBroadcast, WebsocketEventType,
};
use mattermost_api::wire::{decode, encode};
use serde_json::Value;

fn text(s: &str) -> String {
    s.to_string()
}

fn json(s: &str) -> Value {
    serde_json::from_str(s).unwrap()
}

fn nobody() -> WebsocketEventBroadcast {
    WebsocketEventBroadcast {
        omit_users: None,
        user_id: None,
        channel_id: text(""),
        team_id: text(""),
    }
}

fn typing_frame(seq: usize) -> String {
    format!(
        "{{\"event\":\"typing\",\"data\":{{\"parent_id\":\"\",\"user_id\":\"u{}\"}},\
        \"broadcast\":{{\"omit_users\":null,\"user_id\":\"\",\"channel_id\":\"c1\",\
        \"team_id\":\"\"}},\"seq\":{}}}",
        seq, seq
    )
}

#[test]
fn hello_frame_is_decoded() {
    let frame = "{\"event\":\"hello\",\"data\":{\"connection_id\":\"abc\",\
        \"server_version\":\"9.5.0.1\"},\"broadcast\":{\"omit_users\":null,\"user_id\":\"u1\",\
        \"channel_id\":\"\",\"team_id\":\"\"},\"seq\":0}";
    assert_eq!(
        decode::<WebsocketEvent>(frame),
        Ok(WebsocketEvent {
            event: WebsocketEventType::Hello {
                connection_id: text("abc"),
                server_version: text("9.5.0.1"),
            },
            broadcast: WebsocketEventBroadcast {
                omit_users: None,
                user_id: Some(text("u1")),
                channel_id: text(""),
                team_id: text(""),
            },
            seq: 0,
        })
    );
}

#[test]
fn broadcast_lists_the_omitted_users() {
    let frame = "{\"event\":\"typing\",\"data\":{\"parent_id\":\"p\",\"user_id\":\"u2\"},\
        \"broadcast\":{\"omit_users\":{\"u2\":true},\"user_id\":null,\"channel_id\":\"c1\",\
        \"team_id\":\"t1\"},\"seq\":12}";
    let event = decode::<WebsocketEvent>(frame).unwrap();
    assert_eq!(
        event.event,
        WebsocketEventType::Typing { parent_id: text("p"), user_id: text("u2") }
    );
    assert_eq!(event.seq, 12);
    assert_eq!(event.broadcast.channel_id, "c1");
    assert_eq!(event.broadcast.team_id, "t1");
    assert_eq!(event.broadcast.user_id, None);
    let omitted = event.broadcast.omit_users.unwrap();
    assert_eq!(omitted.entries, vec![(text("u2"), true)]);
}

#[test]
fn unknown_event_kind_is_kept() {
    let frame = "{\"event\":\"custom_plugin_thing\",\"data\":{\"x\":[1,2],\"y\":null},\
        \"broadcast\":{\"omit_users\":null,\"user_id\":null,\"channel_id\":\"\",\
        \"team_id\":\"\"},\"seq\":4}";
    assert_eq!(
        decode::<WebsocketEvent>(frame),
        Ok(WebsocketEvent {
            event: WebsocketEventType::Unknown {
                event: text("custom_plugin_thing"),
                data: json("{\"x\":[1,2],\"y\":null}"),
            },
            broadcast: nobody(),
            seq: 4,
        })
    );
}

#[test]
fn unknown_event_kind_round_trips() {
    let event = WebsocketEventType::Unknown { event: text("brand_new"), data: json("[1,\"a\"]") };
    assert_eq!(event.kind(), None);
    let printed = encode(&event).unwrap();
    assert_eq!(printed, "{\"data\":[1,\"a\"],\"event\":\"brand_new\"}");
    assert_eq!(decode::<WebsocketEventType>(&printed), Ok(event));
}

#[test]
fn unknown_event_kind_does_not_stop_the_stream() {
    let unknown = "{\"event\":\"brand_new\",\"data\":{},\"broadcast\":{\"channel_id\":\"\",\
        \"team_id\":\"\"},\"seq\":1}";
    let frames = vec![typing_frame(0), text(unknown), typing_frame(2)];
    let answers = dispatch_frames(&frames);
    assert_eq!(answers.len(), 3);
    match &answers[1] {
        Dispatch::Deliver(e) => {
            assert_eq!(
                e.event,
                WebsocketEventType::Unknown { event: text("brand_new"), data: json("{}") }
            );
            assert_eq!(e.seq, 1);
        },
        Dispatch::Report(e) => panic!("an unknown kind was rejected: {:?}", e),
    }
    assert!(matches!(&answers[2], Dispatch::Deliver(e) if e.seq == 2));
}

#[test]
fn opaque_events_keep_their_payload() {
    let frame = "{\"event\":\"status_change\",\"data\":{\"status\":\"away\",\"user_id\":\"u1\"},\
        \"broadcast\":{\"omit_users\":null,\"user_id\":\"u1\",\"channel_id\":\"\",\
        \"team_id\":\"\"},\"seq\":3}";
    let event = decode::<WebsocketEvent>(frame).unwrap();
    assert_eq!(
        event.event,
        WebsocketEventType::StatusChange(json("{\"status\":\"away\",\"user_id\":\"u1\"}"))
    );
    assert_eq!(event.event.kind(), Some(EventKind::StatusChange));
    assert_eq!(decode::<WebsocketEvent>(&encode(&event).unwrap()), Ok(event));
}

#[test]
fn every_known_kind_round_trips_by_name() {
    let names = [
        "added_to_team", "authentication_challenge", "channel_converted", "channel_created",
        "channel_deleted", "channel_member_updated", "channel_updated", "channel_viewed",
        "config_changed", "delete_team", "direct_added", "emoji_added", "ephemeral_message",
        "group_added", "hello", "leave_team", "license_changed", "memberrole_updated",
        "new_user", "plugin_disabled", "plugin_enabled", "plugin_statuses_changed",
        "post_deleted", "post_edited", "post_unread", "posted", "preference_changed",
        "preferences_changed", "preferences_deleted", "reaction_added", "reaction_removed",
        "response", "role_updated", "status_change", "typing", "update_team", "user_added",
        "user_removed", "user_role_updated", "user_updated", "dialog_opened", "thread_updated",
        "thread_follow_changed", "thread_read_changed",
    ];
    for name in names {
        let kind = EventKind::from_name(name).unwrap();
        assert_eq!(kind.wire_name(), name);
        assert_eq!(encode(&kind), Some(format!("\"{}\"", name)));
    }
    assert_eq!(EventKind::from_name("hello"), Some(EventKind::Hello));
    assert_eq!(EventKind::from_name("memberrole_updated"), Some(EventKind::MemberroleUpdated));
    assert_eq!(EventKind::from_name("Hello"), None);
    assert_eq!(EventKind::from_name(""), None);
    assert_eq!(EventKind::from_name("hello "), None);
}

#[test]
fn every_opaque_kind_decodes_to_its_own_variant() {
    let names = [
        "added_to_team", "authentication_challenge", "channel_converted", "channel_created",
        "channel_deleted", "channel_member_updated", "channel_updated", "channel_viewed",
        "config_changed", "delete_team", "direct_added", "emoji_added", "ephemeral_message",
        "group_added", "leave_team", "license_changed", "memberrole_updated", "new_user",
        "plugin_disabled", "plugin_enabled", "plugin_statuses_changed", "post_deleted",
        "post_unread", "preference_changed", "preferences_changed", "preferences_deleted",
        "response", "role_updated", "status_change", "update_team", "user_added",
        "user_removed", "user_role_updated", "user_updated", "dialog_opened", "thread_updated",
        "thread_follow_changed", "thread_read_changed",
    ];
    for name in names {
        let frame = format!("{{\"event\":\"{}\",\"data\":{{\"k\":\"{}\"}}}}", name, name);
        let event = decode::<WebsocketEventType>(&frame).unwrap();
        assert_eq!(event.kind(), EventKind::from_name(name));
        assert_eq!(
            encode(&event),
            Some(format!("{{\"data\":{{\"k\":\"{}\"}},\"event\":\"{}\"}}", name, name))
        );
    }
}

fn posted() -> WebsocketEventType {
    WebsocketEventType::Posted {
        channel_display_name: text("Town Square"),
        channel_name: text("town-square"),
        channel_type: ChannelType::Open,
        mentions: Some(text("[\"u2\",\"u3\"]")),
        post: text(
            "{\"id\":\"p1\",\"create_at\":1,\"update_at\":1,\"delete_at\":0,\"edit_at\":0,\
            \"user_id\":\"u1\",\"channel_id\":\"c1\",\"root_id\":\"\",\"original_id\":\"\",\
            \"message\":\"hi\",\"type\":\"\",\"props\":{},\"pending_post_id\":\"\",\
            \"metadata\":{}}",
        ),
    }
}

#[test]
fn posted_event_round_trips() {
    let event = posted();
    assert_eq!(event.kind(), Some(EventKind::Posted));
    assert_eq!(decode::<WebsocketEventType>(&encode(&event).unwrap()), Ok(event));
}

#[test]
fn posted_event_gives_its_post_and_mentions() {
    let event = posted();
    let post: Post = event.post().unwrap().unwrap();
    assert_eq!(post.id, "p1");
    assert_eq!(post.message, "hi");
    assert_eq!(post.channel_id, "c1");
    assert_eq!(event.mentions(), Some(Ok(vec![text("u2"), text("u3")])));
    assert_eq!(event.reaction(), None);
}

#[test]
fn posted_event_without_mentions_mentions_nobody() {
    let event = WebsocketEventType::Posted {
        channel_display_name: text(""),
        channel_name: text(""),
        channel_type: ChannelType::DirectMessage,
        mentions: None,
        post: text("not a post"),
    };
    assert_eq!(event.mentions(), Some(Ok(vec![])));
    assert_eq!(
        event.post(),
        Some(Err(DecodeError { entity: text("Post"), kind: FaultKind::Syntax, path: vec![] }))
    );
}

#[test]
fn posted_event_keeps_an_unknown_channel_type() {
    let frame = "{\"event\":\"posted\",\"data\":{\"channel_display_name\":\"\",\
        \"channel_name\":\"\",\"channel_type\":\"G\",\"post\":\"{}\"}}";
    assert_eq!(
        decode::<WebsocketEventType>(frame),
        Ok(WebsocketEventType::Posted {
            channel_display_name: text(""),
            channel_name: text(""),
            channel_type: ChannelType::Other(text("G")),
            mentions: None,
            post: text("{}"),
        })
    );
}

#[test]
fn edited_and_reaction_events_give_what_they_carry() {
    let edited = WebsocketEventType::PostEdited { post: text("{\"id\":\"p1\"}") };
    assert_eq!(
        edited.post(),
        Some(Err(DecodeError {
            entity: text("Post"),
            kind: FaultKind::Missing,
            path: vec![PathStep::Field(text("create_at"))],
        }))
    );
    assert_eq!(edited.mentions(), None);
    let reaction = "{\"user_id\":\"u1\",\"post_id\":\"p1\",\"emoji_name\":\"+1\",\"create_at\":5}";
    let expected = Reaction {
        user_id: text("u1"),
        post_id: text("p1"),
        emoji_name: text("+1"),
        create_at: 5,
    };
    let added = WebsocketEventType::ReactionAdded { reaction: text(reaction) };
    assert_eq!(added.reaction(), Some(Ok(expected.clone())));
    assert_eq!(added.kind(), Some(EventKind::ReactionAdded));
    let removed = WebsocketEventType::ReactionRemoved { reaction: text(reaction) };
    assert_eq!(removed.reaction(), Some(Ok(expected)));
    assert_eq!(removed.kind(), Some(EventKind::ReactionRemoved));
    assert_eq!(removed.post(), None);
    assert_eq!(decode::<WebsocketEventType>(&encode(&added).unwrap()), Ok(added));
    assert_eq!(decode::<WebsocketEventType>(&encode(&removed).unwrap()), Ok(removed));
    assert_eq!(decode::<WebsocketEventType>(&encode(&edited).unwrap()), Ok(edited));
}

#[test]
fn event_without_discriminator_is_rejected() {
    let frame = "{\"status\":\"OK\",\"seq_reply\":1}";
    assert_eq!(
        decode::<WebsocketEvent>(frame),
        Err(DecodeError {
            entity: text("WebsocketEvent"),
            kind: FaultKind::Missing,
            path: vec![PathStep::Field(text("event"))],
        })
    );
}

#[test]
fn event_with_a_broken_payload_names_the_path() {
    let frame = "{\"event\":\"hello\",\"data\":{\"connection_id\":\"abc\"},\
        \"broadcast\":{\"channel_id\":\"\",\"team_id\":\"\"},\"seq\":0}";
    assert_eq!(
        decode::<WebsocketEvent>(frame),
        Err(DecodeError {
            entity: text("WebsocketEvent"),
            kind: FaultKind::Missing,
            path: vec![PathStep::Field(text("data")), PathStep::Field(text("server_version"))],
        })
    );
    let no_data = "{\"event\":\"user_added\",\"broadcast\":{\"channel_id\":\"\",\
        \"team_id\":\"\"},\"seq\":0}";
    assert_eq!(
        decode::<WebsocketEvent>(no_data),
        Err(DecodeError {
            entity: text("WebsocketEvent"),
            kind: FaultKind::Missing,
            path: vec![PathStep::Field(text("data"))],
        })
    );
    let no_seq = "{\"event\":\"user_added\",\"data\":{},\"broadcast\":{\"channel_id\":\"\",\
        \"team_id\":\"\"}}";
    assert_eq!(
        decode::<WebsocketEvent>(no_seq),
        Err(DecodeError {
            entity: text("WebsocketEvent"),
            kind: FaultKind::Missing,
            path: vec![PathStep::Field(text("seq"))],
        })
    );
}

#[test]
fn envelope_round_trips() {
    let event = WebsocketEvent { event: posted(), broadcast: nobody(), seq: 41 };
    let printed = encode(&event).unwrap();
    assert!(printed.contains("\"seq\":41"));
    assert!(printed.contains("\"event\":\"posted\""));
    assert_eq!(decode::<WebsocketEvent>(&printed), Ok(event));
}

#[test]
fn frames_are_answered_in_order() {
    let frames = vec![typing_frame(0), typing_frame(1), typing_frame(2)];
    let answers = dispatch_frames(&frames);
    let seqs: Vec<usize> = answers
        .iter()
        .map(|a| match a {
            Dispatch::Deliver(e) => e.seq,
            Dispatch::Report(e) => panic!("frame rejected: {:?}", e),
        })
        .collect();
    assert_eq!(seqs, vec![0, 1, 2]);
}

#[test]
fn frames_are_answered_in_order_whatever_they_cost() {
    let heavy = format!(
        "{{\"event\":\"posted\",\"data\":{{\"channel_display_name\":\"{}\",\
        \"channel_name\":\"n\",\"channel_type\":\"O\",\"mentions\":null,\"post\":\"{{}}\"}},\
        \"broadcast\":{{\"channel_id\":\"c\",\"team_id\":\"t\"}},\"seq\":1}}",
        "x".repeat(20000)
    );
    let frames = vec![typing_frame(0), heavy, typing_frame(2)];
    let answers = dispatch_frames(&frames);
    let seqs: Vec<usize> = answers
        .iter()
        .map(|a| match a {
            Dispatch::Deliver(e) => e.seq,
            Dispatch::Report(e) => panic!("frame rejected: {:?}", e),
        })
        .collect();
    assert_eq!(seqs, vec![0, 1, 2]);
}

#[test]
fn a_bad_frame_is_reported_and_the_next_is_delivered() {
    let frames = vec![typing_frame(0), text("{oops"), text("{}"), typing_frame(3)];
    let answers = dispatch_frames(&frames);
    assert_eq!(answers.len(), 4);
    assert!(matches!(&answers[0], Dispatch::Deliver(e) if e.seq == 0));
    assert_eq!(
        answers[1],
        Dispatch::Report(DecodeError {
            entity: text("WebsocketEvent"),
            kind: FaultKind::Syntax,
            path: vec![],
        })
    );
    assert_eq!(
        answers[2],
        Dispatch::Report(DecodeError {
            entity: text("WebsocketEvent"),
            kind: FaultKind::Missing,
            path: vec![PathStep::Field(text("event"))],
        })
    );
    assert!(matches!(&answers[3], Dispatch::Deliver(e) if e.seq == 3));
}

#[test]
fn no_frames_give_no_answers() {
    assert_eq!(dispatch_frames(&vec![]), vec![]);
}

#[test]
fn one_frame_is_answered_as_in_a_batch() {
    let frame = typing_frame(7);
    assert_eq!(vec![dispatch_frame(&frame)], dispatch_frames(&vec![frame.clone()]));
    assert!(matches!(dispatch_frame("[]"), Dispatch::Report(_)));
}

#[test]
fn a_closed_dispatcher_answers_nothing() {
    let mut d = Dispatcher::new();
    assert!(!d.closed());
    let frame = typing_frame(0);
    assert_eq!(d.on_frame(&frame), Some(dispatch_frame(&frame)));
    assert!(matches!(d.on_frame("nonsense"), Some(Dispatch::Report(_))));
    d.close();
    assert!(d.closed());
    assert_eq!(d.on_frame(&frame), None);
    assert_eq!(d.on_frame("nonsense"), None);
    d.close();
    assert_eq!(d.on_frame(&frame), None);
}
