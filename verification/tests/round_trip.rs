use mattermost_api::keyed::StringMap;
use mattermost_api::models::{
    Acknowledgement, BoolishFlag, ChannelInformation, CreatePost, CreatePostMetadata,
    DeleteReactionResponse, Embed, Emoji, FileMetadata, FileUploadResponse, MattermostError,
    Metadata, NotificationFlag, Post, Priority, PriorityLevel, Reaction, TeamInformation,
    TeamsUnreadInformation, Timezone, User, UserNotifyProps,
};
use mattermost_api::socket::{
    ChannelType, HelloPayload, PostEditedPayload, PostedPayload, ReactionPayload, TypingPayload,
    WebsocketEventBroadcast,
};
use mattermost_api::wire::{decode, decode_value, encode, Wire};
use serde_json::Value;

fn text(s: &str) -> String {
    s.to_string()
}

fn json(s: &str) -> Value {
    serde_json::from_str(s).unwrap()
}

fn there_and_back<T: Wire + PartialEq + std::fmt::Debug>(x: &T) {
    let printed = encode(x).unwrap();
    assert_eq!(decode::<T>(&printed).as_ref(), Ok(x));
    assert_eq!(decode_value::<T>(&x.to_value()).as_ref(), Ok(x));
}

fn emoji() -> Emoji {
    Emoji {
        id: text("e1"),
        creator_id: text("u1"),
        name: text("parrot"),
        create_at: 10,
        update_at: 11,
        delete_at: 0,
    }
}

fn file() -> FileMetadata {
    FileMetadata {
        id: text("f1"),
        user_id: text("u1"),
        post_id: text("p1"),
        create_at: 1,
        update_at: 2,
        delete_at: 3,
        name: text("cat.png"),
        extension: text("png"),
        size: 2048,
        mime_type: text("image/png"),
        width: 640,
        height: 480,
        has_preview_image: true,
    }
}

fn reaction() -> Reaction {
    Reaction { user_id: text("u1"), post_id: text("p1"), emoji_name: text("+1"), create_at: 5 }
}

fn full_metadata() -> Metadata {
    Metadata {
        embeds: Some(vec![
            Embed {
                embed_type: text("link"),
                url: Some(text("https://example.com")),
                data: Some(json("{\"title\":\"Example\",\"ratio\":1.5}")),
            },
            Embed { embed_type: text("image"), url: None, data: None },
        ]),
        emojis: Some(vec![emoji()]),
        files: Some(vec![file()]),
        images: Some(json("{\"https://example.com/a.png\":{\"width\":1,\"height\":2}}")),
        reactions: Some(vec![reaction()]),
        priority: Some(Priority { priority: PriorityLevel::Urgent, requested_ack: true }),
        acknowledgements: Some(vec![Acknowledgement {
            user_id: text("u2"),
            post_id: text("p1"),
            acknowledged_at: 99,
        }]),
    }
}

fn empty_metadata() -> Metadata {
    Metadata {
        embeds: None,
        emojis: None,
        files: None,
        images: None,
        reactions: None,
        priority: None,
        acknowledgements: None,
    }
}

fn post(id: &str, metadata: Metadata) -> Post {
    Post {
        id: text(id),
        create_at: 1700000000000,
        update_at: 1700000000001,
        delete_at: 0,
        edit_at: 0,
        user_id: text("u1"),
        channel_id: text("c1"),
        root_id: text(""),
        original_id: text(""),
        message: text("hello \"world\"\n"),
        post_type: text(""),
        props: json("{\"from_bot\":\"true\",\"n\":[1,-2,3.25,null,true]}"),
        hashtag: Some(text("#tag")),
        file_ids: Some(vec![text("f1"), text("f2")]),
        pending_post_id: text("u1:1700000000000"),
        metadata,
    }
}

#[test]
fn mattermost_error_round_trips() {
    there_and_back(&MattermostError {
        id: text("api.context.session_expired.app_error"),
        message: text("Invalid or expired session, please login again."),
        request_id: text("r1"),
        status_code: 401,
        is_oauth: Some(false),
        detailed_error: Some(text("token=***")),
    });
    there_and_back(&MattermostError {
        id: text(""),
        message: text(""),
        request_id: text(""),
        status_code: -1,
        is_oauth: None,
        detailed_error: None,
    });
}

#[test]
fn mattermost_error_decodes_the_documented_envelope() {
    let body = "{\"id\":\"x\",\"message\":\"m\",\"request_id\":\"r\",\"status_code\":404,\
        \"is_oauth\":null,\"detailed_error\":null}";
    assert_eq!(
        decode::<MattermostError>(body),
        Ok(MattermostError {
            id: text("x"),
            message: text("m"),
            request_id: text("r"),
            status_code: 404,
            is_oauth: None,
            detailed_error: None,
        })
    );
}

#[test]
fn embed_round_trips() {
    there_and_back(&Embed {
        embed_type: text("opengraph"),
        url: Some(text("https://example.com")),
        data: Some(json("[1,2,{\"a\":null}]")),
    });
    there_and_back(&Embed { embed_type: text("image"), url: None, data: None });
}

#[test]
fn embed_renames_its_type_member() {
    let e = Embed { embed_type: text("image"), url: None, data: None };
    assert_eq!(encode(&e), Some(text("{\"data\":null,\"type\":\"image\",\"url\":null}")));
    assert!(decode::<Embed>("{\"embed_type\":\"image\"}").is_err());
}

#[test]
fn free_form_null_is_read_as_absent() {
    let e = Embed { embed_type: text("image"), url: None, data: Some(Value::Null) };
    let back = decode::<Embed>(&encode(&e).unwrap()).unwrap();
    assert_eq!(back.data, None);
}

#[test]
fn emoji_round_trips() {
    there_and_back(&emoji());
    assert_eq!(
        encode(&emoji()),
        Some(text(
            "{\"create_at\":10,\"creator_id\":\"u1\",\"delete_at\":0,\"id\":\"e1\",\
            \"name\":\"parrot\",\"update_at\":11}"
        ))
    );
}

#[test]
fn file_metadata_round_trips() {
    there_and_back(&file());
    let mut other = file();
    other.has_preview_image = false;
    other.size = 0;
    there_and_back(&other);
}

#[test]
fn reaction_round_trips() {
    there_and_back(&reaction());
}

#[test]
fn priority_round_trips() {
    there_and_back(&Priority { priority: PriorityLevel::Standard, requested_ack: false });
    there_and_back(&Priority { priority: PriorityLevel::Urgent, requested_ack: true });
    there_and_back(&Priority { priority: PriorityLevel::Important, requested_ack: false });
    assert_eq!(
        encode(&Priority { priority: PriorityLevel::Standard, requested_ack: false }),
        Some(text("{\"priority\":\"\",\"requested_ack\":false}"))
    );
}

#[test]
fn acknowledgement_round_trips() {
    there_and_back(&Acknowledgement { user_id: text("u"), post_id: text("p"), acknowledged_at: 7 });
}

#[test]
fn metadata_round_trips() {
    there_and_back(&full_metadata());
    there_and_back(&empty_metadata());
    let mut some_empty = empty_metadata();
    some_empty.embeds = Some(vec![]);
    some_empty.reactions = Some(vec![]);
    there_and_back(&some_empty);
}

#[test]
fn metadata_may_leave_every_part_out() {
    assert_eq!(decode::<Metadata>("{}"), Ok(empty_metadata()));
}

#[test]
fn post_round_trips() {
    there_and_back(&post("p1", full_metadata()));
    let mut bare = post("p2", empty_metadata());
    bare.hashtag = None;
    bare.file_ids = None;
    bare.props = json("{}");
    there_and_back(&bare);
}

#[test]
fn post_reads_type_and_optional_members() {
    let body = "{\"id\":\"p\",\"create_at\":1,\"update_at\":2,\"delete_at\":3,\"edit_at\":4,\
        \"user_id\":\"u\",\"channel_id\":\"c\",\"root_id\":\"r\",\"original_id\":\"o\",\
        \"message\":\"m\",\"type\":\"system_join_channel\",\"props\":{\"k\":\"v\"},\
        \"pending_post_id\":\"q\",\"metadata\":{}}";
    let p = decode::<Post>(body).unwrap();
    assert_eq!(p.post_type, "system_join_channel");
    assert_eq!(p.hashtag, None);
    assert_eq!(p.file_ids, None);
    assert_eq!(p.props, json("{\"k\":\"v\"}"));
    assert_eq!(p.edit_at, 4);
    assert_eq!(p.metadata, empty_metadata());
}

#[test]
fn team_information_round_trips() {
    let team = TeamInformation {
        id: text("t1"),
        create_at: 1,
        update_at: -2,
        delete_at: 0,
        display_name: text("Team"),
        name: text("team"),
        description: text(""),
        email: text("t@example.com"),
        type_: text("O"),
        allowed_domains: text(""),
        invite_id: text("inv"),
        allow_open_invite: true,
        policy_id: Some(text("pol")),
    };
    there_and_back(&team);
    let mut other = team.clone();
    other.policy_id = None;
    other.create_at = i64::MIN;
    other.update_at = i64::MAX;
    there_and_back(&other);
    assert!(encode(&team).unwrap().contains("\"type\":\"O\""));
}

#[test]
fn teams_unread_information_round_trips() {
    there_and_back(&TeamsUnreadInformation {
        teams_id: text("t1"),
        msg_count: 3,
        mention_count: u64::MAX,
    });
}

#[test]
fn channel_information_is_any_object() {
    there_and_back(&ChannelInformation {});
    assert_eq!(encode(&ChannelInformation {}), Some(text("{}")));
    assert_eq!(decode::<ChannelInformation>("{\"id\":\"c1\"}"), Ok(ChannelInformation {}));
    assert!(decode::<ChannelInformation>("[]").is_err());
}

#[test]
fn delete_reaction_response_round_trips() {
    there_and_back(&DeleteReactionResponse { status: text("OK") });
    assert_eq!(DeleteReactionResponse::default(), DeleteReactionResponse { status: text("") });
}

#[test]
fn create_post_round_trips() {
    there_and_back(&CreatePost::default());
    there_and_back(&CreatePost {
        channel_id: text("c1"),
        message: text("hi"),
        root_id: Some(text("p0")),
        props: Some(json("{\"a\":1}")),
        hashtag: Some(text("#x")),
        file_ids: Some(vec![text("f1")]),
        metadata: Some(CreatePostMetadata {
            priority: Some(Priority { priority: PriorityLevel::Important, requested_ack: true }),
        }),
    });
    there_and_back(&CreatePostMetadata { priority: None });
}

#[test]
fn user_notify_props_round_trips() {
    there_and_back(&UserNotifyProps {
        email: Some(BoolishFlag::True),
        push: Some(NotificationFlag::Mention),
        desktop: Some(NotificationFlag::All),
        desktop_sound: Some(BoolishFlag::False),
        mention_keys: Some(text("alice,@alice")),
        channel: Some(BoolishFlag::True),
        first_name: Some(BoolishFlag::False),
    });
    there_and_back(&UserNotifyProps {
        email: None,
        push: Some(NotificationFlag::Never),
        desktop: None,
        desktop_sound: None,
        mention_keys: None,
        channel: None,
        first_name: None,
    });
}

#[test]
fn user_notify_props_reject_an_unknown_flag() {
    assert!(decode::<UserNotifyProps>("{\"email\":\"maybe\"}").is_err());
    assert!(decode::<UserNotifyProps>("{\"push\":\"sometimes\"}").is_err());
    assert!(decode::<UserNotifyProps>("{\"email\":\"true\",\"push\":\"none\"}").is_ok());
}

fn timezone() -> Timezone {
    Timezone {
        use_automatic_timezone: text("true"),
        manual_timezone: text("Europe/Berlin"),
        automatic_timezone: text("Europe/Paris"),
    }
}

#[test]
fn timezone_round_trips() {
    there_and_back(&timezone());
    there_and_back(&Timezone {
        use_automatic_timezone: text(""),
        manual_timezone: text(""),
        automatic_timezone: text(""),
    });
}

#[test]
fn timezone_keys_are_in_camel_case() {
    assert_eq!(
        encode(&timezone()),
        Some(text(
            "{\"automaticTimezone\":\"Europe/Paris\",\"manualTimezone\":\"Europe/Berlin\",\
            \"useAutomaticTimezone\":\"true\"}"
        ))
    );
    let snake = "{\"use_automatic_timezone\":\"true\",\"manual_timezone\":\"\",\
        \"automatic_timezone\":\"\"}";
    assert!(decode::<Timezone>(snake).is_err());
}

#[test]
fn timezone_flag_may_be_a_boolean_or_a_string() {
    let as_bool = "{\"useAutomaticTimezone\":true,\"manualTimezone\":\"Europe/Berlin\",\
        \"automaticTimezone\":\"Europe/Paris\"}";
    let as_text = "{\"useAutomaticTimezone\":\"true\",\"manualTimezone\":\"Europe/Berlin\",\
        \"automaticTimezone\":\"Europe/Paris\"}";
    assert_eq!(decode::<Timezone>(as_bool), Ok(timezone()));
    assert_eq!(decode::<Timezone>(as_text), Ok(timezone()));
    let off = "{\"useAutomaticTimezone\":false,\"manualTimezone\":\"\",\"automaticTimezone\":\"\"}";
    assert_eq!(decode::<Timezone>(off).unwrap().use_automatic_timezone, "false");
    let number = "{\"useAutomaticTimezone\":1,\"manualTimezone\":\"\",\"automaticTimezone\":\"\"}";
    assert!(decode::<Timezone>(number).is_err());
}

fn user() -> User {
    User {
        id: text("u1"),
        create_at: 1,
        update_at: 2,
        delete_at: 0,
        username: text("alice"),
        first_name: text("Alice"),
        last_name: text("A"),
        email: text("alice@example.com"),
        email_verified: Some(text("true")),
        auth_service: text(""),
        roles: text("system_user"),
        locale: text("en"),
        notify_props: Some(UserNotifyProps {
            email: Some(BoolishFlag::True),
            push: Some(NotificationFlag::All),
            desktop: Some(NotificationFlag::Mention),
            desktop_sound: Some(BoolishFlag::True),
            mention_keys: Some(text("alice")),
            channel: Some(BoolishFlag::False),
            first_name: Some(BoolishFlag::False),
        }),
        props: Some(json("{\"theme\":\"dark\"}")),
        last_password_update: Some(3),
        last_picture_update: Some(-4),
        failed_attemps: Some(0),
        mfa_active: Some(true),
        timezone: timezone(),
        terms_of_service_id: Some(text("tos")),
        terms_of_service_create_at: Some(5),
    }
}

#[test]
fn user_round_trips() {
    there_and_back(&user());
    let mut bare = user();
    bare.email_verified = None;
    bare.notify_props = None;
    bare.props = None;
    bare.last_password_update = None;
    bare.last_picture_update = None;
    bare.failed_attemps = None;
    bare.mfa_active = None;
    bare.terms_of_service_id = None;
    bare.terms_of_service_create_at = None;
    there_and_back(&bare);
}

#[test]
fn user_tolerates_what_a_server_generation_omits() {
    let body = "{\"id\":\"u1\",\"create_at\":1,\"update_at\":2,\"delete_at\":0,\
        \"username\":\"alice\",\"first_name\":\"Alice\",\"last_name\":\"A\",\
        \"email\":\"alice@example.com\",\"auth_service\":\"\",\"roles\":\"system_user\",\
        \"locale\":\"en\",\"timezone\":{\"useAutomaticTimezone\":true,\
        \"manualTimezone\":\"Europe/Berlin\",\"automaticTimezone\":\"Europe/Paris\"}}";
    let u = decode::<User>(body).unwrap();
    assert_eq!(u.notify_props, None);
    assert_eq!(u.email_verified, None);
    assert_eq!(u.mfa_active, None);
    assert_eq!(u.props, None);
    assert_eq!(u.timezone, timezone());
    let with_nulls = "{\"id\":\"u1\",\"create_at\":1,\"update_at\":2,\"delete_at\":0,\
        \"username\":\"alice\",\"first_name\":\"Alice\",\"last_name\":\"A\",\
        \"email\":\"alice@example.com\",\"auth_service\":\"\",\"roles\":\"system_user\",\
        \"locale\":\"en\",\"notify_props\":null,\"mfa_active\":null,\"email_verified\":null,\
        \"timezone\":{\"useAutomaticTimezone\":\"true\",\
        \"manualTimezone\":\"Europe/Berlin\",\"automaticTimezone\":\"Europe/Paris\"}}";
    assert_eq!(decode::<User>(with_nulls), Ok(u));
}

#[test]
fn user_requires_its_timezone() {
    let body = "{\"id\":\"u1\",\"create_at\":1,\"update_at\":2,\"delete_at\":0,\
        \"username\":\"alice\",\"first_name\":\"Alice\",\"last_name\":\"A\",\
        \"email\":\"alice@example.com\",\"auth_service\":\"\",\"roles\":\"system_user\",\
        \"locale\":\"en\"}";
    assert!(decode::<User>(body).is_err());
}

#[test]
fn file_upload_response_round_trips() {
    there_and_back(&FileUploadResponse {
        file_infos: vec![file(), file()],
        client_ids: vec![text("a"), text("b")],
    });
    there_and_back(&FileUploadResponse { file_infos: vec![], client_ids: vec![] });
}

#[test]
fn broadcast_round_trips() {
    let mut omitted = StringMap::new();
    omitted.insert(text("u1"), true);
    omitted.insert(text("u2"), false);
    there_and_back(&WebsocketEventBroadcast {
        omit_users: Some(omitted),
        user_id: Some(text("u9")),
        channel_id: text("c1"),
        team_id: text("t1"),
    });
    there_and_back(&WebsocketEventBroadcast {
        omit_users: None,
        user_id: None,
        channel_id: text(""),
        team_id: text(""),
    });
    there_and_back(&WebsocketEventBroadcast {
        omit_users: Some(StringMap::new()),
        user_id: None,
        channel_id: text(""),
        team_id: text(""),
    });
}

#[test]
fn payloads_round_trip() {
    there_and_back(&HelloPayload { connection_id: text("c"), server_version: text("9.5.0") });
    there_and_back(&PostEditedPayload { post: text("{}") });
    there_and_back(&ReactionPayload { reaction: text("{}") });
    there_and_back(&TypingPayload { parent_id: text(""), user_id: text("u1") });
    there_and_back(&PostedPayload {
        channel_display_name: text("Town Square"),
        channel_name: text("town-square"),
        channel_type: ChannelType::Open,
        mentions: Some(text("[\"u2\"]")),
        post: text("{}"),
    });
    there_and_back(&PostedPayload {
        channel_display_name: text(""),
        channel_name: text(""),
        channel_type: ChannelType::Other(text("G")),
        mentions: None,
        post: text(""),
    });
}

#[test]
fn plain_values_round_trip() {
    there_and_back(&text("a \u{1F600} b"));
    there_and_back(&true);
    there_and_back(&0u64);
    there_and_back(&u64::MAX);
    there_and_back(&i64::MIN);
    there_and_back(&i64::MAX);
    there_and_back(&i16::MIN);
    there_and_back(&usize::MAX);
    there_and_back(&vec![Some(1i64), None, Some(-1)]);
    there_and_back(&json("{\"a\":[1,2.5,\"x\",null,{\"b\":false}]}"));
    assert_eq!(encode(&vec![1u64, 2, 3]), Some(text("[1,2,3]")));
    assert_eq!(encode(&Some(text("x"))), Some(text("\"x\"")));
    assert_eq!(encode(&None::<String>), Some(text("null")));
    assert_eq!(encode(&-5i64), Some(text("-5")));
    assert_eq!(encode(&false), Some(text("false")));
}
