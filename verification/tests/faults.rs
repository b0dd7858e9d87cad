use mattermost_api::fault::{DecodeError, Fault, FaultKind, PathStep};
use mattermost_api::models::{
    Emoji, FileUploadResponse, MattermostError, Post, Reaction, TeamsUnreadInformation,
};
use mattermost_api::wire::{decode, decode_value, Wire};
use serde_json::Value;

fn field(name: &str) -> PathStep {
    PathStep::Field(name.to_string())
}

fn error(entity: &str, kind: FaultKind, path: Vec<PathStep>) -> DecodeError {
    DecodeError { entity: entity.to_string(), kind, path }
}

const REACTION: &str = "{\"user_id\":\"u1\",\"post_id\":\"p1\",\"emoji_name\":\"+1\",\"create_at\":5}";

#[test]
fn text_that_is_not_json_is_a_syntax_fault() {
    assert_eq!(decode::<Reaction>("{\"user_id\":"), Err(error("Reaction", FaultKind::Syntax, vec![])));
    assert_eq!(decode::<Reaction>(""), Err(error("Reaction", FaultKind::Syntax, vec![])));
    assert_eq!(decode::<Emoji>("not json"), Err(error("Emoji", FaultKind::Syntax, vec![])));
}

#[test]
fn a_missing_member_is_named() {
    let text = "{\"user_id\":\"u1\",\"post_id\":\"p1\",\"create_at\":5}";
    assert_eq!(
        decode::<Reaction>(text),
        Err(error("Reaction", FaultKind::Missing, vec![field("emoji_name")]))
    );
}

#[test]
fn the_first_missing_member_is_reported() {
    assert_eq!(
        decode::<Reaction>("{}"),
        Err(error("Reaction", FaultKind::Missing, vec![field("user_id")]))
    );
}

#[test]
fn a_member_of_the_wrong_type_is_named() {
    let text = "{\"user_id\":\"u1\",\"post_id\":7,\"emoji_name\":\"+1\",\"create_at\":5}";
    assert_eq!(
        decode::<Reaction>(text),
        Err(error("Reaction", FaultKind::Mismatch, vec![field("post_id")]))
    );
}

#[test]
fn a_null_where_a_value_is_required_is_a_mismatch() {
    let text = "{\"user_id\":null,\"post_id\":\"p1\",\"emoji_name\":\"+1\",\"create_at\":5}";
    assert_eq!(
        decode::<Reaction>(text),
        Err(error("Reaction", FaultKind::Mismatch, vec![field("user_id")]))
    );
}

#[test]
fn what_is_not_an_object_is_a_mismatch_at_the_root() {
    assert_eq!(decode::<Reaction>("[]"), Err(error("Reaction", FaultKind::Mismatch, vec![])));
    assert_eq!(decode::<Reaction>("\"x\""), Err(error("Reaction", FaultKind::Mismatch, vec![])));
    assert_eq!(decode::<Reaction>("null"), Err(error("Reaction", FaultKind::Mismatch, vec![])));
}

#[test]
fn a_number_out_of_range_is_a_mismatch() {
    let negative = "{\"user_id\":\"u1\",\"post_id\":\"p1\",\"emoji_name\":\"+1\",\"create_at\":-1}";
    assert_eq!(
        decode::<Reaction>(negative),
        Err(error("Reaction", FaultKind::Mismatch, vec![field("create_at")]))
    );
    let fraction = "{\"user_id\":\"u1\",\"post_id\":\"p1\",\"emoji_name\":\"+1\",\"create_at\":1.5}";
    assert_eq!(
        decode::<Reaction>(fraction),
        Err(error("Reaction", FaultKind::Mismatch, vec![field("create_at")]))
    );
    let status = "{\"id\":\"a\",\"message\":\"b\",\"request_id\":\"c\",\"status_code\":40000}";
    assert_eq!(
        decode::<MattermostError>(status),
        Err(error("MattermostError", FaultKind::Mismatch, vec![field("status_code")]))
    );
    let too_big = "{\"teams_id\":\"t\",\"msg_count\":18446744073709551616,\"mention_count\":0}";
    assert_eq!(
        decode::<TeamsUnreadInformation>(too_big),
        Err(error("TeamsUnreadInformation", FaultKind::Mismatch, vec![field("msg_count")]))
    );
}

#[test]
fn numbers_at_the_edge_of_their_range_are_read() {
    let least = "{\"id\":\"a\",\"message\":\"b\",\"request_id\":\"c\",\"status_code\":-32768}";
    assert_eq!(decode::<MattermostError>(least).unwrap().status_code, i16::MIN);
    let most = "{\"id\":\"a\",\"message\":\"b\",\"request_id\":\"c\",\"status_code\":32767}";
    assert_eq!(decode::<MattermostError>(most).unwrap().status_code, i16::MAX);
    let over = "{\"id\":\"a\",\"message\":\"b\",\"request_id\":\"c\",\"status_code\":32768}";
    assert!(decode::<MattermostError>(over).is_err());
    let under = "{\"id\":\"a\",\"message\":\"b\",\"request_id\":\"c\",\"status_code\":-32769}";
    assert!(decode::<MattermostError>(under).is_err());
    let big = "{\"teams_id\":\"t\",\"msg_count\":18446744073709551615,\"mention_count\":0}";
    assert_eq!(decode::<TeamsUnreadInformation>(big).unwrap().msg_count, u64::MAX);
}

#[test]
fn a_fault_inside_a_list_names_the_position() {
    let text = "{\"file_infos\":[],\"client_ids\":[\"a\",\"b\",3,\"d\"]}";
    assert_eq!(
        decode::<FileUploadResponse>(text),
        Err(error(
            "FileUploadResponse",
            FaultKind::Mismatch,
            vec![field("client_ids"), PathStep::Index(2)]
        ))
    );
}

#[test]
fn a_fault_deep_inside_names_the_whole_path() {
    let text = "{\"id\":\"p\",\"create_at\":1,\"update_at\":1,\"delete_at\":0,\"edit_at\":0,\
        \"user_id\":\"u\",\"channel_id\":\"c\",\"root_id\":\"\",\"original_id\":\"\",\
        \"message\":\"m\",\"type\":\"\",\"props\":{},\"pending_post_id\":\"\",\
        \"metadata\":{\"priority\":{\"priority\":\"other\",\"requested_ack\":false}}}";
    assert_eq!(
        decode::<Post>(text),
        Err(error(
            "Post",
            FaultKind::Unrecognized,
            vec![field("metadata"), field("priority"), field("priority")]
        ))
    );
}

#[test]
fn a_fault_inside_a_list_of_entities_names_the_path() {
    let text = "{\"id\":\"p\",\"create_at\":1,\"update_at\":1,\"delete_at\":0,\"edit_at\":0,\
        \"user_id\":\"u\",\"channel_id\":\"c\",\"root_id\":\"\",\"original_id\":\"\",\
        \"message\":\"m\",\"type\":\"\",\"props\":{},\"pending_post_id\":\"\",\
        \"metadata\":{\"reactions\":[{\"user_id\":\"u1\",\"post_id\":\"p1\",\
        \"emoji_name\":\"+1\",\"create_at\":5},{\"user_id\":\"u1\",\"post_id\":\"p1\",\
        \"create_at\":5}]}}";
    assert_eq!(
        decode::<Post>(text),
        Err(error(
            "Post",
            FaultKind::Missing,
            vec![field("metadata"), field("reactions"), PathStep::Index(1), field("emoji_name")]
        ))
    );
}

#[test]
fn decode_value_reads_a_parsed_value() {
    let value: Value = serde_json::from_str(REACTION).unwrap();
    assert_eq!(
        decode_value::<Reaction>(&value),
        Ok(Reaction {
            user_id: "u1".to_string(),
            post_id: "p1".to_string(),
            emoji_name: "+1".to_string(),
            create_at: 5,
        })
    );
    assert_eq!(
        decode_value::<Reaction>(&Value::Bool(true)),
        Err(error("Reaction", FaultKind::Mismatch, vec![]))
    );
}

#[test]
fn from_value_reports_without_an_entity() {
    let value: Value = serde_json::from_str("{\"user_id\":\"u1\"}").unwrap();
    assert_eq!(
        Reaction::from_value(&value),
        Err(Fault { kind: FaultKind::Missing, path: vec![field("post_id")] })
    );
}

#[test]
fn members_that_are_not_modelled_are_passed_over() {
    let text = "{\"user_id\":\"u1\",\"post_id\":\"p1\",\"emoji_name\":\"+1\",\"create_at\":5,\
        \"remote_id\":\"\",\"channel_id\":\"c\"}";
    assert_eq!(decode::<Reaction>(text), decode::<Reaction>(REACTION));
    assert!(decode::<Reaction>(text).is_ok());
}

#[test]
fn fault_steps_build_the_path_outwards() {
    let inner = Fault::here(FaultKind::Mismatch);
    assert_eq!(inner, Fault { kind: FaultKind::Mismatch, path: vec![] });
    let outer = inner.under(PathStep::Index(3)).under(field("items"));
    assert_eq!(
        outer,
        Fault { kind: FaultKind::Mismatch, path: vec![field("items"), PathStep::Index(3)] }
    );
}
