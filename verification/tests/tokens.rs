use mattermost_api::fault::{DecodeError, FaultKind};
use mattermost_api::models::{BoolishFlag, NotificationFlag, PriorityLevel};
use mattermost_api::socket::ChannelType;
use mattermost_api::wire::{decode, encode};

fn rejected(entity: &str, kind: FaultKind) -> DecodeError {
    DecodeError { entity: entity.to_string(), kind, path: vec![] }
}

#[test]
fn priority_level_decodes_its_tokens() {
    assert_eq!(decode::<PriorityLevel>("\"\""), Ok(PriorityLevel::Standard));
    assert_eq!(decode::<PriorityLevel>("\"urgent\""), Ok(PriorityLevel::Urgent));
    assert_eq!(decode::<PriorityLevel>("\"important\""), Ok(PriorityLevel::Important));
}

#[test]
fn priority_level_rejects_other_tokens() {
    assert_eq!(
        decode::<PriorityLevel>("\"other\""),
        Err(rejected("PriorityLevel", FaultKind::Unrecognized))
    );
    assert_eq!(
        decode::<PriorityLevel>("\"Urgent\""),
        Err(rejected("PriorityLevel", FaultKind::Unrecognized))
    );
    assert_eq!(decode::<PriorityLevel>("null"), Err(rejected("PriorityLevel", FaultKind::Mismatch)));
}

#[test]
fn priority_level_encodes_standard_as_the_empty_string() {
    assert_eq!(encode(&PriorityLevel::Standard), Some("\"\"".to_string()));
    assert_eq!(encode(&PriorityLevel::Urgent), Some("\"urgent\"".to_string()));
    assert_eq!(encode(&PriorityLevel::Important), Some("\"important\"".to_string()));
}

#[test]
fn boolish_flag_has_two_tokens() {
    assert_eq!(decode::<BoolishFlag>("\"true\""), Ok(BoolishFlag::True));
    assert_eq!(decode::<BoolishFlag>("\"false\""), Ok(BoolishFlag::False));
    assert_eq!(encode(&BoolishFlag::True), Some("\"true\"".to_string()));
    assert_eq!(encode(&BoolishFlag::False), Some("\"false\"".to_string()));
}

#[test]
fn boolish_flag_is_closed() {
    assert_eq!(
        decode::<BoolishFlag>("\"yes\""),
        Err(rejected("BoolishFlag", FaultKind::Unrecognized))
    );
    assert_eq!(
        decode::<BoolishFlag>("\"TRUE\""),
        Err(rejected("BoolishFlag", FaultKind::Unrecognized))
    );
    // a JSON boolean is not the string token
    assert_eq!(decode::<BoolishFlag>("true"), Err(rejected("BoolishFlag", FaultKind::Mismatch)));
}

#[test]
fn notification_flag_has_three_tokens() {
    assert_eq!(decode::<NotificationFlag>("\"all\""), Ok(NotificationFlag::All));
    assert_eq!(decode::<NotificationFlag>("\"mention\""), Ok(NotificationFlag::Mention));
    assert_eq!(decode::<NotificationFlag>("\"none\""), Ok(NotificationFlag::Never));
    assert_eq!(encode(&NotificationFlag::All), Some("\"all\"".to_string()));
    assert_eq!(encode(&NotificationFlag::Mention), Some("\"mention\"".to_string()));
    assert_eq!(encode(&NotificationFlag::Never), Some("\"none\"".to_string()));
}

#[test]
fn notification_flag_is_closed() {
    assert_eq!(
        decode::<NotificationFlag>("\"\""),
        Err(rejected("NotificationFlag", FaultKind::Unrecognized))
    );
    assert_eq!(
        decode::<NotificationFlag>("\"default\""),
        Err(rejected("NotificationFlag", FaultKind::Unrecognized))
    );
    assert_eq!(
        decode::<NotificationFlag>("3"),
        Err(rejected("NotificationFlag", FaultKind::Mismatch))
    );
}

#[test]
fn channel_type_decodes_its_tokens() {
    assert_eq!(decode::<ChannelType>("\"O\""), Ok(ChannelType::Open));
    assert_eq!(decode::<ChannelType>("\"D\""), Ok(ChannelType::DirectMessage));
    assert_eq!(decode::<ChannelType>("\"P\""), Ok(ChannelType::Private));
}

#[test]
fn channel_type_keeps_an_unknown_token() {
    assert_eq!(decode::<ChannelType>("\"G\""), Ok(ChannelType::Other("G".to_string())));
    assert_eq!(decode::<ChannelType>("\"o\""), Ok(ChannelType::Other("o".to_string())));
    assert_eq!(decode::<ChannelType>("\"\""), Ok(ChannelType::Other(String::new())));
    assert_eq!(encode(&ChannelType::Other("G".to_string())), Some("\"G\"".to_string()));
}

#[test]
fn channel_type_token_survives_decode_and_encode() {
    for token in ["\"O\"", "\"D\"", "\"P\"", "\"G\"", "\"group\"", "\"\"", "\"\u{e9}\""] {
        let decoded = decode::<ChannelType>(token).unwrap();
        assert_eq!(encode(&decoded), Some(token.to_string()));
    }
}

#[test]
fn channel_type_must_be_a_string() {
    assert_eq!(decode::<ChannelType>("1"), Err(rejected("ChannelType", FaultKind::Mismatch)));
    assert_eq!(decode::<ChannelType>("[\"O\"]"), Err(rejected("ChannelType", FaultKind::Mismatch)));
}
