//! The payloads of the events whose parts this crate reads.

use vstd::prelude::*;
use serde_json::Value;
use crate::fault::{Fault, FaultModel};
use crate::json::{empty_object, object_insert, Json};
use crate::socket::channel::{ChannelType, ChannelTypeModel};
use crate::wire::{field, field_rejects, read_field, Wire};

verus! {

/// What the server sends first on a new connection.
#[derive(Clone, Debug, PartialEq, Eq)]
pub struct HelloPayload {
    pub connection_id: String,
    pub server_version: String,
}

/// What a [`HelloPayload`] stands for.
pub struct HelloPayloadModel {
    pub connection_id: Seq<char>,
    pub server_version: Seq<char>,
}

impl Wire for HelloPayload {
    type Model = HelloPayloadModel;

    open spec fn name() -> Seq<char> {
        "HelloPayload"@
    }

    open spec fn model(&self) -> HelloPayloadModel {
        HelloPayloadModel {
            connection_id: self.connection_id.model(),
            server_version: self.server_version.model(),
        }
    }

    open spec fn valid(m: HelloPayloadModel) -> bool {
        true
    }

    open spec fn encoded(m: HelloPayloadModel) -> Json {
        Json::empty_object()
            .with("connection_id"@, String::encoded(m.connection_id))
            .with("server_version"@, String::encoded(m.server_version))
    }

    open spec fn decoded(tree: Json) -> Option<HelloPayloadModel> {
        let connection_id = field::<String>(tree, "connection_id"@);
        let server_version = field::<String>(tree, "server_version"@);
        if connection_id is Some
            && server_version is Some {
            Some(
                HelloPayloadModel {
                    connection_id: connection_id->0,
                    server_version: server_version->0,
                },
            )
        } else {
            None
        }
    }

    open spec fn rejects(tree: Json, fault: FaultModel) -> bool {
        if field::<String>(tree, "connection_id"@) is None {
            field_rejects::<String>(tree, "connection_id"@, fault)
        } else if field::<String>(tree, "server_version"@) is None {
            field_rejects::<String>(tree, "server_version"@, fault)
        } else {
            false
        }
    }

    open spec fn if_absent() -> Option<HelloPayloadModel> {
        None
    }

    fn label() -> (r: String) {
        "HelloPayload".to_owned()
    }

    fn to_value(&self) -> (v: Value) {
        let mut obj = empty_object();
        object_insert(&mut obj, "connection_id".to_owned(), self.connection_id.to_value());
        object_insert(&mut obj, "server_version".to_owned(), self.server_version.to_value());
        obj
    }

    fn from_value(v: &Value) -> (r: Result<Self, Fault>) {
        let connection_id = read_field::<String>(v, "connection_id")?;
        let server_version = read_field::<String>(v, "server_version")?;
        Ok(HelloPayload { connection_id, server_version })
    }

    fn absent() -> (r: Option<Self>) {
        None
    }

    proof fn lemma_round_trip(m: HelloPayloadModel) {
        reveal_strlit("connection_id");
        reveal_strlit("server_version");
        assert("connection_id"@.len() == 13);
        assert("server_version"@.len() == 14);
    }

    proof fn lemma_rejects_rejected(tree: Json, fault: FaultModel) {
    }
}

/// The payload of an edited post: the post, as a JSON text.
#[derive(Clone, Debug, PartialEq, Eq)]
pub struct PostEditedPayload {
    pub post: String,
}

/// What a [`PostEditedPayload`] stands for.
pub struct PostEditedPayloadModel {
    pub post: Seq<char>,
}

impl Wire for PostEditedPayload {
    type Model = PostEditedPayloadModel;

    open spec fn name() -> Seq<char> {
        "PostEditedPayload"@
    }

    open spec fn model(&self) -> PostEditedPayloadModel {
        PostEditedPayloadModel {
            post: self.post.model(),
        }
    }

    open spec fn valid(m: PostEditedPayloadModel) -> bool {
        true
    }

    open spec fn encoded(m: PostEditedPayloadModel) -> Json {
        Json::empty_object()
            .with("post"@, String::encoded(m.post))
    }

    open spec fn decoded(tree: Json) -> Option<PostEditedPayloadModel> {
        let post = field::<String>(tree, "post"@);
        if post is Some {
            Some(PostEditedPayloadModel { post: post->0 })
        } else {
            None
        }
    }

    open spec fn rejects(tree: Json, fault: FaultModel) -> bool {
        if field::<String>(tree, "post"@) is None {
            field_rejects::<String>(tree, "post"@, fault)
        } else {
            false
        }
    }

    open spec fn if_absent() -> Option<PostEditedPayloadModel> {
        None
    }

    fn label() -> (r: String) {
        "PostEditedPayload".to_owned()
    }

    fn to_value(&self) -> (v: Value) {
        let mut obj = empty_object();
        object_insert(&mut obj, "post".to_owned(), self.post.to_value());
        obj
    }

    fn from_value(v: &Value) -> (r: Result<Self, Fault>) {
        let post = read_field::<String>(v, "post")?;
        Ok(PostEditedPayload { post })
    }

    fn absent() -> (r: Option<Self>) {
        None
    }

    proof fn lemma_round_trip(m: PostEditedPayloadModel) {
        reveal_strlit("post");
    }

    proof fn lemma_rejects_rejected(tree: Json, fault: FaultModel) {
    }
}

/// The payload of a new post. `post` is the post as a JSON text, and
/// `mentions` the identifiers of the mentioned users as a JSON text.
#[derive(Clone, Debug, PartialEq, Eq)]
pub struct PostedPayload {
    pub channel_display_name: String,
    pub channel_name: String,
    pub channel_type: ChannelType,
    pub mentions: Option<String>,
    pub post: String,
}

/// What a [`PostedPayload`] stands for.
pub struct PostedPayloadModel {
    pub channel_display_name: Seq<char>,
    pub channel_name: Seq<char>,
    pub channel_type: ChannelTypeModel,
    pub mentions: Option<Seq<char>>,
    pub post: Seq<char>,
}

impl Wire for PostedPayload {
    type Model = PostedPayloadModel;

    open spec fn name() -> Seq<char> {
        "PostedPayload"@
    }

    open spec fn model(&self) -> PostedPayloadModel {
        PostedPayloadModel {
            channel_display_name: self.channel_display_name.model(),
            channel_name: self.channel_name.model(),
            channel_type: self.channel_type.model(),
            mentions: self.mentions.model(),
            post: self.post.model(),
        }
    }

    open spec fn valid(m: PostedPayloadModel) -> bool {
        ChannelType::valid(m.channel_type)
    }

    open spec fn encoded(m: PostedPayloadModel) -> Json {
        Json::empty_object()
            .with("channel_display_name"@, String::encoded(m.channel_display_name))
            .with("channel_name"@, String::encoded(m.channel_name))
            .with("channel_type"@, ChannelType::encoded(m.channel_type))
            .with("mentions"@, Option::<String>::encoded(m.mentions))
            .with("post"@, String::encoded(m.post))
    }

    open spec fn decoded(tree: Json) -> Option<PostedPayloadModel> {
        let channel_display_name = field::<String>(tree, "channel_display_name"@);
        let channel_name = field::<String>(tree, "channel_name"@);
        let channel_type = field::<ChannelType>(tree, "channel_type"@);
        let mentions = field::<Option<String>>(tree, "mentions"@);
        let post = field::<String>(tree, "post"@);
        if channel_display_name is Some
            && channel_name is Some
            && channel_type is Some
            && mentions is Some
            && post is Some {
            Some(
                PostedPayloadModel {
                    channel_display_name: channel_display_name->0,
                    channel_name: channel_name->0,
                    channel_type: channel_type->0,
                    mentions: mentions->0,
                    post: post->0,
                },
            )
        } else {
            None
        }
    }

    open spec fn rejects(tree: Json, fault: FaultModel) -> bool {
        if field::<String>(tree, "channel_display_name"@) is None {
            field_rejects::<String>(tree, "channel_display_name"@, fault)
        } else if field::<String>(tree, "channel_name"@) is None {
            field_rejects::<String>(tree, "channel_name"@, fault)
        } else if field::<ChannelType>(tree, "channel_type"@) is None {
            field_rejects::<ChannelType>(tree, "channel_type"@, fault)
        } else if field::<Option<String>>(tree, "mentions"@) is None {
            field_rejects::<Option<String>>(tree, "mentions"@, fault)
        } else if field::<String>(tree, "post"@) is None {
            field_rejects::<String>(tree, "post"@, fault)
        } else {
            false
        }
    }

    open spec fn if_absent() -> Option<PostedPayloadModel> {
        None
    }

    fn label() -> (r: String) {
        "PostedPayload".to_owned()
    }

    fn to_value(&self) -> (v: Value) {
        let mut obj = empty_object();
        object_insert(
            &mut obj,
            "channel_display_name".to_owned(),
            self.channel_display_name.to_value(),
        );
        object_insert(&mut obj, "channel_name".to_owned(), self.channel_name.to_value());
        object_insert(&mut obj, "channel_type".to_owned(), self.channel_type.to_value());
        object_insert(&mut obj, "mentions".to_owned(), self.mentions.to_value());
        object_insert(&mut obj, "post".to_owned(), self.post.to_value());
        obj
    }

    fn from_value(v: &Value) -> (r: Result<Self, Fault>) {
        let channel_display_name = read_field::<String>(v, "channel_display_name")?;
        let channel_name = read_field::<String>(v, "channel_name")?;
        let channel_type = read_field::<ChannelType>(v, "channel_type")?;
        let mentions = read_field::<Option<String>>(v, "mentions")?;
        let post = read_field::<String>(v, "post")?;
        Ok(PostedPayload { channel_display_name, channel_name, channel_type, mentions, post })
    }

    fn absent() -> (r: Option<Self>) {
        None
    }

    proof fn lemma_round_trip(m: PostedPayloadModel) {
        reveal_strlit("channel_display_name");
        reveal_strlit("channel_name");
        reveal_strlit("channel_type");
        reveal_strlit("mentions");
        reveal_strlit("post");
        assert("channel_display_name"@.len() == 20);
        assert("mentions"@.len() == 8);
        assert("post"@.len() == 4);
        assert("channel_name"@.len() == 12 && "channel_name"@[8] == 'n');
        assert("channel_type"@.len() == 12 && "channel_type"@[8] == 't');
        ChannelType::lemma_round_trip(m.channel_type);
        Option::<String>::lemma_round_trip(m.mentions);
    }

    proof fn lemma_rejects_rejected(tree: Json, fault: FaultModel) {
    }
}

/// The payload of an added or removed reaction: the reaction, as a JSON
/// text.
#[derive(Clone, Debug, PartialEq, Eq)]
pub struct ReactionPayload {
    pub reaction: String,
}

/// What a [`ReactionPayload`] stands for.
pub struct ReactionPayloadModel {
    pub reaction: Seq<char>,
}

impl Wire for ReactionPayload {
    type Model = ReactionPayloadModel;

    open spec fn name() -> Seq<char> {
        "ReactionPayload"@
    }

    open spec fn model(&self) -> ReactionPayloadModel {
        ReactionPayloadModel {
            reaction: self.reaction.model(),
        }
    }

    open spec fn valid(m: ReactionPayloadModel) -> bool {
        true
    }

    open spec fn encoded(m: ReactionPayloadModel) -> Json {
        Json::empty_object()
            .with("reaction"@, String::encoded(m.reaction))
    }

    open spec fn decoded(tree: Json) -> Option<ReactionPayloadModel> {
        let reaction = field::<String>(tree, "reaction"@);
        if reaction is Some {
            Some(ReactionPayloadModel { reaction: reaction->0 })
        } else {
            None
        }
    }

    open spec fn rejects(tree: Json, fault: FaultModel) -> bool {
        if field::<String>(tree, "reaction"@) is None {
            field_rejects::<String>(tree, "reaction"@, fault)
        } else {
            false
        }
    }

    open spec fn if_absent() -> Option<ReactionPayloadModel> {
        None
    }

    fn label() -> (r: String) {
        "ReactionPayload".to_owned()
    }

    fn to_value(&self) -> (v: Value) {
        let mut obj = empty_object();
        object_insert(&mut obj, "reaction".to_owned(), self.reaction.to_value());
        obj
    }

    fn from_value(v: &Value) -> (r: Result<Self, Fault>) {
        let reaction = read_field::<String>(v, "reaction")?;
        Ok(ReactionPayload { reaction })
    }

    fn absent() -> (r: Option<Self>) {
        None
    }

    proof fn lemma_round_trip(m: ReactionPayloadModel) {
        reveal_strlit("reaction");
    }

    proof fn lemma_rejects_rejected(tree: Json, fault: FaultModel) {
    }
}

/// The payload of a typing notice.
#[derive(Clone, Debug, PartialEq, Eq)]
pub struct TypingPayload {
    pub parent_id: String,
    pub user_id: String,
}

/// What a [`TypingPayload`] stands for.
pub struct TypingPayloadModel {
    pub parent_id: Seq<char>,
    pub user_id: Seq<char>,
}

impl Wire for TypingPayload {
    type Model = TypingPayloadModel;

    open spec fn name() -> Seq<char> {
        "TypingPayload"@
    }

    open spec fn model(&self) -> TypingPayloadModel {
        TypingPayloadModel {
            parent_id: self.parent_id.model(),
            user_id: self.user_id.model(),
        }
    }

    open spec fn valid(m: TypingPayloadModel) -> bool {
        true
    }

    open spec fn encoded(m: TypingPayloadModel) -> Json {
        Json::empty_object()
            .with("parent_id"@, String::encoded(m.parent_id))
            .with("user_id"@, String::encoded(m.user_id))
    }

    open spec fn decoded(tree: Json) -> Option<TypingPayloadModel> {
        let parent_id = field::<String>(tree, "parent_id"@);
        let user_id = field::<String>(tree, "user_id"@);
        if parent_id is Some
            && user_id is Some {
            Some(TypingPayloadModel { parent_id: parent_id->0, user_id: user_id->0 })
        } else {
            None
        }
    }

    open spec fn rejects(tree: Json, fault: FaultModel) -> bool {
        if field::<String>(tree, "parent_id"@) is None {
            field_rejects::<String>(tree, "parent_id"@, fault)
        } else if field::<String>(tree, "user_id"@) is None {
            field_rejects::<String>(tree, "user_id"@, fault)
        } else {
            false
        }
    }

    open spec fn if_absent() -> Option<TypingPayloadModel> {
        None
    }

    fn label() -> (r: String) {
        "TypingPayload".to_owned()
    }

    fn to_value(&self) -> (v: Value) {
        let mut obj = empty_object();
        object_insert(&mut obj, "parent_id".to_owned(), self.parent_id.to_value());
        object_insert(&mut obj, "user_id".to_owned(), self.user_id.to_value());
        obj
    }

    fn from_value(v: &Value) -> (r: Result<Self, Fault>) {
        let parent_id = read_field::<String>(v, "parent_id")?;
        let user_id = read_field::<String>(v, "user_id")?;
        Ok(TypingPayload { parent_id, user_id })
    }

    fn absent() -> (r: Option<Self>) {
        None
    }

    proof fn lemma_round_trip(m: TypingPayloadModel) {
        reveal_strlit("parent_id");
        reveal_strlit("user_id");
        assert("parent_id"@.len() == 9);
        assert("user_id"@.len() == 7);
    }

    proof fn lemma_rejects_rejected(tree: Json, fault: FaultModel) {
    }
}

} // verus!
