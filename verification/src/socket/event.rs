//! The events of the websocket API and the envelope they arrive in.

use vstd::prelude::*;
use serde_json::Value;
use crate::fault::{DecodeError, Fault, FaultModel};
use crate::json::{empty_object, json_of, object_insert, string_value, Json};
use crate::models::post::{Post, Reaction};
use crate::socket::broadcast::{WebsocketEventBroadcast, WebsocketEventBroadcastModel};
use crate::socket::channel::{ChannelType, ChannelTypeModel};
use crate::socket::kind::EventKind;
use crate::socket::payload::{
    HelloPayload, HelloPayloadModel, PostEditedPayload, PostEditedPayloadModel, PostedPayload,
    PostedPayloadModel, ReactionPayload, ReactionPayloadModel, TypingPayload, TypingPayloadModel,
};
use crate::wire::{
    decode, decodes_to, field, field_rejects, lemma_field_rejects_rejected, read_field, Wire,
};

verus! {

/// An event of the websocket API: its kind and its payload.
///
/// On the wire an event is an object whose member `event` names the kind and
/// whose member `data` holds the payload. The payloads that this crate reads
/// are typed; the others are kept as JSON. An event whose name is not known
/// here is kept whole in `Unknown`, so that a server may add kinds without
/// breaking a client.
#[derive(Clone, Debug, PartialEq, Eq)]
pub enum WebsocketEventType {
    AddedToTeam(Value),
    AuthenticationChallenge(Value),
    ChannelConverted(Value),
    ChannelCreated(Value),
    ChannelDeleted(Value),
    ChannelMemberUpdated(Value),
    ChannelUpdated(Value),
    ChannelViewed(Value),
    ConfigChanged(Value),
    DeleteTeam(Value),
    DirectAdded(Value),
    EmojiAdded(Value),
    EphemeralMessage(Value),
    GroupAdded(Value),
    Hello {
        connection_id: String,
        server_version: String,
    },
    LeaveTeam(Value),
    LicenseChanged(Value),
    MemberroleUpdated(Value),
    NewUser(Value),
    PluginDisabled(Value),
    PluginEnabled(Value),
    PluginStatusesChanged(Value),
    PostDeleted(Value),
    PostEdited {
        post: String,
    },
    PostUnread(Value),
    Posted {
        channel_display_name: String,
        channel_name: String,
        channel_type: ChannelType,
        mentions: Option<String>,
        post: String,
    },
    PreferenceChanged(Value),
    PreferencesChanged(Value),
    PreferencesDeleted(Value),
    ReactionAdded {
        reaction: String,
    },
    ReactionRemoved {
        reaction: String,
    },
    Response(Value),
    RoleUpdated(Value),
    StatusChange(Value),
    Typing {
        parent_id: String,
        user_id: String,
    },
    UpdateTeam(Value),
    UserAdded(Value),
    UserRemoved(Value),
    UserRoleUpdated(Value),
    UserUpdated(Value),
    DialogOpened(Value),
    ThreadUpdated(Value),
    ThreadFollowChanged(Value),
    ThreadReadChanged(Value),
    /// An event of a kind that has no other variant, with its name and its
    /// payload as they came.
    Unknown {
        event: String,
        data: Value,
    },
}

/// What a [`WebsocketEventType`] stands for.
pub enum WebsocketEventTypeModel {
    AddedToTeam(Json),
    AuthenticationChallenge(Json),
    ChannelConverted(Json),
    ChannelCreated(Json),
    ChannelDeleted(Json),
    ChannelMemberUpdated(Json),
    ChannelUpdated(Json),
    ChannelViewed(Json),
    ConfigChanged(Json),
    DeleteTeam(Json),
    DirectAdded(Json),
    EmojiAdded(Json),
    EphemeralMessage(Json),
    GroupAdded(Json),
    Hello {
        connection_id: Seq<char>,
        server_version: Seq<char>,
    },
    LeaveTeam(Json),
    LicenseChanged(Json),
    MemberroleUpdated(Json),
    NewUser(Json),
    PluginDisabled(Json),
    PluginEnabled(Json),
    PluginStatusesChanged(Json),
    PostDeleted(Json),
    PostEdited {
        post: Seq<char>,
    },
    PostUnread(Json),
    Posted {
        channel_display_name: Seq<char>,
        channel_name: Seq<char>,
        channel_type: ChannelTypeModel,
        mentions: Option<Seq<char>>,
        post: Seq<char>,
    },
    PreferenceChanged(Json),
    PreferencesChanged(Json),
    PreferencesDeleted(Json),
    ReactionAdded {
        reaction: Seq<char>,
    },
    ReactionRemoved {
        reaction: Seq<char>,
    },
    Response(Json),
    RoleUpdated(Json),
    StatusChange(Json),
    Typing {
        parent_id: Seq<char>,
        user_id: Seq<char>,
    },
    UpdateTeam(Json),
    UserAdded(Json),
    UserRemoved(Json),
    UserRoleUpdated(Json),
    UserUpdated(Json),
    DialogOpened(Json),
    ThreadUpdated(Json),
    ThreadFollowChanged(Json),
    ThreadReadChanged(Json),
    Unknown {
        event: Seq<char>,
        data: Json,
    },
}

impl WebsocketEventTypeModel {
    /// The kind of the event, or `None` for an event of unknown kind.
    pub open spec fn kind(self) -> Option<EventKind> {
        match self {
            WebsocketEventTypeModel::AddedToTeam(_) => Some(EventKind::AddedToTeam),
            WebsocketEventTypeModel::AuthenticationChallenge(_) => Some(EventKind::AuthenticationChallenge),
            WebsocketEventTypeModel::ChannelConverted(_) => Some(EventKind::ChannelConverted),
            WebsocketEventTypeModel::ChannelCreated(_) => Some(EventKind::ChannelCreated),
            WebsocketEventTypeModel::ChannelDeleted(_) => Some(EventKind::ChannelDeleted),
            WebsocketEventTypeModel::ChannelMemberUpdated(_) => Some(EventKind::ChannelMemberUpdated),
            WebsocketEventTypeModel::ChannelUpdated(_) => Some(EventKind::ChannelUpdated),
            WebsocketEventTypeModel::ChannelViewed(_) => Some(EventKind::ChannelViewed),
            WebsocketEventTypeModel::ConfigChanged(_) => Some(EventKind::ConfigChanged),
            WebsocketEventTypeModel::DeleteTeam(_) => Some(EventKind::DeleteTeam),
            WebsocketEventTypeModel::DirectAdded(_) => Some(EventKind::DirectAdded),
            WebsocketEventTypeModel::EmojiAdded(_) => Some(EventKind::EmojiAdded),
            WebsocketEventTypeModel::EphemeralMessage(_) => Some(EventKind::EphemeralMessage),
            WebsocketEventTypeModel::GroupAdded(_) => Some(EventKind::GroupAdded),
            WebsocketEventTypeModel::Hello { .. } => Some(EventKind::Hello),
            WebsocketEventTypeModel::LeaveTeam(_) => Some(EventKind::LeaveTeam),
            WebsocketEventTypeModel::LicenseChanged(_) => Some(EventKind::LicenseChanged),
            WebsocketEventTypeModel::MemberroleUpdated(_) => Some(EventKind::MemberroleUpdated),
            WebsocketEventTypeModel::NewUser(_) => Some(EventKind::NewUser),
            WebsocketEventTypeModel::PluginDisabled(_) => Some(EventKind::PluginDisabled),
            WebsocketEventTypeModel::PluginEnabled(_) => Some(EventKind::PluginEnabled),
            WebsocketEventTypeModel::PluginStatusesChanged(_) => Some(EventKind::PluginStatusesChanged),
            WebsocketEventTypeModel::PostDeleted(_) => Some(EventKind::PostDeleted),
            WebsocketEventTypeModel::PostEdited { .. } => Some(EventKind::PostEdited),
            WebsocketEventTypeModel::PostUnread(_) => Some(EventKind::PostUnread),
            WebsocketEventTypeModel::Posted { .. } => Some(EventKind::Posted),
            WebsocketEventTypeModel::PreferenceChanged(_) => Some(EventKind::PreferenceChanged),
            WebsocketEventTypeModel::PreferencesChanged(_) => Some(EventKind::PreferencesChanged),
            WebsocketEventTypeModel::PreferencesDeleted(_) => Some(EventKind::PreferencesDeleted),
            WebsocketEventTypeModel::ReactionAdded { .. } => Some(EventKind::ReactionAdded),
            WebsocketEventTypeModel::ReactionRemoved { .. } => Some(EventKind::ReactionRemoved),
            WebsocketEventTypeModel::Response(_) => Some(EventKind::Response),
            WebsocketEventTypeModel::RoleUpdated(_) => Some(EventKind::RoleUpdated),
            WebsocketEventTypeModel::StatusChange(_) => Some(EventKind::StatusChange),
            WebsocketEventTypeModel::Typing { .. } => Some(EventKind::Typing),
            WebsocketEventTypeModel::UpdateTeam(_) => Some(EventKind::UpdateTeam),
            WebsocketEventTypeModel::UserAdded(_) => Some(EventKind::UserAdded),
            WebsocketEventTypeModel::UserRemoved(_) => Some(EventKind::UserRemoved),
            WebsocketEventTypeModel::UserRoleUpdated(_) => Some(EventKind::UserRoleUpdated),
            WebsocketEventTypeModel::UserUpdated(_) => Some(EventKind::UserUpdated),
            WebsocketEventTypeModel::DialogOpened(_) => Some(EventKind::DialogOpened),
            WebsocketEventTypeModel::ThreadUpdated(_) => Some(EventKind::ThreadUpdated),
            WebsocketEventTypeModel::ThreadFollowChanged(_) => Some(EventKind::ThreadFollowChanged),
            WebsocketEventTypeModel::ThreadReadChanged(_) => Some(EventKind::ThreadReadChanged),
            WebsocketEventTypeModel::Unknown { .. } => None,
        }
    }

    /// The name of the event on the wire.
    pub open spec fn event(self) -> Seq<char> {
        match self {
            WebsocketEventTypeModel::Unknown { event, .. } => event,
            _ => self.kind()->0.token(),
        }
    }

    /// The payload of the event on the wire.
    pub open spec fn payload(self) -> Json {
        match self {
            WebsocketEventTypeModel::AddedToTeam(data) => data,
            WebsocketEventTypeModel::AuthenticationChallenge(data) => data,
            WebsocketEventTypeModel::ChannelConverted(data) => data,
            WebsocketEventTypeModel::ChannelCreated(data) => data,
            WebsocketEventTypeModel::ChannelDeleted(data) => data,
            WebsocketEventTypeModel::ChannelMemberUpdated(data) => data,
            WebsocketEventTypeModel::ChannelUpdated(data) => data,
            WebsocketEventTypeModel::ChannelViewed(data) => data,
            WebsocketEventTypeModel::ConfigChanged(data) => data,
            WebsocketEventTypeModel::DeleteTeam(data) => data,
            WebsocketEventTypeModel::DirectAdded(data) => data,
            WebsocketEventTypeModel::EmojiAdded(data) => data,
            WebsocketEventTypeModel::EphemeralMessage(data) => data,
            WebsocketEventTypeModel::GroupAdded(data) => data,
            WebsocketEventTypeModel::Hello { connection_id, server_version } => HelloPayload::encoded(
                HelloPayloadModel { connection_id, server_version },
            ),
            WebsocketEventTypeModel::LeaveTeam(data) => data,
            WebsocketEventTypeModel::LicenseChanged(data) => data,
            WebsocketEventTypeModel::MemberroleUpdated(data) => data,
            WebsocketEventTypeModel::NewUser(data) => data,
            WebsocketEventTypeModel::PluginDisabled(data) => data,
            WebsocketEventTypeModel::PluginEnabled(data) => data,
            WebsocketEventTypeModel::PluginStatusesChanged(data) => data,
            WebsocketEventTypeModel::PostDeleted(data) => data,
            WebsocketEventTypeModel::PostEdited { post } => PostEditedPayload::encoded(
                PostEditedPayloadModel { post },
            ),
            WebsocketEventTypeModel::PostUnread(data) => data,
            WebsocketEventTypeModel::Posted { channel_display_name, channel_name, channel_type, mentions, post } => PostedPayload::encoded(
                PostedPayloadModel { channel_display_name, channel_name, channel_type, mentions, post },
            ),
            WebsocketEventTypeModel::PreferenceChanged(data) => data,
            WebsocketEventTypeModel::PreferencesChanged(data) => data,
            WebsocketEventTypeModel::PreferencesDeleted(data) => data,
            WebsocketEventTypeModel::ReactionAdded { reaction } => ReactionPayload::encoded(
                ReactionPayloadModel { reaction },
            ),
            WebsocketEventTypeModel::ReactionRemoved { reaction } => ReactionPayload::encoded(
                ReactionPayloadModel { reaction },
            ),
            WebsocketEventTypeModel::Response(data) => data,
            WebsocketEventTypeModel::RoleUpdated(data) => data,
            WebsocketEventTypeModel::StatusChange(data) => data,
            WebsocketEventTypeModel::Typing { parent_id, user_id } => TypingPayload::encoded(
                TypingPayloadModel { parent_id, user_id },
            ),
            WebsocketEventTypeModel::UpdateTeam(data) => data,
            WebsocketEventTypeModel::UserAdded(data) => data,
            WebsocketEventTypeModel::UserRemoved(data) => data,
            WebsocketEventTypeModel::UserRoleUpdated(data) => data,
            WebsocketEventTypeModel::UserUpdated(data) => data,
            WebsocketEventTypeModel::DialogOpened(data) => data,
            WebsocketEventTypeModel::ThreadUpdated(data) => data,
            WebsocketEventTypeModel::ThreadFollowChanged(data) => data,
            WebsocketEventTypeModel::ThreadReadChanged(data) => data,
            WebsocketEventTypeModel::Unknown { data, .. } => data,
        }
    }

    /// The event of a known kind that an object is read as: its payload is
    /// the member `data` of the object.
    pub open spec fn of_kind(kind: EventKind, tree: Json) -> Option<WebsocketEventTypeModel> {
        match kind {
            EventKind::AddedToTeam => match field::<Value>(tree, "data"@) {
                Some(data) => Some(WebsocketEventTypeModel::AddedToTeam(data)),
                None => None,
            },
            EventKind::AuthenticationChallenge => match field::<Value>(tree, "data"@) {
                Some(data) => Some(WebsocketEventTypeModel::AuthenticationChallenge(data)),
                None => None,
            },
            EventKind::ChannelConverted => match field::<Value>(tree, "data"@) {
                Some(data) => Some(WebsocketEventTypeModel::ChannelConverted(data)),
                None => None,
            },
            EventKind::ChannelCreated => match field::<Value>(tree, "data"@) {
                Some(data) => Some(WebsocketEventTypeModel::ChannelCreated(data)),
                None => None,
            },
            EventKind::ChannelDeleted => match field::<Value>(tree, "data"@) {
                Some(data) => Some(WebsocketEventTypeModel::ChannelDeleted(data)),
                None => None,
            },
            EventKind::ChannelMemberUpdated => match field::<Value>(tree, "data"@) {
                Some(data) => Some(WebsocketEventTypeModel::ChannelMemberUpdated(data)),
                None => None,
            },
            EventKind::ChannelUpdated => match field::<Value>(tree, "data"@) {
                Some(data) => Some(WebsocketEventTypeModel::ChannelUpdated(data)),
                None => None,
            },
            EventKind::ChannelViewed => match field::<Value>(tree, "data"@) {
                Some(data) => Some(WebsocketEventTypeModel::ChannelViewed(data)),
                None => None,
            },
            EventKind::ConfigChanged => match field::<Value>(tree, "data"@) {
                Some(data) => Some(WebsocketEventTypeModel::ConfigChanged(data)),
                None => None,
            },
            EventKind::DeleteTeam => match field::<Value>(tree, "data"@) {
                Some(data) => Some(WebsocketEventTypeModel::DeleteTeam(data)),
                None => None,
            },
            EventKind::DirectAdded => match field::<Value>(tree, "data"@) {
                Some(data) => Some(WebsocketEventTypeModel::DirectAdded(data)),
                None => None,
            },
            EventKind::EmojiAdded => match field::<Value>(tree, "data"@) {
                Some(data) => Some(WebsocketEventTypeModel::EmojiAdded(data)),
                None => None,
            },
            EventKind::EphemeralMessage => match field::<Value>(tree, "data"@) {
                Some(data) => Some(WebsocketEventTypeModel::EphemeralMessage(data)),
                None => None,
            },
            EventKind::GroupAdded => match field::<Value>(tree, "data"@) {
                Some(data) => Some(WebsocketEventTypeModel::GroupAdded(data)),
                None => None,
            },
            EventKind::Hello => match field::<HelloPayload>(tree, "data"@) {
                Some(p) => Some(
                    WebsocketEventTypeModel::Hello {
                        connection_id: p.connection_id,
                        server_version: p.server_version,
                    },
                ),
                None => None,
            },
            EventKind::LeaveTeam => match field::<Value>(tree, "data"@) {
                Some(data) => Some(WebsocketEventTypeModel::LeaveTeam(data)),
                None => None,
            },
            EventKind::LicenseChanged => match field::<Value>(tree, "data"@) {
                Some(data) => Some(WebsocketEventTypeModel::LicenseChanged(data)),
                None => None,
            },
            EventKind::MemberroleUpdated => match field::<Value>(tree, "data"@) {
                Some(data) => Some(WebsocketEventTypeModel::MemberroleUpdated(data)),
                None => None,
            },
            EventKind::NewUser => match field::<Value>(tree, "data"@) {
                Some(data) => Some(WebsocketEventTypeModel::NewUser(data)),
                None => None,
            },
            EventKind::PluginDisabled => match field::<Value>(tree, "data"@) {
                Some(data) => Some(WebsocketEventTypeModel::PluginDisabled(data)),
                None => None,
            },
            EventKind::PluginEnabled => match field::<Value>(tree, "data"@) {
                Some(data) => Some(WebsocketEventTypeModel::PluginEnabled(data)),
                None => None,
            },
            EventKind::PluginStatusesChanged => match field::<Value>(tree, "data"@) {
                Some(data) => Some(WebsocketEventTypeModel::PluginStatusesChanged(data)),
                None => None,
            },
            EventKind::PostDeleted => match field::<Value>(tree, "data"@) {
                Some(data) => Some(WebsocketEventTypeModel::PostDeleted(data)),
                None => None,
            },
            EventKind::PostEdited => match field::<PostEditedPayload>(tree, "data"@) {
                Some(p) => Some(
                    WebsocketEventTypeModel::PostEdited {
                        post: p.post,
                    },
                ),
                None => None,
            },
            EventKind::PostUnread => match field::<Value>(tree, "data"@) {
                Some(data) => Some(WebsocketEventTypeModel::PostUnread(data)),
                None => None,
            },
            EventKind::Posted => match field::<PostedPayload>(tree, "data"@) {
                Some(p) => Some(
                    WebsocketEventTypeModel::Posted {
                        channel_display_name: p.channel_display_name,
                        channel_name: p.channel_name,
                        channel_type: p.channel_type,
                        mentions: p.mentions,
                        post: p.post,
                    },
                ),
                None => None,
            },
            EventKind::PreferenceChanged => match field::<Value>(tree, "data"@) {
                Some(data) => Some(WebsocketEventTypeModel::PreferenceChanged(data)),
                None => None,
            },
            EventKind::PreferencesChanged => match field::<Value>(tree, "data"@) {
                Some(data) => Some(WebsocketEventTypeModel::PreferencesChanged(data)),
                None => None,
            },
            EventKind::PreferencesDeleted => match field::<Value>(tree, "data"@) {
                Some(data) => Some(WebsocketEventTypeModel::PreferencesDeleted(data)),
                None => None,
            },
            EventKind::ReactionAdded => match field::<ReactionPayload>(tree, "data"@) {
                Some(p) => Some(
                    WebsocketEventTypeModel::ReactionAdded {
                        reaction: p.reaction,
                    },
                ),
                None => None,
            },
            EventKind::ReactionRemoved => match field::<ReactionPayload>(tree, "data"@) {
                Some(p) => Some(
                    WebsocketEventTypeModel::ReactionRemoved {
                        reaction: p.reaction,
                    },
                ),
                None => None,
            },
            EventKind::Response => match field::<Value>(tree, "data"@) {
                Some(data) => Some(WebsocketEventTypeModel::Response(data)),
                None => None,
            },
            EventKind::RoleUpdated => match field::<Value>(tree, "data"@) {
                Some(data) => Some(WebsocketEventTypeModel::RoleUpdated(data)),
                None => None,
            },
            EventKind::StatusChange => match field::<Value>(tree, "data"@) {
                Some(data) => Some(WebsocketEventTypeModel::StatusChange(data)),
                None => None,
            },
            EventKind::Typing => match field::<TypingPayload>(tree, "data"@) {
                Some(p) => Some(
                    WebsocketEventTypeModel::Typing {
                        parent_id: p.parent_id,
                        user_id: p.user_id,
                    },
                ),
                None => None,
            },
            EventKind::UpdateTeam => match field::<Value>(tree, "data"@) {
                Some(data) => Some(WebsocketEventTypeModel::UpdateTeam(data)),
                None => None,
            },
            EventKind::UserAdded => match field::<Value>(tree, "data"@) {
                Some(data) => Some(WebsocketEventTypeModel::UserAdded(data)),
                None => None,
            },
            EventKind::UserRemoved => match field::<Value>(tree, "data"@) {
                Some(data) => Some(WebsocketEventTypeModel::UserRemoved(data)),
                None => None,
            },
            EventKind::UserRoleUpdated => match field::<Value>(tree, "data"@) {
                Some(data) => Some(WebsocketEventTypeModel::UserRoleUpdated(data)),
                None => None,
            },
            EventKind::UserUpdated => match field::<Value>(tree, "data"@) {
                Some(data) => Some(WebsocketEventTypeModel::UserUpdated(data)),
                None => None,
            },
            EventKind::DialogOpened => match field::<Value>(tree, "data"@) {
                Some(data) => Some(WebsocketEventTypeModel::DialogOpened(data)),
                None => None,
            },
            EventKind::ThreadUpdated => match field::<Value>(tree, "data"@) {
                Some(data) => Some(WebsocketEventTypeModel::ThreadUpdated(data)),
                None => None,
            },
            EventKind::ThreadFollowChanged => match field::<Value>(tree, "data"@) {
                Some(data) => Some(WebsocketEventTypeModel::ThreadFollowChanged(data)),
                None => None,
            },
            EventKind::ThreadReadChanged => match field::<Value>(tree, "data"@) {
                Some(data) => Some(WebsocketEventTypeModel::ThreadReadChanged(data)),
                None => None,
            },
        }
    }

    /// Whether `fault` reports why an object cannot be read as an event of the
    /// given kind.
    pub open spec fn kind_rejects(kind: EventKind, tree: Json, fault: FaultModel) -> bool {
        match kind {
            EventKind::Hello => field_rejects::<HelloPayload>(tree, "data"@, fault),
            EventKind::PostEdited => field_rejects::<PostEditedPayload>(tree, "data"@, fault),
            EventKind::Posted => field_rejects::<PostedPayload>(tree, "data"@, fault),
            EventKind::ReactionAdded => field_rejects::<ReactionPayload>(tree, "data"@, fault),
            EventKind::ReactionRemoved => field_rejects::<ReactionPayload>(tree, "data"@, fault),
            EventKind::Typing => field_rejects::<TypingPayload>(tree, "data"@, fault),
            _ => field_rejects::<Value>(tree, "data"@, fault),
        }
    }
}

impl Wire for WebsocketEventType {
    type Model = WebsocketEventTypeModel;

    open spec fn name() -> Seq<char> {
        "WebsocketEventType"@
    }

    open spec fn model(&self) -> WebsocketEventTypeModel {
        match self {
            WebsocketEventType::AddedToTeam(data) => WebsocketEventTypeModel::AddedToTeam(json_of(*data)),
            WebsocketEventType::AuthenticationChallenge(data) => WebsocketEventTypeModel::AuthenticationChallenge(json_of(*data)),
            WebsocketEventType::ChannelConverted(data) => WebsocketEventTypeModel::ChannelConverted(json_of(*data)),
            WebsocketEventType::ChannelCreated(data) => WebsocketEventTypeModel::ChannelCreated(json_of(*data)),
            WebsocketEventType::ChannelDeleted(data) => WebsocketEventTypeModel::ChannelDeleted(json_of(*data)),
            WebsocketEventType::ChannelMemberUpdated(data) => WebsocketEventTypeModel::ChannelMemberUpdated(json_of(*data)),
            WebsocketEventType::ChannelUpdated(data) => WebsocketEventTypeModel::ChannelUpdated(json_of(*data)),
            WebsocketEventType::ChannelViewed(data) => WebsocketEventTypeModel::ChannelViewed(json_of(*data)),
            WebsocketEventType::ConfigChanged(data) => WebsocketEventTypeModel::ConfigChanged(json_of(*data)),
            WebsocketEventType::DeleteTeam(data) => WebsocketEventTypeModel::DeleteTeam(json_of(*data)),
            WebsocketEventType::DirectAdded(data) => WebsocketEventTypeModel::DirectAdded(json_of(*data)),
            WebsocketEventType::EmojiAdded(data) => WebsocketEventTypeModel::EmojiAdded(json_of(*data)),
            WebsocketEventType::EphemeralMessage(data) => WebsocketEventTypeModel::EphemeralMessage(json_of(*data)),
            WebsocketEventType::GroupAdded(data) => WebsocketEventTypeModel::GroupAdded(json_of(*data)),
            WebsocketEventType::Hello { connection_id, server_version } => WebsocketEventTypeModel::Hello {
                connection_id: connection_id.model(),
                server_version: server_version.model(),
            },
            WebsocketEventType::LeaveTeam(data) => WebsocketEventTypeModel::LeaveTeam(json_of(*data)),
            WebsocketEventType::LicenseChanged(data) => WebsocketEventTypeModel::LicenseChanged(json_of(*data)),
            WebsocketEventType::MemberroleUpdated(data) => WebsocketEventTypeModel::MemberroleUpdated(json_of(*data)),
            WebsocketEventType::NewUser(data) => WebsocketEventTypeModel::NewUser(json_of(*data)),
            WebsocketEventType::PluginDisabled(data) => WebsocketEventTypeModel::PluginDisabled(json_of(*data)),
            WebsocketEventType::PluginEnabled(data) => WebsocketEventTypeModel::PluginEnabled(json_of(*data)),
            WebsocketEventType::PluginStatusesChanged(data) => WebsocketEventTypeModel::PluginStatusesChanged(json_of(*data)),
            WebsocketEventType::PostDeleted(data) => WebsocketEventTypeModel::PostDeleted(json_of(*data)),
            WebsocketEventType::PostEdited { post } => WebsocketEventTypeModel::PostEdited {
                post: post.model(),
            },
            WebsocketEventType::PostUnread(data) => WebsocketEventTypeModel::PostUnread(json_of(*data)),
            WebsocketEventType::Posted { channel_display_name, channel_name, channel_type, mentions, post } => WebsocketEventTypeModel::Posted {
                channel_display_name: channel_display_name.model(),
                channel_name: channel_name.model(),
                channel_type: channel_type.model(),
                mentions: mentions.model(),
                post: post.model(),
            },
            WebsocketEventType::PreferenceChanged(data) => WebsocketEventTypeModel::PreferenceChanged(json_of(*data)),
            WebsocketEventType::PreferencesChanged(data) => WebsocketEventTypeModel::PreferencesChanged(json_of(*data)),
            WebsocketEventType::PreferencesDeleted(data) => WebsocketEventTypeModel::PreferencesDeleted(json_of(*data)),
            WebsocketEventType::ReactionAdded { reaction } => WebsocketEventTypeModel::ReactionAdded {
                reaction: reaction.model(),
            },
            WebsocketEventType::ReactionRemoved { reaction } => WebsocketEventTypeModel::ReactionRemoved {
                reaction: reaction.model(),
            },
            WebsocketEventType::Response(data) => WebsocketEventTypeModel::Response(json_of(*data)),
            WebsocketEventType::RoleUpdated(data) => WebsocketEventTypeModel::RoleUpdated(json_of(*data)),
            WebsocketEventType::StatusChange(data) => WebsocketEventTypeModel::StatusChange(json_of(*data)),
            WebsocketEventType::Typing { parent_id, user_id } => WebsocketEventTypeModel::Typing {
                parent_id: parent_id.model(),
                user_id: user_id.model(),
            },
            WebsocketEventType::UpdateTeam(data) => WebsocketEventTypeModel::UpdateTeam(json_of(*data)),
            WebsocketEventType::UserAdded(data) => WebsocketEventTypeModel::UserAdded(json_of(*data)),
            WebsocketEventType::UserRemoved(data) => WebsocketEventTypeModel::UserRemoved(json_of(*data)),
            WebsocketEventType::UserRoleUpdated(data) => WebsocketEventTypeModel::UserRoleUpdated(json_of(*data)),
            WebsocketEventType::UserUpdated(data) => WebsocketEventTypeModel::UserUpdated(json_of(*data)),
            WebsocketEventType::DialogOpened(data) => WebsocketEventTypeModel::DialogOpened(json_of(*data)),
            WebsocketEventType::ThreadUpdated(data) => WebsocketEventTypeModel::ThreadUpdated(json_of(*data)),
            WebsocketEventType::ThreadFollowChanged(data) => WebsocketEventTypeModel::ThreadFollowChanged(json_of(*data)),
            WebsocketEventType::ThreadReadChanged(data) => WebsocketEventTypeModel::ThreadReadChanged(json_of(*data)),
            WebsocketEventType::Unknown { event, data } => WebsocketEventTypeModel::Unknown {
                event: event@,
                data: json_of(*data),
            },
        }
    }

    /// `Unknown` is for the names that have no variant of their own.
    open spec fn valid(m: WebsocketEventTypeModel) -> bool {
        match m {
            WebsocketEventTypeModel::Posted { channel_type, .. } => ChannelType::valid(channel_type),
            WebsocketEventTypeModel::Unknown { event, .. } => EventKind::of_token(event) is None,
            _ => true,
        }
    }

    open spec fn encoded(m: WebsocketEventTypeModel) -> Json {
        Json::empty_object().with("event"@, Json::Str(m.event())).with("data"@, m.payload())
    }

    open spec fn decoded(tree: Json) -> Option<WebsocketEventTypeModel> {
        match field::<String>(tree, "event"@) {
            Some(event) => match EventKind::of_token(event) {
                Some(kind) => WebsocketEventTypeModel::of_kind(kind, tree),
                None => match field::<Value>(tree, "data"@) {
                    Some(data) => Some(WebsocketEventTypeModel::Unknown { event, data }),
                    None => None,
                },
            },
            None => None,
        }
    }

    open spec fn rejects(tree: Json, fault: FaultModel) -> bool {
        match field::<String>(tree, "event"@) {
            Some(event) => match EventKind::of_token(event) {
                Some(kind) => WebsocketEventTypeModel::kind_rejects(kind, tree, fault),
                None => field_rejects::<Value>(tree, "data"@, fault),
            },
            None => field_rejects::<String>(tree, "event"@, fault),
        }
    }

    open spec fn if_absent() -> Option<WebsocketEventTypeModel> {
        None
    }

    fn label() -> (r: String) {
        "WebsocketEventType".to_owned()
    }

    fn to_value(&self) -> (v: Value) {
        let (event, data) = match self {
            WebsocketEventType::AddedToTeam(data) => (EventKind::AddedToTeam.wire_name(), data.clone()),
            WebsocketEventType::AuthenticationChallenge(data) => (EventKind::AuthenticationChallenge.wire_name(), data.clone()),
            WebsocketEventType::ChannelConverted(data) => (EventKind::ChannelConverted.wire_name(), data.clone()),
            WebsocketEventType::ChannelCreated(data) => (EventKind::ChannelCreated.wire_name(), data.clone()),
            WebsocketEventType::ChannelDeleted(data) => (EventKind::ChannelDeleted.wire_name(), data.clone()),
            WebsocketEventType::ChannelMemberUpdated(data) => (EventKind::ChannelMemberUpdated.wire_name(), data.clone()),
            WebsocketEventType::ChannelUpdated(data) => (EventKind::ChannelUpdated.wire_name(), data.clone()),
            WebsocketEventType::ChannelViewed(data) => (EventKind::ChannelViewed.wire_name(), data.clone()),
            WebsocketEventType::ConfigChanged(data) => (EventKind::ConfigChanged.wire_name(), data.clone()),
            WebsocketEventType::DeleteTeam(data) => (EventKind::DeleteTeam.wire_name(), data.clone()),
            WebsocketEventType::DirectAdded(data) => (EventKind::DirectAdded.wire_name(), data.clone()),
            WebsocketEventType::EmojiAdded(data) => (EventKind::EmojiAdded.wire_name(), data.clone()),
            WebsocketEventType::EphemeralMessage(data) => (EventKind::EphemeralMessage.wire_name(), data.clone()),
            WebsocketEventType::GroupAdded(data) => (EventKind::GroupAdded.wire_name(), data.clone()),
            WebsocketEventType::Hello { connection_id, server_version } => {
                let mut data = empty_object();
                object_insert(&mut data, "connection_id".to_owned(), connection_id.to_value());
                object_insert(&mut data, "server_version".to_owned(), server_version.to_value());
                (EventKind::Hello.wire_name(), data)
            },
            WebsocketEventType::LeaveTeam(data) => (EventKind::LeaveTeam.wire_name(), data.clone()),
            WebsocketEventType::LicenseChanged(data) => (EventKind::LicenseChanged.wire_name(), data.clone()),
            WebsocketEventType::MemberroleUpdated(data) => (EventKind::MemberroleUpdated.wire_name(), data.clone()),
            WebsocketEventType::NewUser(data) => (EventKind::NewUser.wire_name(), data.clone()),
            WebsocketEventType::PluginDisabled(data) => (EventKind::PluginDisabled.wire_name(), data.clone()),
            WebsocketEventType::PluginEnabled(data) => (EventKind::PluginEnabled.wire_name(), data.clone()),
            WebsocketEventType::PluginStatusesChanged(data) => (EventKind::PluginStatusesChanged.wire_name(), data.clone()),
            WebsocketEventType::PostDeleted(data) => (EventKind::PostDeleted.wire_name(), data.clone()),
            WebsocketEventType::PostEdited { post } => {
                let mut data = empty_object();
                object_insert(&mut data, "post".to_owned(), post.to_value());
                (EventKind::PostEdited.wire_name(), data)
            },
            WebsocketEventType::PostUnread(data) => (EventKind::PostUnread.wire_name(), data.clone()),
            WebsocketEventType::Posted { channel_display_name, channel_name, channel_type, mentions, post } => {
                let mut data = empty_object();
                object_insert(
                    &mut data,
                    "channel_display_name".to_owned(),
                    channel_display_name.to_value(),
                );
                object_insert(&mut data, "channel_name".to_owned(), channel_name.to_value());
                object_insert(&mut data, "channel_type".to_owned(), channel_type.to_value());
                object_insert(&mut data, "mentions".to_owned(), mentions.to_value());
                object_insert(&mut data, "post".to_owned(), post.to_value());
                (EventKind::Posted.wire_name(), data)
            },
            WebsocketEventType::PreferenceChanged(data) => (EventKind::PreferenceChanged.wire_name(), data.clone()),
            WebsocketEventType::PreferencesChanged(data) => (EventKind::PreferencesChanged.wire_name(), data.clone()),
            WebsocketEventType::PreferencesDeleted(data) => (EventKind::PreferencesDeleted.wire_name(), data.clone()),
            WebsocketEventType::ReactionAdded { reaction } => {
                let mut data = empty_object();
                object_insert(&mut data, "reaction".to_owned(), reaction.to_value());
                (EventKind::ReactionAdded.wire_name(), data)
            },
            WebsocketEventType::ReactionRemoved { reaction } => {
                let mut data = empty_object();
                object_insert(&mut data, "reaction".to_owned(), reaction.to_value());
                (EventKind::ReactionRemoved.wire_name(), data)
            },
            WebsocketEventType::Response(data) => (EventKind::Response.wire_name(), data.clone()),
            WebsocketEventType::RoleUpdated(data) => (EventKind::RoleUpdated.wire_name(), data.clone()),
            WebsocketEventType::StatusChange(data) => (EventKind::StatusChange.wire_name(), data.clone()),
            WebsocketEventType::Typing { parent_id, user_id } => {
                let mut data = empty_object();
                object_insert(&mut data, "parent_id".to_owned(), parent_id.to_value());
                object_insert(&mut data, "user_id".to_owned(), user_id.to_value());
                (EventKind::Typing.wire_name(), data)
            },
            WebsocketEventType::UpdateTeam(data) => (EventKind::UpdateTeam.wire_name(), data.clone()),
            WebsocketEventType::UserAdded(data) => (EventKind::UserAdded.wire_name(), data.clone()),
            WebsocketEventType::UserRemoved(data) => (EventKind::UserRemoved.wire_name(), data.clone()),
            WebsocketEventType::UserRoleUpdated(data) => (EventKind::UserRoleUpdated.wire_name(), data.clone()),
            WebsocketEventType::UserUpdated(data) => (EventKind::UserUpdated.wire_name(), data.clone()),
            WebsocketEventType::DialogOpened(data) => (EventKind::DialogOpened.wire_name(), data.clone()),
            WebsocketEventType::ThreadUpdated(data) => (EventKind::ThreadUpdated.wire_name(), data.clone()),
            WebsocketEventType::ThreadFollowChanged(data) => (EventKind::ThreadFollowChanged.wire_name(), data.clone()),
            WebsocketEventType::ThreadReadChanged(data) => (EventKind::ThreadReadChanged.wire_name(), data.clone()),
            WebsocketEventType::Unknown { event, data } => (event.clone(), data.clone()),
        };
        let mut obj = empty_object();
        object_insert(&mut obj, "event".to_owned(), string_value(event));
        object_insert(&mut obj, "data".to_owned(), data);
        obj
    }

    fn from_value(v: &Value) -> (r: Result<Self, Fault>) {
        let event = read_field::<String>(v, "event")?;
        match EventKind::from_name(event.as_str()) {
            Some(kind) => match kind {
                EventKind::AddedToTeam => Ok(
                    WebsocketEventType::AddedToTeam(read_field::<Value>(v, "data")?),
                ),
                EventKind::AuthenticationChallenge => Ok(
                    WebsocketEventType::AuthenticationChallenge(read_field::<Value>(v, "data")?),
                ),
                EventKind::ChannelConverted => Ok(
                    WebsocketEventType::ChannelConverted(read_field::<Value>(v, "data")?),
                ),
                EventKind::ChannelCreated => Ok(
                    WebsocketEventType::ChannelCreated(read_field::<Value>(v, "data")?),
                ),
                EventKind::ChannelDeleted => Ok(
                    WebsocketEventType::ChannelDeleted(read_field::<Value>(v, "data")?),
                ),
                EventKind::ChannelMemberUpdated => Ok(
                    WebsocketEventType::ChannelMemberUpdated(read_field::<Value>(v, "data")?),
                ),
                EventKind::ChannelUpdated => Ok(
                    WebsocketEventType::ChannelUpdated(read_field::<Value>(v, "data")?),
                ),
                EventKind::ChannelViewed => Ok(
                    WebsocketEventType::ChannelViewed(read_field::<Value>(v, "data")?),
                ),
                EventKind::ConfigChanged => Ok(
                    WebsocketEventType::ConfigChanged(read_field::<Value>(v, "data")?),
                ),
                EventKind::DeleteTeam => Ok(
                    WebsocketEventType::DeleteTeam(read_field::<Value>(v, "data")?),
                ),
                EventKind::DirectAdded => Ok(
                    WebsocketEventType::DirectAdded(read_field::<Value>(v, "data")?),
                ),
                EventKind::EmojiAdded => Ok(
                    WebsocketEventType::EmojiAdded(read_field::<Value>(v, "data")?),
                ),
                EventKind::EphemeralMessage => Ok(
                    WebsocketEventType::EphemeralMessage(read_field::<Value>(v, "data")?),
                ),
                EventKind::GroupAdded => Ok(
                    WebsocketEventType::GroupAdded(read_field::<Value>(v, "data")?),
                ),
                EventKind::Hello => {
                    let p = read_field::<HelloPayload>(v, "data")?;
                    Ok(
                        WebsocketEventType::Hello {
                            connection_id: p.connection_id,
                            server_version: p.server_version,
                        },
                    )
                },
                EventKind::LeaveTeam => Ok(
                    WebsocketEventType::LeaveTeam(read_field::<Value>(v, "data")?),
                ),
                EventKind::LicenseChanged => Ok(
                    WebsocketEventType::LicenseChanged(read_field::<Value>(v, "data")?),
                ),
                EventKind::MemberroleUpdated => Ok(
                    WebsocketEventType::MemberroleUpdated(read_field::<Value>(v, "data")?),
                ),
                EventKind::NewUser => Ok(
                    WebsocketEventType::NewUser(read_field::<Value>(v, "data")?),
                ),
                EventKind::PluginDisabled => Ok(
                    WebsocketEventType::PluginDisabled(read_field::<Value>(v, "data")?),
                ),
                EventKind::PluginEnabled => Ok(
                    WebsocketEventType::PluginEnabled(read_field::<Value>(v, "data")?),
                ),
                EventKind::PluginStatusesChanged => Ok(
                    WebsocketEventType::PluginStatusesChanged(read_field::<Value>(v, "data")?),
                ),
                EventKind::PostDeleted => Ok(
                    WebsocketEventType::PostDeleted(read_field::<Value>(v, "data")?),
                ),
                EventKind::PostEdited => {
                    let p = read_field::<PostEditedPayload>(v, "data")?;
                    Ok(WebsocketEventType::PostEdited { post: p.post })
                },
                EventKind::PostUnread => Ok(
                    WebsocketEventType::PostUnread(read_field::<Value>(v, "data")?),
                ),
                EventKind::Posted => {
                    let p = read_field::<PostedPayload>(v, "data")?;
                    Ok(
                        WebsocketEventType::Posted {
                            channel_display_name: p.channel_display_name,
                            channel_name: p.channel_name,
                            channel_type: p.channel_type,
                            mentions: p.mentions,
                            post: p.post,
                        },
                    )
                },
                EventKind::PreferenceChanged => Ok(
                    WebsocketEventType::PreferenceChanged(read_field::<Value>(v, "data")?),
                ),
                EventKind::PreferencesChanged => Ok(
                    WebsocketEventType::PreferencesChanged(read_field::<Value>(v, "data")?),
                ),
                EventKind::PreferencesDeleted => Ok(
                    WebsocketEventType::PreferencesDeleted(read_field::<Value>(v, "data")?),
                ),
                EventKind::ReactionAdded => {
                    let p = read_field::<ReactionPayload>(v, "data")?;
                    Ok(WebsocketEventType::ReactionAdded { reaction: p.reaction })
                },
                EventKind::ReactionRemoved => {
                    let p = read_field::<ReactionPayload>(v, "data")?;
                    Ok(WebsocketEventType::ReactionRemoved { reaction: p.reaction })
                },
                EventKind::Response => Ok(
                    WebsocketEventType::Response(read_field::<Value>(v, "data")?),
                ),
                EventKind::RoleUpdated => Ok(
                    WebsocketEventType::RoleUpdated(read_field::<Value>(v, "data")?),
                ),
                EventKind::StatusChange => Ok(
                    WebsocketEventType::StatusChange(read_field::<Value>(v, "data")?),
                ),
                EventKind::Typing => {
                    let p = read_field::<TypingPayload>(v, "data")?;
                    Ok(WebsocketEventType::Typing { parent_id: p.parent_id, user_id: p.user_id })
                },
                EventKind::UpdateTeam => Ok(
                    WebsocketEventType::UpdateTeam(read_field::<Value>(v, "data")?),
                ),
                EventKind::UserAdded => Ok(
                    WebsocketEventType::UserAdded(read_field::<Value>(v, "data")?),
                ),
                EventKind::UserRemoved => Ok(
                    WebsocketEventType::UserRemoved(read_field::<Value>(v, "data")?),
                ),
                EventKind::UserRoleUpdated => Ok(
                    WebsocketEventType::UserRoleUpdated(read_field::<Value>(v, "data")?),
                ),
                EventKind::UserUpdated => Ok(
                    WebsocketEventType::UserUpdated(read_field::<Value>(v, "data")?),
                ),
                EventKind::DialogOpened => Ok(
                    WebsocketEventType::DialogOpened(read_field::<Value>(v, "data")?),
                ),
                EventKind::ThreadUpdated => Ok(
                    WebsocketEventType::ThreadUpdated(read_field::<Value>(v, "data")?),
                ),
                EventKind::ThreadFollowChanged => Ok(
                    WebsocketEventType::ThreadFollowChanged(read_field::<Value>(v, "data")?),
                ),
                EventKind::ThreadReadChanged => Ok(
                    WebsocketEventType::ThreadReadChanged(read_field::<Value>(v, "data")?),
                ),
            },
            None => {
                let data = read_field::<Value>(v, "data")?;
                Ok(WebsocketEventType::Unknown { event, data })
            },
        }
    }

    fn absent() -> (r: Option<Self>) {
        None
    }

    proof fn lemma_round_trip(m: WebsocketEventTypeModel) {
        reveal_strlit("event");
        reveal_strlit("data");
        assert("event"@.len() == 5);
        assert("data"@.len() == 4);
        let tree = Self::encoded(m);
        assert(tree.member("event"@) == Some(Json::Str(m.event())));
        assert(tree.member("data"@) == Some(m.payload()));
        if let Some(kind) = m.kind() {
            EventKind::lemma_round_trip(kind);
        }
        match m {
            WebsocketEventTypeModel::Hello { connection_id, server_version } => {
                HelloPayload::lemma_round_trip(HelloPayloadModel { connection_id, server_version });
            },
            WebsocketEventTypeModel::PostEdited { post } => {
                PostEditedPayload::lemma_round_trip(PostEditedPayloadModel { post });
            },
            WebsocketEventTypeModel::Posted { channel_display_name, channel_name, channel_type, mentions, post } => {
                PostedPayload::lemma_round_trip(PostedPayloadModel { channel_display_name, channel_name, channel_type, mentions, post });
            },
            WebsocketEventTypeModel::ReactionAdded { reaction } => {
                ReactionPayload::lemma_round_trip(ReactionPayloadModel { reaction });
            },
            WebsocketEventTypeModel::ReactionRemoved { reaction } => {
                ReactionPayload::lemma_round_trip(ReactionPayloadModel { reaction });
            },
            WebsocketEventTypeModel::Typing { parent_id, user_id } => {
                TypingPayload::lemma_round_trip(TypingPayloadModel { parent_id, user_id });
            },
            _ => {},
        }
    }

    proof fn lemma_rejects_rejected(tree: Json, fault: FaultModel) {
        match field::<String>(tree, "event"@) {
            Some(event) => match EventKind::of_token(event) {
                Some(kind) => match kind {
                    EventKind::Hello => {
                        lemma_field_rejects_rejected::<HelloPayload>(tree, "data"@, fault);
                    },
                    EventKind::PostEdited => {
                        lemma_field_rejects_rejected::<PostEditedPayload>(tree, "data"@, fault);
                    },
                    EventKind::Posted => {
                        lemma_field_rejects_rejected::<PostedPayload>(tree, "data"@, fault);
                    },
                    EventKind::ReactionAdded => {
                        lemma_field_rejects_rejected::<ReactionPayload>(tree, "data"@, fault);
                    },
                    EventKind::ReactionRemoved => {
                        lemma_field_rejects_rejected::<ReactionPayload>(tree, "data"@, fault);
                    },
                    EventKind::Typing => {
                        lemma_field_rejects_rejected::<TypingPayload>(tree, "data"@, fault);
                    },
                    _ => {
                        lemma_field_rejects_rejected::<Value>(tree, "data"@, fault);
                    },
                },
                None => {
                    lemma_field_rejects_rejected::<Value>(tree, "data"@, fault);
                },
            },
            None => {},
        }
    }
}

impl WebsocketEventType {
    /// The kind of this event, or `None` for an event of unknown kind.
    pub fn kind(&self) -> (r: Option<EventKind>)
        ensures
            r == self.model().kind(),
    {
        match self {
            WebsocketEventType::AddedToTeam(_) => Some(EventKind::AddedToTeam),
            WebsocketEventType::AuthenticationChallenge(_) => Some(EventKind::AuthenticationChallenge),
            WebsocketEventType::ChannelConverted(_) => Some(EventKind::ChannelConverted),
            WebsocketEventType::ChannelCreated(_) => Some(EventKind::ChannelCreated),
            WebsocketEventType::ChannelDeleted(_) => Some(EventKind::ChannelDeleted),
            WebsocketEventType::ChannelMemberUpdated(_) => Some(EventKind::ChannelMemberUpdated),
            WebsocketEventType::ChannelUpdated(_) => Some(EventKind::ChannelUpdated),
            WebsocketEventType::ChannelViewed(_) => Some(EventKind::ChannelViewed),
            WebsocketEventType::ConfigChanged(_) => Some(EventKind::ConfigChanged),
            WebsocketEventType::DeleteTeam(_) => Some(EventKind::DeleteTeam),
            WebsocketEventType::DirectAdded(_) => Some(EventKind::DirectAdded),
            WebsocketEventType::EmojiAdded(_) => Some(EventKind::EmojiAdded),
            WebsocketEventType::EphemeralMessage(_) => Some(EventKind::EphemeralMessage),
            WebsocketEventType::GroupAdded(_) => Some(EventKind::GroupAdded),
            WebsocketEventType::Hello { .. } => Some(EventKind::Hello),
            WebsocketEventType::LeaveTeam(_) => Some(EventKind::LeaveTeam),
            WebsocketEventType::LicenseChanged(_) => Some(EventKind::LicenseChanged),
            WebsocketEventType::MemberroleUpdated(_) => Some(EventKind::MemberroleUpdated),
            WebsocketEventType::NewUser(_) => Some(EventKind::NewUser),
            WebsocketEventType::PluginDisabled(_) => Some(EventKind::PluginDisabled),
            WebsocketEventType::PluginEnabled(_) => Some(EventKind::PluginEnabled),
            WebsocketEventType::PluginStatusesChanged(_) => Some(EventKind::PluginStatusesChanged),
            WebsocketEventType::PostDeleted(_) => Some(EventKind::PostDeleted),
            WebsocketEventType::PostEdited { .. } => Some(EventKind::PostEdited),
            WebsocketEventType::PostUnread(_) => Some(EventKind::PostUnread),
            WebsocketEventType::Posted { .. } => Some(EventKind::Posted),
            WebsocketEventType::PreferenceChanged(_) => Some(EventKind::PreferenceChanged),
            WebsocketEventType::PreferencesChanged(_) => Some(EventKind::PreferencesChanged),
            WebsocketEventType::PreferencesDeleted(_) => Some(EventKind::PreferencesDeleted),
            WebsocketEventType::ReactionAdded { .. } => Some(EventKind::ReactionAdded),
            WebsocketEventType::ReactionRemoved { .. } => Some(EventKind::ReactionRemoved),
            WebsocketEventType::Response(_) => Some(EventKind::Response),
            WebsocketEventType::RoleUpdated(_) => Some(EventKind::RoleUpdated),
            WebsocketEventType::StatusChange(_) => Some(EventKind::StatusChange),
            WebsocketEventType::Typing { .. } => Some(EventKind::Typing),
            WebsocketEventType::UpdateTeam(_) => Some(EventKind::UpdateTeam),
            WebsocketEventType::UserAdded(_) => Some(EventKind::UserAdded),
            WebsocketEventType::UserRemoved(_) => Some(EventKind::UserRemoved),
            WebsocketEventType::UserRoleUpdated(_) => Some(EventKind::UserRoleUpdated),
            WebsocketEventType::UserUpdated(_) => Some(EventKind::UserUpdated),
            WebsocketEventType::DialogOpened(_) => Some(EventKind::DialogOpened),
            WebsocketEventType::ThreadUpdated(_) => Some(EventKind::ThreadUpdated),
            WebsocketEventType::ThreadFollowChanged(_) => Some(EventKind::ThreadFollowChanged),
            WebsocketEventType::ThreadReadChanged(_) => Some(EventKind::ThreadReadChanged),
            WebsocketEventType::Unknown { .. } => None,
        }
    }

    /// The post that a posted or an edited event carries, decoded from its
    /// JSON text; `None` for an event of another kind.
    pub fn post(&self) -> (r: Option<Result<Post, DecodeError>>)
        ensures
            match self.model() {
                WebsocketEventTypeModel::Posted { post, .. } => r is Some && decodes_to::<Post>(
                    post,
                    r->0,
                ),
                WebsocketEventTypeModel::PostEdited { post } => r is Some && decodes_to::<Post>(
                    post,
                    r->0,
                ),
                _ => r is None,
            },
    {
        match self {
            WebsocketEventType::Posted { post, .. } => Some(decode::<Post>(post.as_str())),
            WebsocketEventType::PostEdited { post } => Some(decode::<Post>(post.as_str())),
            _ => None,
        }
    }

    /// The identifiers of the users that a posted event mentions, decoded
    /// from their JSON text; the empty list where the event names none, and
    /// `None` for an event of another kind.
    pub fn mentions(&self) -> (r: Option<Result<Vec<String>, DecodeError>>)
        ensures
            match self.model() {
                WebsocketEventTypeModel::Posted { mentions: Some(text), .. } => r is Some
                    && decodes_to::<Vec<String>>(text, r->0),
                WebsocketEventTypeModel::Posted { mentions: None, .. } => r is Some && r->0 is Ok
                    && r->0->Ok_0@.len() == 0,
                _ => r is None,
            },
    {
        match self {
            WebsocketEventType::Posted { mentions: Some(text), .. } => Some(
                decode::<Vec<String>>(text.as_str()),
            ),
            WebsocketEventType::Posted { mentions: None, .. } => Some(Ok(Vec::new())),
            _ => None,
        }
    }

    /// The reaction that a reaction event carries, decoded from its JSON
    /// text; `None` for an event of another kind.
    pub fn reaction(&self) -> (r: Option<Result<Reaction, DecodeError>>)
        ensures
            match self.model() {
                WebsocketEventTypeModel::ReactionAdded { reaction } => r is Some && decodes_to::<
                    Reaction,
                >(reaction, r->0),
                WebsocketEventTypeModel::ReactionRemoved { reaction } => r is Some && decodes_to::<
                    Reaction,
                >(reaction, r->0),
                _ => r is None,
            },
    {
        match self {
            WebsocketEventType::ReactionAdded { reaction } => Some(
                decode::<Reaction>(reaction.as_str()),
            ),
            WebsocketEventType::ReactionRemoved { reaction } => Some(
                decode::<Reaction>(reaction.as_str()),
            ),
            _ => None,
        }
    }
}

/// Reading an event looks at the members `event` and `data` of an object and
/// at nothing else in it.
pub proof fn lemma_event_reads_two_members(a: Json, b: Json)
    requires
        a is Object,
        b is Object,
        a.member("event"@) == b.member("event"@),
        a.member("data"@) == b.member("data"@),
    ensures
        WebsocketEventType::decoded(a) == WebsocketEventType::decoded(b),
{
}

/// An event as it arrives: the event itself, to whom the server sent it, and
/// its number in the sequence of the connection.
///
/// On the wire the members of the event stand beside `broadcast` and `seq`
/// in one object.
#[derive(Clone, Debug, PartialEq, Eq)]
pub struct WebsocketEvent {
    /// The kind of the event and its payload.
    pub event: WebsocketEventType,
    /// To whom the server sent the event.
    pub broadcast: WebsocketEventBroadcast,
    /// The number of the event in the sequence of its connection.
    pub seq: usize,
}

/// What a [`WebsocketEvent`] stands for.
pub struct WebsocketEventModel {
    pub event: WebsocketEventTypeModel,
    pub broadcast: WebsocketEventBroadcastModel,
    pub seq: usize,
}

impl Wire for WebsocketEvent {
    type Model = WebsocketEventModel;

    open spec fn name() -> Seq<char> {
        "WebsocketEvent"@
    }

    open spec fn model(&self) -> WebsocketEventModel {
        WebsocketEventModel {
            event: self.event.model(),
            broadcast: self.broadcast.model(),
            seq: self.seq.model(),
        }
    }

    open spec fn valid(m: WebsocketEventModel) -> bool {
        &&& WebsocketEventType::valid(m.event)
        &&& WebsocketEventBroadcast::valid(m.broadcast)
    }

    open spec fn encoded(m: WebsocketEventModel) -> Json {
        WebsocketEventType::encoded(m.event)
            .with("broadcast"@, WebsocketEventBroadcast::encoded(m.broadcast))
            .with("seq"@, usize::encoded(m.seq))
    }

    open spec fn decoded(tree: Json) -> Option<WebsocketEventModel> {
        let event = WebsocketEventType::decoded(tree);
        let broadcast = field::<WebsocketEventBroadcast>(tree, "broadcast"@);
        let seq = field::<usize>(tree, "seq"@);
        if event is Some && broadcast is Some && seq is Some {
            Some(WebsocketEventModel { event: event->0, broadcast: broadcast->0, seq: seq->0 })
        } else {
            None
        }
    }

    open spec fn rejects(tree: Json, fault: FaultModel) -> bool {
        if WebsocketEventType::decoded(tree) is None {
            WebsocketEventType::rejects(tree, fault)
        } else if field::<WebsocketEventBroadcast>(tree, "broadcast"@) is None {
            field_rejects::<WebsocketEventBroadcast>(tree, "broadcast"@, fault)
        } else if field::<usize>(tree, "seq"@) is None {
            field_rejects::<usize>(tree, "seq"@, fault)
        } else {
            false
        }
    }

    open spec fn if_absent() -> Option<WebsocketEventModel> {
        None
    }

    fn label() -> (r: String) {
        "WebsocketEvent".to_owned()
    }

    fn to_value(&self) -> (v: Value) {
        let mut obj = self.event.to_value();
        object_insert(&mut obj, "broadcast".to_owned(), self.broadcast.to_value());
        object_insert(&mut obj, "seq".to_owned(), self.seq.to_value());
        obj
    }

    fn from_value(v: &Value) -> (r: Result<Self, Fault>) {
        let event = WebsocketEventType::from_value(v)?;
        let broadcast = read_field::<WebsocketEventBroadcast>(v, "broadcast")?;
        let seq = read_field::<usize>(v, "seq")?;
        Ok(WebsocketEvent { event, broadcast, seq })
    }

    fn absent() -> (r: Option<Self>) {
        None
    }

    proof fn lemma_round_trip(m: WebsocketEventModel) {
        reveal_strlit("event");
        reveal_strlit("data");
        reveal_strlit("broadcast");
        reveal_strlit("seq");
        assert("event"@.len() == 5);
        assert("data"@.len() == 4);
        assert("broadcast"@.len() == 9);
        assert("seq"@.len() == 3);
        let inner = WebsocketEventType::encoded(m.event);
        let tree = Self::encoded(m);
        assert(tree.member("event"@) == inner.member("event"@));
        assert(tree.member("data"@) == inner.member("data"@));
        lemma_event_reads_two_members(tree, inner);
        WebsocketEventType::lemma_round_trip(m.event);
        WebsocketEventBroadcast::lemma_round_trip(m.broadcast);
    }

    proof fn lemma_rejects_rejected(tree: Json, fault: FaultModel) {
        if WebsocketEventType::decoded(tree) is Some {
        } else {
            WebsocketEventType::lemma_rejects_rejected(tree, fault);
        }
    }
}

} // verus!
