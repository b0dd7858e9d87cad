//! The names of the events.

use vstd::prelude::*;
use serde_json::Value;
use crate::fault::{Fault, FaultKind, FaultModel};
use crate::json::{string_value, value_str, Json};
use crate::wire::{same_text, Wire};

verus! {

/// The kinds of event that this crate knows by name.
///
/// The name of a kind on the wire is its variant in snake case.
#[derive(Clone, Copy, Debug, PartialEq, Eq, Structural)]
pub enum EventKind {
    AddedToTeam,
    AuthenticationChallenge,
    ChannelConverted,
    ChannelCreated,
    ChannelDeleted,
    ChannelMemberUpdated,
    ChannelUpdated,
    ChannelViewed,
    ConfigChanged,
    DeleteTeam,
    DirectAdded,
    EmojiAdded,
    EphemeralMessage,
    GroupAdded,
    Hello,
    LeaveTeam,
    LicenseChanged,
    MemberroleUpdated,
    NewUser,
    PluginDisabled,
    PluginEnabled,
    PluginStatusesChanged,
    PostDeleted,
    PostEdited,
    PostUnread,
    Posted,
    PreferenceChanged,
    PreferencesChanged,
    PreferencesDeleted,
    ReactionAdded,
    ReactionRemoved,
    Response,
    RoleUpdated,
    StatusChange,
    Typing,
    UpdateTeam,
    UserAdded,
    UserRemoved,
    UserRoleUpdated,
    UserUpdated,
    DialogOpened,
    ThreadUpdated,
    ThreadFollowChanged,
    ThreadReadChanged,
}

impl EventKind {
    /// The token that stands for this value on the wire.
    pub open spec fn token(self) -> Seq<char> {
        match self {
            EventKind::AddedToTeam => "added_to_team"@,
            EventKind::AuthenticationChallenge => "authentication_challenge"@,
            EventKind::ChannelConverted => "channel_converted"@,
            EventKind::ChannelCreated => "channel_created"@,
            EventKind::ChannelDeleted => "channel_deleted"@,
            EventKind::ChannelMemberUpdated => "channel_member_updated"@,
            EventKind::ChannelUpdated => "channel_updated"@,
            EventKind::ChannelViewed => "channel_viewed"@,
            EventKind::ConfigChanged => "config_changed"@,
            EventKind::DeleteTeam => "delete_team"@,
            EventKind::DirectAdded => "direct_added"@,
            EventKind::EmojiAdded => "emoji_added"@,
            EventKind::EphemeralMessage => "ephemeral_message"@,
            EventKind::GroupAdded => "group_added"@,
            EventKind::Hello => "hello"@,
            EventKind::LeaveTeam => "leave_team"@,
            EventKind::LicenseChanged => "license_changed"@,
            EventKind::MemberroleUpdated => "memberrole_updated"@,
            EventKind::NewUser => "new_user"@,
            EventKind::PluginDisabled => "plugin_disabled"@,
            EventKind::PluginEnabled => "plugin_enabled"@,
            EventKind::PluginStatusesChanged => "plugin_statuses_changed"@,
            EventKind::PostDeleted => "post_deleted"@,
            EventKind::PostEdited => "post_edited"@,
            EventKind::PostUnread => "post_unread"@,
            EventKind::Posted => "posted"@,
            EventKind::PreferenceChanged => "preference_changed"@,
            EventKind::PreferencesChanged => "preferences_changed"@,
            EventKind::PreferencesDeleted => "preferences_deleted"@,
            EventKind::ReactionAdded => "reaction_added"@,
            EventKind::ReactionRemoved => "reaction_removed"@,
            EventKind::Response => "response"@,
            EventKind::RoleUpdated => "role_updated"@,
            EventKind::StatusChange => "status_change"@,
            EventKind::Typing => "typing"@,
            EventKind::UpdateTeam => "update_team"@,
            EventKind::UserAdded => "user_added"@,
            EventKind::UserRemoved => "user_removed"@,
            EventKind::UserRoleUpdated => "user_role_updated"@,
            EventKind::UserUpdated => "user_updated"@,
            EventKind::DialogOpened => "dialog_opened"@,
            EventKind::ThreadUpdated => "thread_updated"@,
            EventKind::ThreadFollowChanged => "thread_follow_changed"@,
            EventKind::ThreadReadChanged => "thread_read_changed"@,
        }
    }

    /// The value that a token stands for, if it is one of the tokens.
    pub open spec fn of_token(token: Seq<char>) -> Option<EventKind> {
        if token == "added_to_team"@ {
            Some(EventKind::AddedToTeam)
        } else if token == "authentication_challenge"@ {
            Some(EventKind::AuthenticationChallenge)
        } else if token == "channel_converted"@ {
            Some(EventKind::ChannelConverted)
        } else if token == "channel_created"@ {
            Some(EventKind::ChannelCreated)
        } else if token == "channel_deleted"@ {
            Some(EventKind::ChannelDeleted)
        } else if token == "channel_member_updated"@ {
            Some(EventKind::ChannelMemberUpdated)
        } else if token == "channel_updated"@ {
            Some(EventKind::ChannelUpdated)
        } else if token == "channel_viewed"@ {
            Some(EventKind::ChannelViewed)
        } else if token == "config_changed"@ {
            Some(EventKind::ConfigChanged)
        } else if token == "delete_team"@ {
            Some(EventKind::DeleteTeam)
        } else if token == "direct_added"@ {
            Some(EventKind::DirectAdded)
        } else if token == "emoji_added"@ {
            Some(EventKind::EmojiAdded)
        } else if token == "ephemeral_message"@ {
            Some(EventKind::EphemeralMessage)
        } else if token == "group_added"@ {
            Some(EventKind::GroupAdded)
        } else if token == "hello"@ {
            Some(EventKind::Hello)
        } else if token == "leave_team"@ {
            Some(EventKind::LeaveTeam)
        } else if token == "license_changed"@ {
            Some(EventKind::LicenseChanged)
        } else if token == "memberrole_updated"@ {
            Some(EventKind::MemberroleUpdated)
        } else if token == "new_user"@ {
            Some(EventKind::NewUser)
        } else if token == "plugin_disabled"@ {
            Some(EventKind::PluginDisabled)
        } else if token == "plugin_enabled"@ {
            Some(EventKind::PluginEnabled)
        } else if token == "plugin_statuses_changed"@ {
            Some(EventKind::PluginStatusesChanged)
        } else if token == "post_deleted"@ {
            Some(EventKind::PostDeleted)
        } else if token == "post_edited"@ {
            Some(EventKind::PostEdited)
        } else if token == "post_unread"@ {
            Some(EventKind::PostUnread)
        } else if token == "posted"@ {
            Some(EventKind::Posted)
        } else if token == "preference_changed"@ {
            Some(EventKind::PreferenceChanged)
        } else if token == "preferences_changed"@ {
            Some(EventKind::PreferencesChanged)
        } else if token == "preferences_deleted"@ {
            Some(EventKind::PreferencesDeleted)
        } else if token == "reaction_added"@ {
            Some(EventKind::ReactionAdded)
        } else if token == "reaction_removed"@ {
            Some(EventKind::ReactionRemoved)
        } else if token == "response"@ {
            Some(EventKind::Response)
        } else if token == "role_updated"@ {
            Some(EventKind::RoleUpdated)
        } else if token == "status_change"@ {
            Some(EventKind::StatusChange)
        } else if token == "typing"@ {
            Some(EventKind::Typing)
        } else if token == "update_team"@ {
            Some(EventKind::UpdateTeam)
        } else if token == "user_added"@ {
            Some(EventKind::UserAdded)
        } else if token == "user_removed"@ {
            Some(EventKind::UserRemoved)
        } else if token == "user_role_updated"@ {
            Some(EventKind::UserRoleUpdated)
        } else if token == "user_updated"@ {
            Some(EventKind::UserUpdated)
        } else if token == "dialog_opened"@ {
            Some(EventKind::DialogOpened)
        } else if token == "thread_updated"@ {
            Some(EventKind::ThreadUpdated)
        } else if token == "thread_follow_changed"@ {
            Some(EventKind::ThreadFollowChanged)
        } else if token == "thread_read_changed"@ {
            Some(EventKind::ThreadReadChanged)
        } else {
            None
        }
    }
}

impl EventKind {
    /// The kind that a name stands for, if it is the name of one.
    pub fn from_name(name: &str) -> (r: Option<EventKind>)
        ensures
            r == EventKind::of_token(name@),
    {
        if same_text(name, "added_to_team") {
            Some(EventKind::AddedToTeam)
        } else if same_text(name, "authentication_challenge") {
            Some(EventKind::AuthenticationChallenge)
        } else if same_text(name, "channel_converted") {
            Some(EventKind::ChannelConverted)
        } else if same_text(name, "channel_created") {
            Some(EventKind::ChannelCreated)
        } else if same_text(name, "channel_deleted") {
            Some(EventKind::ChannelDeleted)
        } else if same_text(name, "channel_member_updated") {
            Some(EventKind::ChannelMemberUpdated)
        } else if same_text(name, "channel_updated") {
            Some(EventKind::ChannelUpdated)
        } else if same_text(name, "channel_viewed") {
            Some(EventKind::ChannelViewed)
        } else if same_text(name, "config_changed") {
            Some(EventKind::ConfigChanged)
        } else if same_text(name, "delete_team") {
            Some(EventKind::DeleteTeam)
        } else if same_text(name, "direct_added") {
            Some(EventKind::DirectAdded)
        } else if same_text(name, "emoji_added") {
            Some(EventKind::EmojiAdded)
        } else if same_text(name, "ephemeral_message") {
            Some(EventKind::EphemeralMessage)
        } else if same_text(name, "group_added") {
            Some(EventKind::GroupAdded)
        } else if same_text(name, "hello") {
            Some(EventKind::Hello)
        } else if same_text(name, "leave_team") {
            Some(EventKind::LeaveTeam)
        } else if same_text(name, "license_changed") {
            Some(EventKind::LicenseChanged)
        } else if same_text(name, "memberrole_updated") {
            Some(EventKind::MemberroleUpdated)
        } else if same_text(name, "new_user") {
            Some(EventKind::NewUser)
        } else if same_text(name, "plugin_disabled") {
            Some(EventKind::PluginDisabled)
        } else if same_text(name, "plugin_enabled") {
            Some(EventKind::PluginEnabled)
        } else if same_text(name, "plugin_statuses_changed") {
            Some(EventKind::PluginStatusesChanged)
        } else if same_text(name, "post_deleted") {
            Some(EventKind::PostDeleted)
        } else if same_text(name, "post_edited") {
            Some(EventKind::PostEdited)
        } else if same_text(name, "post_unread") {
            Some(EventKind::PostUnread)
        } else if same_text(name, "posted") {
            Some(EventKind::Posted)
        } else if same_text(name, "preference_changed") {
            Some(EventKind::PreferenceChanged)
        } else if same_text(name, "preferences_changed") {
            Some(EventKind::PreferencesChanged)
        } else if same_text(name, "preferences_deleted") {
            Some(EventKind::PreferencesDeleted)
        } else if same_text(name, "reaction_added") {
            Some(EventKind::ReactionAdded)
        } else if same_text(name, "reaction_removed") {
            Some(EventKind::ReactionRemoved)
        } else if same_text(name, "response") {
            Some(EventKind::Response)
        } else if same_text(name, "role_updated") {
            Some(EventKind::RoleUpdated)
        } else if same_text(name, "status_change") {
            Some(EventKind::StatusChange)
        } else if same_text(name, "typing") {
            Some(EventKind::Typing)
        } else if same_text(name, "update_team") {
            Some(EventKind::UpdateTeam)
        } else if same_text(name, "user_added") {
            Some(EventKind::UserAdded)
        } else if same_text(name, "user_removed") {
            Some(EventKind::UserRemoved)
        } else if same_text(name, "user_role_updated") {
            Some(EventKind::UserRoleUpdated)
        } else if same_text(name, "user_updated") {
            Some(EventKind::UserUpdated)
        } else if same_text(name, "dialog_opened") {
            Some(EventKind::DialogOpened)
        } else if same_text(name, "thread_updated") {
            Some(EventKind::ThreadUpdated)
        } else if same_text(name, "thread_follow_changed") {
            Some(EventKind::ThreadFollowChanged)
        } else if same_text(name, "thread_read_changed") {
            Some(EventKind::ThreadReadChanged)
        } else {
            None
        }
    }

    /// The name of this kind on the wire.
    pub fn wire_name(self) -> (r: String)
        ensures
            r@ == self.token(),
    {
        match self {
            EventKind::AddedToTeam => "added_to_team".to_owned(),
            EventKind::AuthenticationChallenge => "authentication_challenge".to_owned(),
            EventKind::ChannelConverted => "channel_converted".to_owned(),
            EventKind::ChannelCreated => "channel_created".to_owned(),
            EventKind::ChannelDeleted => "channel_deleted".to_owned(),
            EventKind::ChannelMemberUpdated => "channel_member_updated".to_owned(),
            EventKind::ChannelUpdated => "channel_updated".to_owned(),
            EventKind::ChannelViewed => "channel_viewed".to_owned(),
            EventKind::ConfigChanged => "config_changed".to_owned(),
            EventKind::DeleteTeam => "delete_team".to_owned(),
            EventKind::DirectAdded => "direct_added".to_owned(),
            EventKind::EmojiAdded => "emoji_added".to_owned(),
            EventKind::EphemeralMessage => "ephemeral_message".to_owned(),
            EventKind::GroupAdded => "group_added".to_owned(),
            EventKind::Hello => "hello".to_owned(),
            EventKind::LeaveTeam => "leave_team".to_owned(),
            EventKind::LicenseChanged => "license_changed".to_owned(),
            EventKind::MemberroleUpdated => "memberrole_updated".to_owned(),
            EventKind::NewUser => "new_user".to_owned(),
            EventKind::PluginDisabled => "plugin_disabled".to_owned(),
            EventKind::PluginEnabled => "plugin_enabled".to_owned(),
            EventKind::PluginStatusesChanged => "plugin_statuses_changed".to_owned(),
            EventKind::PostDeleted => "post_deleted".to_owned(),
            EventKind::PostEdited => "post_edited".to_owned(),
            EventKind::PostUnread => "post_unread".to_owned(),
            EventKind::Posted => "posted".to_owned(),
            EventKind::PreferenceChanged => "preference_changed".to_owned(),
            EventKind::PreferencesChanged => "preferences_changed".to_owned(),
            EventKind::PreferencesDeleted => "preferences_deleted".to_owned(),
            EventKind::ReactionAdded => "reaction_added".to_owned(),
            EventKind::ReactionRemoved => "reaction_removed".to_owned(),
            EventKind::Response => "response".to_owned(),
            EventKind::RoleUpdated => "role_updated".to_owned(),
            EventKind::StatusChange => "status_change".to_owned(),
            EventKind::Typing => "typing".to_owned(),
            EventKind::UpdateTeam => "update_team".to_owned(),
            EventKind::UserAdded => "user_added".to_owned(),
            EventKind::UserRemoved => "user_removed".to_owned(),
            EventKind::UserRoleUpdated => "user_role_updated".to_owned(),
            EventKind::UserUpdated => "user_updated".to_owned(),
            EventKind::DialogOpened => "dialog_opened".to_owned(),
            EventKind::ThreadUpdated => "thread_updated".to_owned(),
            EventKind::ThreadFollowChanged => "thread_follow_changed".to_owned(),
            EventKind::ThreadReadChanged => "thread_read_changed".to_owned(),
        }
    }
}

impl Wire for EventKind {
    type Model = EventKind;

    open spec fn name() -> Seq<char> {
        "EventKind"@
    }

    open spec fn model(&self) -> EventKind {
        *self
    }

    open spec fn valid(m: EventKind) -> bool {
        true
    }

    open spec fn encoded(m: EventKind) -> Json {
        Json::Str(m.token())
    }

    open spec fn decoded(tree: Json) -> Option<EventKind> {
        match tree {
            Json::Str(token) => Self::of_token(token),
            _ => None,
        }
    }

    open spec fn rejects(tree: Json, fault: FaultModel) -> bool {
        match tree {
            Json::Str(token) => Self::of_token(token) is None && fault == FaultModel::here(
                FaultKind::Unrecognized,
            ),
            _ => fault == FaultModel::here(FaultKind::Mismatch),
        }
    }

    open spec fn if_absent() -> Option<EventKind> {
        None
    }

    fn label() -> (r: String) {
        "EventKind".to_owned()
    }

    fn to_value(&self) -> (v: Value) {
        match self {
            EventKind::AddedToTeam => string_value("added_to_team".to_owned()),
            EventKind::AuthenticationChallenge => string_value("authentication_challenge".to_owned()),
            EventKind::ChannelConverted => string_value("channel_converted".to_owned()),
            EventKind::ChannelCreated => string_value("channel_created".to_owned()),
            EventKind::ChannelDeleted => string_value("channel_deleted".to_owned()),
            EventKind::ChannelMemberUpdated => string_value("channel_member_updated".to_owned()),
            EventKind::ChannelUpdated => string_value("channel_updated".to_owned()),
            EventKind::ChannelViewed => string_value("channel_viewed".to_owned()),
            EventKind::ConfigChanged => string_value("config_changed".to_owned()),
            EventKind::DeleteTeam => string_value("delete_team".to_owned()),
            EventKind::DirectAdded => string_value("direct_added".to_owned()),
            EventKind::EmojiAdded => string_value("emoji_added".to_owned()),
            EventKind::EphemeralMessage => string_value("ephemeral_message".to_owned()),
            EventKind::GroupAdded => string_value("group_added".to_owned()),
            EventKind::Hello => string_value("hello".to_owned()),
            EventKind::LeaveTeam => string_value("leave_team".to_owned()),
            EventKind::LicenseChanged => string_value("license_changed".to_owned()),
            EventKind::MemberroleUpdated => string_value("memberrole_updated".to_owned()),
            EventKind::NewUser => string_value("new_user".to_owned()),
            EventKind::PluginDisabled => string_value("plugin_disabled".to_owned()),
            EventKind::PluginEnabled => string_value("plugin_enabled".to_owned()),
            EventKind::PluginStatusesChanged => string_value("plugin_statuses_changed".to_owned()),
            EventKind::PostDeleted => string_value("post_deleted".to_owned()),
            EventKind::PostEdited => string_value("post_edited".to_owned()),
            EventKind::PostUnread => string_value("post_unread".to_owned()),
            EventKind::Posted => string_value("posted".to_owned()),
            EventKind::PreferenceChanged => string_value("preference_changed".to_owned()),
            EventKind::PreferencesChanged => string_value("preferences_changed".to_owned()),
            EventKind::PreferencesDeleted => string_value("preferences_deleted".to_owned()),
            EventKind::ReactionAdded => string_value("reaction_added".to_owned()),
            EventKind::ReactionRemoved => string_value("reaction_removed".to_owned()),
            EventKind::Response => string_value("response".to_owned()),
            EventKind::RoleUpdated => string_value("role_updated".to_owned()),
            EventKind::StatusChange => string_value("status_change".to_owned()),
            EventKind::Typing => string_value("typing".to_owned()),
            EventKind::UpdateTeam => string_value("update_team".to_owned()),
            EventKind::UserAdded => string_value("user_added".to_owned()),
            EventKind::UserRemoved => string_value("user_removed".to_owned()),
            EventKind::UserRoleUpdated => string_value("user_role_updated".to_owned()),
            EventKind::UserUpdated => string_value("user_updated".to_owned()),
            EventKind::DialogOpened => string_value("dialog_opened".to_owned()),
            EventKind::ThreadUpdated => string_value("thread_updated".to_owned()),
            EventKind::ThreadFollowChanged => string_value("thread_follow_changed".to_owned()),
            EventKind::ThreadReadChanged => string_value("thread_read_changed".to_owned()),
        }
    }

    fn from_value(v: &Value) -> (r: Result<Self, Fault>) {
        match value_str(v) {
            Some(token) => {
                if same_text(token, "added_to_team") {
                    Ok(EventKind::AddedToTeam)
                } else if same_text(token, "authentication_challenge") {
                    Ok(EventKind::AuthenticationChallenge)
                } else if same_text(token, "channel_converted") {
                    Ok(EventKind::ChannelConverted)
                } else if same_text(token, "channel_created") {
                    Ok(EventKind::ChannelCreated)
                } else if same_text(token, "channel_deleted") {
                    Ok(EventKind::ChannelDeleted)
                } else if same_text(token, "channel_member_updated") {
                    Ok(EventKind::ChannelMemberUpdated)
                } else if same_text(token, "channel_updated") {
                    Ok(EventKind::ChannelUpdated)
                } else if same_text(token, "channel_viewed") {
                    Ok(EventKind::ChannelViewed)
                } else if same_text(token, "config_changed") {
                    Ok(EventKind::ConfigChanged)
                } else if same_text(token, "delete_team") {
                    Ok(EventKind::DeleteTeam)
                } else if same_text(token, "direct_added") {
                    Ok(EventKind::DirectAdded)
                } else if same_text(token, "emoji_added") {
                    Ok(EventKind::EmojiAdded)
                } else if same_text(token, "ephemeral_message") {
                    Ok(EventKind::EphemeralMessage)
                } else if same_text(token, "group_added") {
                    Ok(EventKind::GroupAdded)
                } else if same_text(token, "hello") {
                    Ok(EventKind::Hello)
                } else if same_text(token, "leave_team") {
                    Ok(EventKind::LeaveTeam)
                } else if same_text(token, "license_changed") {
                    Ok(EventKind::LicenseChanged)
                } else if same_text(token, "memberrole_updated") {
                    Ok(EventKind::MemberroleUpdated)
                } else if same_text(token, "new_user") {
                    Ok(EventKind::NewUser)
                } else if same_text(token, "plugin_disabled") {
                    Ok(EventKind::PluginDisabled)
                } else if same_text(token, "plugin_enabled") {
                    Ok(EventKind::PluginEnabled)
                } else if same_text(token, "plugin_statuses_changed") {
                    Ok(EventKind::PluginStatusesChanged)
                } else if same_text(token, "post_deleted") {
                    Ok(EventKind::PostDeleted)
                } else if same_text(token, "post_edited") {
                    Ok(EventKind::PostEdited)
                } else if same_text(token, "post_unread") {
                    Ok(EventKind::PostUnread)
                } else if same_text(token, "posted") {
                    Ok(EventKind::Posted)
                } else if same_text(token, "preference_changed") {
                    Ok(EventKind::PreferenceChanged)
                } else if same_text(token, "preferences_changed") {
                    Ok(EventKind::PreferencesChanged)
                } else if same_text(token, "preferences_deleted") {
                    Ok(EventKind::PreferencesDeleted)
                } else if same_text(token, "reaction_added") {
                    Ok(EventKind::ReactionAdded)
                } else if same_text(token, "reaction_removed") {
                    Ok(EventKind::ReactionRemoved)
                } else if same_text(token, "response") {
                    Ok(EventKind::Response)
                } else if same_text(token, "role_updated") {
                    Ok(EventKind::RoleUpdated)
                } else if same_text(token, "status_change") {
                    Ok(EventKind::StatusChange)
                } else if same_text(token, "typing") {
                    Ok(EventKind::Typing)
                } else if same_text(token, "update_team") {
                    Ok(EventKind::UpdateTeam)
                } else if same_text(token, "user_added") {
                    Ok(EventKind::UserAdded)
                } else if same_text(token, "user_removed") {
                    Ok(EventKind::UserRemoved)
                } else if same_text(token, "user_role_updated") {
                    Ok(EventKind::UserRoleUpdated)
                } else if same_text(token, "user_updated") {
                    Ok(EventKind::UserUpdated)
                } else if same_text(token, "dialog_opened") {
                    Ok(EventKind::DialogOpened)
                } else if same_text(token, "thread_updated") {
                    Ok(EventKind::ThreadUpdated)
                } else if same_text(token, "thread_follow_changed") {
                    Ok(EventKind::ThreadFollowChanged)
                } else if same_text(token, "thread_read_changed") {
                    Ok(EventKind::ThreadReadChanged)
                } else {
                    Err(Fault::here(FaultKind::Unrecognized))
                }
            },
            None => Err(Fault::here(FaultKind::Mismatch)),
        }
    }

    fn absent() -> (r: Option<Self>) {
        None
    }

    proof fn lemma_round_trip(m: EventKind) {
        reveal_strlit("added_to_team");
        reveal_strlit("authentication_challenge");
        reveal_strlit("channel_converted");
        reveal_strlit("channel_created");
        reveal_strlit("channel_deleted");
        reveal_strlit("channel_member_updated");
        reveal_strlit("channel_updated");
        reveal_strlit("channel_viewed");
        reveal_strlit("config_changed");
        reveal_strlit("delete_team");
        reveal_strlit("direct_added");
        reveal_strlit("emoji_added");
        reveal_strlit("ephemeral_message");
        reveal_strlit("group_added");
        reveal_strlit("hello");
        reveal_strlit("leave_team");
        reveal_strlit("license_changed");
        reveal_strlit("memberrole_updated");
        reveal_strlit("new_user");
        reveal_strlit("plugin_disabled");
        reveal_strlit("plugin_enabled");
        reveal_strlit("plugin_statuses_changed");
        reveal_strlit("post_deleted");
        reveal_strlit("post_edited");
        reveal_strlit("post_unread");
        reveal_strlit("posted");
        reveal_strlit("preference_changed");
        reveal_strlit("preferences_changed");
        reveal_strlit("preferences_deleted");
        reveal_strlit("reaction_added");
        reveal_strlit("reaction_removed");
        reveal_strlit("response");
        reveal_strlit("role_updated");
        reveal_strlit("status_change");
        reveal_strlit("typing");
        reveal_strlit("update_team");
        reveal_strlit("user_added");
        reveal_strlit("user_removed");
        reveal_strlit("user_role_updated");
        reveal_strlit("user_updated");
        reveal_strlit("dialog_opened");
        reveal_strlit("thread_updated");
        reveal_strlit("thread_follow_changed");
        reveal_strlit("thread_read_changed");
        assert("authentication_challenge"@.len() == 24);
        assert("channel_member_updated"@.len() == 22);
        assert("hello"@.len() == 5);
        assert("plugin_statuses_changed"@.len() == 23);
        assert("reaction_removed"@.len() == 16);
        assert("thread_follow_changed"@.len() == 21);
        assert("posted"@.len() == 6 && "posted"@[0] == 'p');
        assert("typing"@.len() == 6 && "typing"@[0] == 't');
        assert("new_user"@.len() == 8 && "new_user"@[0] == 'n');
        assert("response"@.len() == 8 && "response"@[0] == 'r');
        assert("leave_team"@.len() == 10 && "leave_team"@[0] == 'l');
        assert("user_added"@.len() == 10 && "user_added"@[0] == 'u');
        assert("delete_team"@.len() == 11 && "delete_team"@[0] == 'd' && "delete_team"@[5] == 'e');
        assert("emoji_added"@.len() == 11 && "emoji_added"@[0] == 'e' && "emoji_added"@[5] == '_');
        assert("group_added"@.len() == 11 && "group_added"@[0] == 'g' && "group_added"@[5] == '_');
        assert("post_edited"@.len() == 11 && "post_edited"@[0] == 'p' && "post_edited"@[5] == 'e');
        assert("post_unread"@.len() == 11 && "post_unread"@[0] == 'p' && "post_unread"@[5] == 'u');
        assert("update_team"@.len() == 11 && "update_team"@[0] == 'u' && "update_team"@[5] == 'e');
        assert("direct_added"@.len() == 12);
        assert("direct_added"@[0] == 'd');
        assert("direct_added"@[5] == 't');
        assert("post_deleted"@.len() == 12);
        assert("post_deleted"@[0] == 'p');
        assert("post_deleted"@[5] == 'd');
        assert("role_updated"@.len() == 12);
        assert("role_updated"@[0] == 'r');
        assert("role_updated"@[5] == 'u');
        assert("user_removed"@.len() == 12);
        assert("user_removed"@[0] == 'u');
        assert("user_removed"@[5] == 'r');
        assert("user_updated"@.len() == 12);
        assert("user_updated"@[0] == 'u');
        assert("user_updated"@[5] == 'u');
        assert("added_to_team"@.len() == 13 && "added_to_team"@[0] == 'a');
        assert("status_change"@.len() == 13 && "status_change"@[0] == 's');
        assert("dialog_opened"@.len() == 13 && "dialog_opened"@[0] == 'd');
        assert("channel_viewed"@.len() == 14 && "channel_viewed"@[3] == 'n');
        assert("config_changed"@.len() == 14 && "config_changed"@[3] == 'f');
        assert("plugin_enabled"@.len() == 14 && "plugin_enabled"@[3] == 'g');
        assert("reaction_added"@.len() == 14 && "reaction_added"@[3] == 'c');
        assert("thread_updated"@.len() == 14 && "thread_updated"@[3] == 'e');
        assert("channel_created"@.len() == 15 && "channel_created"@[9] == 'r');
        assert("channel_deleted"@.len() == 15 && "channel_deleted"@[9] == 'e');
        assert("channel_updated"@.len() == 15 && "channel_updated"@[9] == 'p');
        assert("license_changed"@.len() == 15 && "license_changed"@[9] == 'h');
        assert("plugin_disabled"@.len() == 15 && "plugin_disabled"@[9] == 's');
        assert("channel_converted"@.len() == 17 && "channel_converted"@[0] == 'c');
        assert("ephemeral_message"@.len() == 17 && "ephemeral_message"@[0] == 'e');
        assert("user_role_updated"@.len() == 17 && "user_role_updated"@[0] == 'u');
        assert("memberrole_updated"@.len() == 18 && "memberrole_updated"@[0] == 'm');
        assert("preference_changed"@.len() == 18 && "preference_changed"@[0] == 'p');
        assert("preferences_changed"@.len() == 19);
        assert("preferences_changed"@[0] == 'p');
        assert("preferences_changed"@[12] == 'c');
        assert("preferences_deleted"@.len() == 19);
        assert("preferences_deleted"@[0] == 'p');
        assert("preferences_deleted"@[12] == 'd');
        assert("thread_read_changed"@.len() == 19);
        assert("thread_read_changed"@[0] == 't');
        assert("thread_read_changed"@[12] == 'c');
        match m {
            EventKind::AddedToTeam => {
                assert(Self::decoded(Self::encoded(m)) == Some(m));
            },
            EventKind::AuthenticationChallenge => {
                assert(Self::decoded(Self::encoded(m)) == Some(m));
            },
            EventKind::ChannelConverted => {
                assert(Self::decoded(Self::encoded(m)) == Some(m));
            },
            EventKind::ChannelCreated => {
                assert(Self::decoded(Self::encoded(m)) == Some(m));
            },
            EventKind::ChannelDeleted => {
                assert(Self::decoded(Self::encoded(m)) == Some(m));
            },
            EventKind::ChannelMemberUpdated => {
                assert(Self::decoded(Self::encoded(m)) == Some(m));
            },
            EventKind::ChannelUpdated => {
                assert(Self::decoded(Self::encoded(m)) == Some(m));
            },
            EventKind::ChannelViewed => {
                assert(Self::decoded(Self::encoded(m)) == Some(m));
            },
            EventKind::ConfigChanged => {
                assert(Self::decoded(Self::encoded(m)) == Some(m));
            },
            EventKind::DeleteTeam => {
                assert(Self::decoded(Self::encoded(m)) == Some(m));
            },
            EventKind::DirectAdded => {
                assert(Self::decoded(Self::encoded(m)) == Some(m));
            },
            EventKind::EmojiAdded => {
                assert(Self::decoded(Self::encoded(m)) == Some(m));
            },
            EventKind::EphemeralMessage => {
                assert(Self::decoded(Self::encoded(m)) == Some(m));
            },
            EventKind::GroupAdded => {
                assert(Self::decoded(Self::encoded(m)) == Some(m));
            },
            EventKind::Hello => {
                assert(Self::decoded(Self::encoded(m)) == Some(m));
            },
            EventKind::LeaveTeam => {
                assert(Self::decoded(Self::encoded(m)) == Some(m));
            },
            EventKind::LicenseChanged => {
                assert(Self::decoded(Self::encoded(m)) == Some(m));
            },
            EventKind::MemberroleUpdated => {
                assert(Self::decoded(Self::encoded(m)) == Some(m));
            },
            EventKind::NewUser => {
                assert(Self::decoded(Self::encoded(m)) == Some(m));
            },
            EventKind::PluginDisabled => {
                assert(Self::decoded(Self::encoded(m)) == Some(m));
            },
            EventKind::PluginEnabled => {
                assert(Self::decoded(Self::encoded(m)) == Some(m));
            },
            EventKind::PluginStatusesChanged => {
                assert(Self::decoded(Self::encoded(m)) == Some(m));
            },
            EventKind::PostDeleted => {
                assert(Self::decoded(Self::encoded(m)) == Some(m));
            },
            EventKind::PostEdited => {
                assert(Self::decoded(Self::encoded(m)) == Some(m));
            },
            EventKind::PostUnread => {
                assert(Self::decoded(Self::encoded(m)) == Some(m));
            },
            EventKind::Posted => {
                assert(Self::decoded(Self::encoded(m)) == Some(m));
            },
            EventKind::PreferenceChanged => {
                assert(Self::decoded(Self::encoded(m)) == Some(m));
            },
            EventKind::PreferencesChanged => {
                assert(Self::decoded(Self::encoded(m)) == Some(m));
            },
            EventKind::PreferencesDeleted => {
                assert(Self::decoded(Self::encoded(m)) == Some(m));
            },
            EventKind::ReactionAdded => {
                assert(Self::decoded(Self::encoded(m)) == Some(m));
            },
            EventKind::ReactionRemoved => {
                assert(Self::decoded(Self::encoded(m)) == Some(m));
            },
            EventKind::Response => {
                assert(Self::decoded(Self::encoded(m)) == Some(m));
            },
            EventKind::RoleUpdated => {
                assert(Self::decoded(Self::encoded(m)) == Some(m));
            },
            EventKind::StatusChange => {
                assert(Self::decoded(Self::encoded(m)) == Some(m));
            },
            EventKind::Typing => {
                assert(Self::decoded(Self::encoded(m)) == Some(m));
            },
            EventKind::UpdateTeam => {
                assert(Self::decoded(Self::encoded(m)) == Some(m));
            },
            EventKind::UserAdded => {
                assert(Self::decoded(Self::encoded(m)) == Some(m));
            },
            EventKind::UserRemoved => {
                assert(Self::decoded(Self::encoded(m)) == Some(m));
            },
            EventKind::UserRoleUpdated => {
                assert(Self::decoded(Self::encoded(m)) == Some(m));
            },
            EventKind::UserUpdated => {
                assert(Self::decoded(Self::encoded(m)) == Some(m));
            },
            EventKind::DialogOpened => {
                assert(Self::decoded(Self::encoded(m)) == Some(m));
            },
            EventKind::ThreadUpdated => {
                assert(Self::decoded(Self::encoded(m)) == Some(m));
            },
            EventKind::ThreadFollowChanged => {
                assert(Self::decoded(Self::encoded(m)) == Some(m));
            },
            EventKind::ThreadReadChanged => {
                assert(Self::decoded(Self::encoded(m)) == Some(m));
            },
        }
    }

    proof fn lemma_rejects_rejected(tree: Json, fault: FaultModel) {
    }
}

} // verus!
