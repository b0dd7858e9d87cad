//! Teams and channels.

use vstd::prelude::*;
use serde_json::Value;
use crate::fault::{Fault, FaultKind, FaultModel};
use crate::json::{empty_object, object_insert, value_is_object, Json};
use crate::wire::{field, field_rejects, read_field, Wire};

verus! {

/// A team, as `/teams/name/{name}` returns it.
#[derive(Clone, Debug, PartialEq, Eq)]
pub struct TeamInformation {
    pub id: String,
    pub create_at: i64,
    pub update_at: i64,
    pub delete_at: i64,
    pub display_name: String,
    pub name: String,
    pub description: String,
    pub email: String,
    pub type_: String,
    pub allowed_domains: String,
    pub invite_id: String,
    pub allow_open_invite: bool,
    pub policy_id: Option<String>,
}

/// What a [`TeamInformation`] stands for.
pub struct TeamInformationModel {
    pub id: Seq<char>,
    pub create_at: i64,
    pub update_at: i64,
    pub delete_at: i64,
    pub display_name: Seq<char>,
    pub name: Seq<char>,
    pub description: Seq<char>,
    pub email: Seq<char>,
    pub type_: Seq<char>,
    pub allowed_domains: Seq<char>,
    pub invite_id: Seq<char>,
    pub allow_open_invite: bool,
    pub policy_id: Option<Seq<char>>,
}

impl Wire for TeamInformation {
    type Model = TeamInformationModel;

    open spec fn name() -> Seq<char> {
        "TeamInformation"@
    }

    open spec fn model(&self) -> TeamInformationModel {
        TeamInformationModel {
            id: self.id.model(),
            create_at: self.create_at.model(),
            update_at: self.update_at.model(),
            delete_at: self.delete_at.model(),
            display_name: self.display_name.model(),
            name: self.name.model(),
            description: self.description.model(),
            email: self.email.model(),
            type_: self.type_.model(),
            allowed_domains: self.allowed_domains.model(),
            invite_id: self.invite_id.model(),
            allow_open_invite: self.allow_open_invite.model(),
            policy_id: self.policy_id.model(),
        }
    }

    open spec fn valid(m: TeamInformationModel) -> bool {
        true
    }

    open spec fn encoded(m: TeamInformationModel) -> Json {
        Json::empty_object()
            .with("id"@, String::encoded(m.id))
            .with("create_at"@, i64::encoded(m.create_at))
            .with("update_at"@, i64::encoded(m.update_at))
            .with("delete_at"@, i64::encoded(m.delete_at))
            .with("display_name"@, String::encoded(m.display_name))
            .with("name"@, String::encoded(m.name))
            .with("description"@, String::encoded(m.description))
            .with("email"@, String::encoded(m.email))
            .with("type"@, String::encoded(m.type_))
            .with("allowed_domains"@, String::encoded(m.allowed_domains))
            .with("invite_id"@, String::encoded(m.invite_id))
            .with("allow_open_invite"@, bool::encoded(m.allow_open_invite))
            .with("policy_id"@, Option::<String>::encoded(m.policy_id))
    }

    open spec fn decoded(tree: Json) -> Option<TeamInformationModel> {
        let id = field::<String>(tree, "id"@);
        let create_at = field::<i64>(tree, "create_at"@);
        let update_at = field::<i64>(tree, "update_at"@);
        let delete_at = field::<i64>(tree, "delete_at"@);
        let display_name = field::<String>(tree, "display_name"@);
        let name = field::<String>(tree, "name"@);
        let description = field::<String>(tree, "description"@);
        let email = field::<String>(tree, "email"@);
        let type_ = field::<String>(tree, "type"@);
        let allowed_domains = field::<String>(tree, "allowed_domains"@);
        let invite_id = field::<String>(tree, "invite_id"@);
        let allow_open_invite = field::<bool>(tree, "allow_open_invite"@);
        let policy_id = field::<Option<String>>(tree, "policy_id"@);
        if id is Some
            && create_at is Some
            && update_at is Some
            && delete_at is Some
            && display_name is Some
            && name is Some
            && description is Some
            && email is Some
            && type_ is Some
            && allowed_domains is Some
            && invite_id is Some
            && allow_open_invite is Some
            && policy_id is Some {
            Some(
                TeamInformationModel {
                    id: id->0,
                    create_at: create_at->0,
                    update_at: update_at->0,
                    delete_at: delete_at->0,
                    display_name: display_name->0,
                    name: name->0,
                    description: description->0,
                    email: email->0,
                    type_: type_->0,
                    allowed_domains: allowed_domains->0,
                    invite_id: invite_id->0,
                    allow_open_invite: allow_open_invite->0,
                    policy_id: policy_id->0,
                },
            )
        } else {
            None
        }
    }

    open spec fn rejects(tree: Json, fault: FaultModel) -> bool {
        if field::<String>(tree, "id"@) is None {
            field_rejects::<String>(tree, "id"@, fault)
        } else if field::<i64>(tree, "create_at"@) is None {
            field_rejects::<i64>(tree, "create_at"@, fault)
        } else if field::<i64>(tree, "update_at"@) is None {
            field_rejects::<i64>(tree, "update_at"@, fault)
        } else if field::<i64>(tree, "delete_at"@) is None {
            field_rejects::<i64>(tree, "delete_at"@, fault)
        } else if field::<String>(tree, "display_name"@) is None {
            field_rejects::<String>(tree, "display_name"@, fault)
        } else if field::<String>(tree, "name"@) is None {
            field_rejects::<String>(tree, "name"@, fault)
        } else if field::<String>(tree, "description"@) is None {
            field_rejects::<String>(tree, "description"@, fault)
        } else if field::<String>(tree, "email"@) is None {
            field_rejects::<String>(tree, "email"@, fault)
        } else if field::<String>(tree, "type"@) is None {
            field_rejects::<String>(tree, "type"@, fault)
        } else if field::<String>(tree, "allowed_domains"@) is None {
            field_rejects::<String>(tree, "allowed_domains"@, fault)
        } else if field::<String>(tree, "invite_id"@) is None {
            field_rejects::<String>(tree, "invite_id"@, fault)
        } else if field::<bool>(tree, "allow_open_invite"@) is None {
            field_rejects::<bool>(tree, "allow_open_invite"@, fault)
        } else if field::<Option<String>>(tree, "policy_id"@) is None {
            field_rejects::<Option<String>>(tree, "policy_id"@, fault)
        } else {
            false
        }
    }

    open spec fn if_absent() -> Option<TeamInformationModel> {
        None
    }

    fn label() -> (r: String) {
        "TeamInformation".to_owned()
    }

    fn to_value(&self) -> (v: Value) {
        let mut obj = empty_object();
        object_insert(&mut obj, "id".to_owned(), self.id.to_value());
        object_insert(&mut obj, "create_at".to_owned(), self.create_at.to_value());
        object_insert(&mut obj, "update_at".to_owned(), self.update_at.to_value());
        object_insert(&mut obj, "delete_at".to_owned(), self.delete_at.to_value());
        object_insert(&mut obj, "display_name".to_owned(), self.display_name.to_value());
        object_insert(&mut obj, "name".to_owned(), self.name.to_value());
        object_insert(&mut obj, "description".to_owned(), self.description.to_value());
        object_insert(&mut obj, "email".to_owned(), self.email.to_value());
        object_insert(&mut obj, "type".to_owned(), self.type_.to_value());
        object_insert(&mut obj, "allowed_domains".to_owned(), self.allowed_domains.to_value());
        object_insert(&mut obj, "invite_id".to_owned(), self.invite_id.to_value());
        object_insert(&mut obj, "allow_open_invite".to_owned(), self.allow_open_invite.to_value());
        object_insert(&mut obj, "policy_id".to_owned(), self.policy_id.to_value());
        obj
    }

    fn from_value(v: &Value) -> (r: Result<Self, Fault>) {
        let id = read_field::<String>(v, "id")?;
        let create_at = read_field::<i64>(v, "create_at")?;
        let update_at = read_field::<i64>(v, "update_at")?;
        let delete_at = read_field::<i64>(v, "delete_at")?;
        let display_name = read_field::<String>(v, "display_name")?;
        let name = read_field::<String>(v, "name")?;
        let description = read_field::<String>(v, "description")?;
        let email = read_field::<String>(v, "email")?;
        let type_ = read_field::<String>(v, "type")?;
        let allowed_domains = read_field::<String>(v, "allowed_domains")?;
        let invite_id = read_field::<String>(v, "invite_id")?;
        let allow_open_invite = read_field::<bool>(v, "allow_open_invite")?;
        let policy_id = read_field::<Option<String>>(v, "policy_id")?;
        Ok(
            TeamInformation {
                id,
                create_at,
                update_at,
                delete_at,
                display_name,
                name,
                description,
                email,
                type_,
                allowed_domains,
                invite_id,
                allow_open_invite,
                policy_id,
            },
        )
    }

    fn absent() -> (r: Option<Self>) {
        None
    }

    proof fn lemma_round_trip(m: TeamInformationModel) {
        reveal_strlit("id");
        reveal_strlit("create_at");
        reveal_strlit("update_at");
        reveal_strlit("delete_at");
        reveal_strlit("display_name");
        reveal_strlit("name");
        reveal_strlit("description");
        reveal_strlit("email");
        reveal_strlit("type");
        reveal_strlit("allowed_domains");
        reveal_strlit("invite_id");
        reveal_strlit("allow_open_invite");
        reveal_strlit("policy_id");
        assert("id"@.len() == 2);
        assert("display_name"@.len() == 12);
        assert("description"@.len() == 11);
        assert("email"@.len() == 5);
        assert("allowed_domains"@.len() == 15);
        assert("allow_open_invite"@.len() == 17);
        assert("name"@.len() == 4 && "name"@[0] == 'n');
        assert("type"@.len() == 4 && "type"@[0] == 't');
        assert("create_at"@.len() == 9 && "create_at"@[0] == 'c');
        assert("update_at"@.len() == 9 && "update_at"@[0] == 'u');
        assert("delete_at"@.len() == 9 && "delete_at"@[0] == 'd');
        assert("invite_id"@.len() == 9 && "invite_id"@[0] == 'i');
        assert("policy_id"@.len() == 9 && "policy_id"@[0] == 'p');
        let tree = Self::encoded(m);
        assert(tree.member("id"@) == Some(String::encoded(m.id)));
        assert(tree.member("create_at"@) == Some(i64::encoded(m.create_at)));
        assert(tree.member("update_at"@) == Some(i64::encoded(m.update_at)));
        assert(tree.member("delete_at"@) == Some(i64::encoded(m.delete_at)));
        assert(tree.member("display_name"@) == Some(String::encoded(m.display_name)));
        assert(tree.member("name"@) == Some(String::encoded(m.name)));
        assert(tree.member("description"@) == Some(String::encoded(m.description)));
        assert(tree.member("email"@) == Some(String::encoded(m.email)));
        assert(tree.member("type"@) == Some(String::encoded(m.type_)));
        assert(tree.member("allowed_domains"@) == Some(String::encoded(m.allowed_domains)));
        assert(tree.member("invite_id"@) == Some(String::encoded(m.invite_id)));
        assert(tree.member("allow_open_invite"@) == Some(bool::encoded(m.allow_open_invite)));
        assert(tree.member("policy_id"@) == Some(Option::<String>::encoded(m.policy_id)));
        Option::<String>::lemma_round_trip(m.policy_id);
    }

    proof fn lemma_rejects_rejected(tree: Json, fault: FaultModel) {
    }
}

/// The unread counts of one team, as `/users/{user_id}/teams/unread` returns
/// them.
#[derive(Clone, Debug, PartialEq, Eq)]
pub struct TeamsUnreadInformation {
    pub teams_id: String,
    pub msg_count: u64,
    pub mention_count: u64,
}

/// What a [`TeamsUnreadInformation`] stands for.
pub struct TeamsUnreadInformationModel {
    pub teams_id: Seq<char>,
    pub msg_count: u64,
    pub mention_count: u64,
}

impl Wire for TeamsUnreadInformation {
    type Model = TeamsUnreadInformationModel;

    open spec fn name() -> Seq<char> {
        "TeamsUnreadInformation"@
    }

    open spec fn model(&self) -> TeamsUnreadInformationModel {
        TeamsUnreadInformationModel {
            teams_id: self.teams_id.model(),
            msg_count: self.msg_count.model(),
            mention_count: self.mention_count.model(),
        }
    }

    open spec fn valid(m: TeamsUnreadInformationModel) -> bool {
        true
    }

    open spec fn encoded(m: TeamsUnreadInformationModel) -> Json {
        Json::empty_object()
            .with("teams_id"@, String::encoded(m.teams_id))
            .with("msg_count"@, u64::encoded(m.msg_count))
            .with("mention_count"@, u64::encoded(m.mention_count))
    }

    open spec fn decoded(tree: Json) -> Option<TeamsUnreadInformationModel> {
        let teams_id = field::<String>(tree, "teams_id"@);
        let msg_count = field::<u64>(tree, "msg_count"@);
        let mention_count = field::<u64>(tree, "mention_count"@);
        if teams_id is Some
            && msg_count is Some
            && mention_count is Some {
            Some(
                TeamsUnreadInformationModel {
                    teams_id: teams_id->0,
                    msg_count: msg_count->0,
                    mention_count: mention_count->0,
                },
            )
        } else {
            None
        }
    }

    open spec fn rejects(tree: Json, fault: FaultModel) -> bool {
        if field::<String>(tree, "teams_id"@) is None {
            field_rejects::<String>(tree, "teams_id"@, fault)
        } else if field::<u64>(tree, "msg_count"@) is None {
            field_rejects::<u64>(tree, "msg_count"@, fault)
        } else if field::<u64>(tree, "mention_count"@) is None {
            field_rejects::<u64>(tree, "mention_count"@, fault)
        } else {
            false
        }
    }

    open spec fn if_absent() -> Option<TeamsUnreadInformationModel> {
        None
    }

    fn label() -> (r: String) {
        "TeamsUnreadInformation".to_owned()
    }

    fn to_value(&self) -> (v: Value) {
        let mut obj = empty_object();
        object_insert(&mut obj, "teams_id".to_owned(), self.teams_id.to_value());
        object_insert(&mut obj, "msg_count".to_owned(), self.msg_count.to_value());
        object_insert(&mut obj, "mention_count".to_owned(), self.mention_count.to_value());
        obj
    }

    fn from_value(v: &Value) -> (r: Result<Self, Fault>) {
        let teams_id = read_field::<String>(v, "teams_id")?;
        let msg_count = read_field::<u64>(v, "msg_count")?;
        let mention_count = read_field::<u64>(v, "mention_count")?;
        Ok(TeamsUnreadInformation { teams_id, msg_count, mention_count })
    }

    fn absent() -> (r: Option<Self>) {
        None
    }

    proof fn lemma_round_trip(m: TeamsUnreadInformationModel) {
        reveal_strlit("teams_id");
        reveal_strlit("msg_count");
        reveal_strlit("mention_count");
        assert("teams_id"@.len() == 8);
        assert("msg_count"@.len() == 9);
        assert("mention_count"@.len() == 13);
    }

    proof fn lemma_rejects_rejected(tree: Json, fault: FaultModel) {
    }
}

/// A channel on the instance.
///
/// No member of its wire form is modelled yet: any JSON object is read as a
/// channel, and fields can be added without breaking that.
#[derive(Clone, Debug, PartialEq, Eq)]
pub struct ChannelInformation {}

/// What a [`ChannelInformation`] stands for.
pub struct ChannelInformationModel {}

impl Wire for ChannelInformation {
    type Model = ChannelInformationModel;

    open spec fn name() -> Seq<char> {
        "ChannelInformation"@
    }

    open spec fn model(&self) -> ChannelInformationModel {
        ChannelInformationModel {}
    }

    open spec fn valid(m: ChannelInformationModel) -> bool {
        true
    }

    open spec fn encoded(m: ChannelInformationModel) -> Json {
        Json::empty_object()
    }

    open spec fn decoded(tree: Json) -> Option<ChannelInformationModel> {
        if tree is Object {
            Some(ChannelInformationModel {})
        } else {
            None
        }
    }

    open spec fn rejects(tree: Json, fault: FaultModel) -> bool {
        !(tree is Object) && fault == FaultModel::here(FaultKind::Mismatch)
    }

    open spec fn if_absent() -> Option<ChannelInformationModel> {
        None
    }

    fn label() -> (r: String) {
        "ChannelInformation".to_owned()
    }

    fn to_value(&self) -> (v: Value) {
        empty_object()
    }

    fn from_value(v: &Value) -> (r: Result<Self, Fault>) {
        if value_is_object(v) {
            Ok(ChannelInformation {})
        } else {
            Err(Fault::here(FaultKind::Mismatch))
        }
    }

    fn absent() -> (r: Option<Self>) {
        None
    }

    proof fn lemma_round_trip(m: ChannelInformationModel) {
    }

    proof fn lemma_rejects_rejected(tree: Json, fault: FaultModel) {
    }
}

} // verus!
