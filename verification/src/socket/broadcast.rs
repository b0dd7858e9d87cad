//! To whom the server sent an event.

use vstd::prelude::*;
use serde_json::Value;
use crate::fault::{Fault, FaultModel};
use crate::json::{empty_object, object_insert, Json};
use crate::keyed::StringMap;
use crate::wire::{field, field_rejects, read_field, Wire};

verus! {

/// To whom the server sent an event.
///
/// This is what the server says, passed on as it is: nothing here decides
/// who receives an event.
#[derive(Clone, Debug, PartialEq, Eq)]
pub struct WebsocketEventBroadcast {
    /// The users who were left out.
    pub omit_users: Option<StringMap<bool>>,
    /// The one user the event was sent to.
    pub user_id: Option<String>,
    pub channel_id: String,
    pub team_id: String,
}

/// What a [`WebsocketEventBroadcast`] stands for.
pub struct WebsocketEventBroadcastModel {
    pub omit_users: Option<Map<Seq<char>, bool>>,
    pub user_id: Option<Seq<char>>,
    pub channel_id: Seq<char>,
    pub team_id: Seq<char>,
}

impl Wire for WebsocketEventBroadcast {
    type Model = WebsocketEventBroadcastModel;

    open spec fn name() -> Seq<char> {
        "WebsocketEventBroadcast"@
    }

    open spec fn model(&self) -> WebsocketEventBroadcastModel {
        WebsocketEventBroadcastModel {
            omit_users: self.omit_users.model(),
            user_id: self.user_id.model(),
            channel_id: self.channel_id.model(),
            team_id: self.team_id.model(),
        }
    }

    open spec fn valid(m: WebsocketEventBroadcastModel) -> bool {
        true
    }

    open spec fn encoded(m: WebsocketEventBroadcastModel) -> Json {
        Json::empty_object()
            .with("omit_users"@, Option::<StringMap<bool>>::encoded(m.omit_users))
            .with("user_id"@, Option::<String>::encoded(m.user_id))
            .with("channel_id"@, String::encoded(m.channel_id))
            .with("team_id"@, String::encoded(m.team_id))
    }

    open spec fn decoded(tree: Json) -> Option<WebsocketEventBroadcastModel> {
        let omit_users = field::<Option<StringMap<bool>>>(tree, "omit_users"@);
        let user_id = field::<Option<String>>(tree, "user_id"@);
        let channel_id = field::<String>(tree, "channel_id"@);
        let team_id = field::<String>(tree, "team_id"@);
        if omit_users is Some
            && user_id is Some
            && channel_id is Some
            && team_id is Some {
            Some(
                WebsocketEventBroadcastModel {
                    omit_users: omit_users->0,
                    user_id: user_id->0,
                    channel_id: channel_id->0,
                    team_id: team_id->0,
                },
            )
        } else {
            None
        }
    }

    open spec fn rejects(tree: Json, fault: FaultModel) -> bool {
        if field::<Option<StringMap<bool>>>(tree, "omit_users"@) is None {
            field_rejects::<Option<StringMap<bool>>>(tree, "omit_users"@, fault)
        } else if field::<Option<String>>(tree, "user_id"@) is None {
            field_rejects::<Option<String>>(tree, "user_id"@, fault)
        } else if field::<String>(tree, "channel_id"@) is None {
            field_rejects::<String>(tree, "channel_id"@, fault)
        } else if field::<String>(tree, "team_id"@) is None {
            field_rejects::<String>(tree, "team_id"@, fault)
        } else {
            false
        }
    }

    open spec fn if_absent() -> Option<WebsocketEventBroadcastModel> {
        None
    }

    fn label() -> (r: String) {
        "WebsocketEventBroadcast".to_owned()
    }

    fn to_value(&self) -> (v: Value) {
        let mut obj = empty_object();
        object_insert(&mut obj, "omit_users".to_owned(), self.omit_users.to_value());
        object_insert(&mut obj, "user_id".to_owned(), self.user_id.to_value());
        object_insert(&mut obj, "channel_id".to_owned(), self.channel_id.to_value());
        object_insert(&mut obj, "team_id".to_owned(), self.team_id.to_value());
        obj
    }

    fn from_value(v: &Value) -> (r: Result<Self, Fault>) {
        let omit_users = read_field::<Option<StringMap<bool>>>(v, "omit_users")?;
        let user_id = read_field::<Option<String>>(v, "user_id")?;
        let channel_id = read_field::<String>(v, "channel_id")?;
        let team_id = read_field::<String>(v, "team_id")?;
        Ok(WebsocketEventBroadcast { omit_users, user_id, channel_id, team_id })
    }

    fn absent() -> (r: Option<Self>) {
        None
    }

    proof fn lemma_round_trip(m: WebsocketEventBroadcastModel) {
        reveal_strlit("omit_users");
        reveal_strlit("user_id");
        reveal_strlit("channel_id");
        reveal_strlit("team_id");
        assert("user_id"@.len() == 7 && "user_id"@[0] == 'u');
        assert("team_id"@.len() == 7 && "team_id"@[0] == 't');
        assert("omit_users"@.len() == 10 && "omit_users"@[0] == 'o');
        assert("channel_id"@.len() == 10 && "channel_id"@[0] == 'c');
        Option::<StringMap<bool>>::lemma_round_trip(m.omit_users);
        Option::<String>::lemma_round_trip(m.user_id);
    }

    proof fn lemma_rejects_rejected(tree: Json, fault: FaultModel) {
    }
}

} // verus!
