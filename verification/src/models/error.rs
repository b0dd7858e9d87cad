//! The error body of a failed request.

use vstd::prelude::*;
use serde_json::Value;
use crate::fault::{Fault, FaultModel};
use crate::json::{empty_object, object_insert, Json};
use crate::wire::{field, field_rejects, read_field, Wire};

verus! {

/// The error body that the server sends with a failed request.
///
/// It is plain data: whether to try again is for the caller to decide.
#[derive(Clone, Debug, PartialEq, Eq)]
pub struct MattermostError {
    pub id: String,
    pub message: String,
    pub request_id: String,
    pub status_code: i16,
    pub is_oauth: Option<bool>,
    pub detailed_error: Option<String>,
}

/// What a [`MattermostError`] stands for.
pub struct MattermostErrorModel {
    pub id: Seq<char>,
    pub message: Seq<char>,
    pub request_id: Seq<char>,
    pub status_code: i16,
    pub is_oauth: Option<bool>,
    pub detailed_error: Option<Seq<char>>,
}

impl Wire for MattermostError {
    type Model = MattermostErrorModel;

    open spec fn name() -> Seq<char> {
        "MattermostError"@
    }

    open spec fn model(&self) -> MattermostErrorModel {
        MattermostErrorModel {
            id: self.id.model(),
            message: self.message.model(),
            request_id: self.request_id.model(),
            status_code: self.status_code.model(),
            is_oauth: self.is_oauth.model(),
            detailed_error: self.detailed_error.model(),
        }
    }

    open spec fn valid(m: MattermostErrorModel) -> bool {
        true
    }

    open spec fn encoded(m: MattermostErrorModel) -> Json {
        Json::empty_object()
            .with("id"@, String::encoded(m.id))
            .with("message"@, String::encoded(m.message))
            .with("request_id"@, String::encoded(m.request_id))
            .with("status_code"@, i16::encoded(m.status_code))
            .with("is_oauth"@, Option::<bool>::encoded(m.is_oauth))
            .with("detailed_error"@, Option::<String>::encoded(m.detailed_error))
    }

    open spec fn decoded(tree: Json) -> Option<MattermostErrorModel> {
        let id = field::<String>(tree, "id"@);
        let message = field::<String>(tree, "message"@);
        let request_id = field::<String>(tree, "request_id"@);
        let status_code = field::<i16>(tree, "status_code"@);
        let is_oauth = field::<Option<bool>>(tree, "is_oauth"@);
        let detailed_error = field::<Option<String>>(tree, "detailed_error"@);
        if id is Some
            && message is Some
            && request_id is Some
            && status_code is Some
            && is_oauth is Some
            && detailed_error is Some {
            Some(
                MattermostErrorModel {
                    id: id->0,
                    message: message->0,
                    request_id: request_id->0,
                    status_code: status_code->0,
                    is_oauth: is_oauth->0,
                    detailed_error: detailed_error->0,
                },
            )
        } else {
            None
        }
    }

    open spec fn rejects(tree: Json, fault: FaultModel) -> bool {
        if field::<String>(tree, "id"@) is None {
            field_rejects::<String>(tree, "id"@, fault)
        } else if field::<String>(tree, "message"@) is None {
            field_rejects::<String>(tree, "message"@, fault)
        } else if field::<String>(tree, "request_id"@) is None {
            field_rejects::<String>(tree, "request_id"@, fault)
        } else if field::<i16>(tree, "status_code"@) is None {
            field_rejects::<i16>(tree, "status_code"@, fault)
        } else if field::<Option<bool>>(tree, "is_oauth"@) is None {
            field_rejects::<Option<bool>>(tree, "is_oauth"@, fault)
        } else if field::<Option<String>>(tree, "detailed_error"@) is None {
            field_rejects::<Option<String>>(tree, "detailed_error"@, fault)
        } else {
            false
        }
    }

    open spec fn if_absent() -> Option<MattermostErrorModel> {
        None
    }

    fn label() -> (r: String) {
        "MattermostError".to_owned()
    }

    fn to_value(&self) -> (v: Value) {
        let mut obj = empty_object();
        object_insert(&mut obj, "id".to_owned(), self.id.to_value());
        object_insert(&mut obj, "message".to_owned(), self.message.to_value());
        object_insert(&mut obj, "request_id".to_owned(), self.request_id.to_value());
        object_insert(&mut obj, "status_code".to_owned(), self.status_code.to_value());
        object_insert(&mut obj, "is_oauth".to_owned(), self.is_oauth.to_value());
        object_insert(&mut obj, "detailed_error".to_owned(), self.detailed_error.to_value());
        obj
    }

    fn from_value(v: &Value) -> (r: Result<Self, Fault>) {
        let id = read_field::<String>(v, "id")?;
        let message = read_field::<String>(v, "message")?;
        let request_id = read_field::<String>(v, "request_id")?;
        let status_code = read_field::<i16>(v, "status_code")?;
        let is_oauth = read_field::<Option<bool>>(v, "is_oauth")?;
        let detailed_error = read_field::<Option<String>>(v, "detailed_error")?;
        Ok(MattermostError { id, message, request_id, status_code, is_oauth, detailed_error })
    }

    fn absent() -> (r: Option<Self>) {
        None
    }

    proof fn lemma_round_trip(m: MattermostErrorModel) {
        reveal_strlit("id");
        reveal_strlit("message");
        reveal_strlit("request_id");
        reveal_strlit("status_code");
        reveal_strlit("is_oauth");
        reveal_strlit("detailed_error");
        assert("id"@.len() == 2);
        assert("message"@.len() == 7);
        assert("request_id"@.len() == 10);
        assert("status_code"@.len() == 11);
        assert("is_oauth"@.len() == 8);
        assert("detailed_error"@.len() == 14);
        Option::<bool>::lemma_round_trip(m.is_oauth);
        Option::<String>::lemma_round_trip(m.detailed_error);
    }

    proof fn lemma_rejects_rejected(tree: Json, fault: FaultModel) {
    }
}

} // verus!
