//! The type of a channel.

use vstd::prelude::*;
use serde_json::Value;
use crate::fault::{Fault, FaultKind, FaultModel};
use crate::json::{string_value, value_str, Json};
use crate::wire::{same_text, Wire};

verus! {

/// The type of a channel, as the payload of a posted event names it.
///
/// The server may name types that this crate does not know: such a token is
/// kept as it is in `Other`.
#[derive(Clone, Debug, PartialEq, Eq)]
pub enum ChannelType {
    /// An open channel; the token is `"O"`.
    Open,
    /// A direct message channel; the token is `"D"`.
    DirectMessage,
    /// A private channel; the token is `"P"`.
    Private,
    /// Any other type, with its token.
    Other(String),
}

/// What a [`ChannelType`] stands for.
pub enum ChannelTypeModel {
    Open,
    DirectMessage,
    Private,
    Other(Seq<char>),
}

impl ChannelTypeModel {
    /// The token that stands for this type on the wire.
    pub open spec fn token(self) -> Seq<char> {
        match self {
            ChannelTypeModel::Open => "O"@,
            ChannelTypeModel::DirectMessage => "D"@,
            ChannelTypeModel::Private => "P"@,
            ChannelTypeModel::Other(token) => token,
        }
    }

    /// The type that a token stands for.
    pub open spec fn of_token(token: Seq<char>) -> ChannelTypeModel {
        if token == "O"@ {
            ChannelTypeModel::Open
        } else if token == "D"@ {
            ChannelTypeModel::DirectMessage
        } else if token == "P"@ {
            ChannelTypeModel::Private
        } else {
            ChannelTypeModel::Other(token)
        }
    }
}

impl Wire for ChannelType {
    type Model = ChannelTypeModel;

    open spec fn name() -> Seq<char> {
        "ChannelType"@
    }

    open spec fn model(&self) -> ChannelTypeModel {
        match self {
            ChannelType::Open => ChannelTypeModel::Open,
            ChannelType::DirectMessage => ChannelTypeModel::DirectMessage,
            ChannelType::Private => ChannelTypeModel::Private,
            ChannelType::Other(token) => ChannelTypeModel::Other(token@),
        }
    }

    /// `Other` is for the tokens that have no variant of their own.
    open spec fn valid(m: ChannelTypeModel) -> bool {
        ChannelTypeModel::of_token(m.token()) == m
    }

    open spec fn encoded(m: ChannelTypeModel) -> Json {
        Json::Str(m.token())
    }

    open spec fn decoded(tree: Json) -> Option<ChannelTypeModel> {
        match tree {
            Json::Str(token) => Some(ChannelTypeModel::of_token(token)),
            _ => None,
        }
    }

    open spec fn rejects(tree: Json, fault: FaultModel) -> bool {
        Self::decoded(tree) is None && fault == FaultModel::here(FaultKind::Mismatch)
    }

    open spec fn if_absent() -> Option<ChannelTypeModel> {
        None
    }

    fn label() -> (r: String) {
        "ChannelType".to_owned()
    }

    fn to_value(&self) -> (v: Value) {
        match self {
            ChannelType::Open => string_value("O".to_owned()),
            ChannelType::DirectMessage => string_value("D".to_owned()),
            ChannelType::Private => string_value("P".to_owned()),
            ChannelType::Other(token) => string_value(token.clone()),
        }
    }

    fn from_value(v: &Value) -> (r: Result<Self, Fault>) {
        match value_str(v) {
            Some(token) => {
                if same_text(token, "O") {
                    Ok(ChannelType::Open)
                } else if same_text(token, "D") {
                    Ok(ChannelType::DirectMessage)
                } else if same_text(token, "P") {
                    Ok(ChannelType::Private)
                } else {
                    Ok(ChannelType::Other(token.to_owned()))
                }
            },
            None => Err(Fault::here(FaultKind::Mismatch)),
        }
    }

    fn absent() -> (r: Option<Self>) {
        None
    }

    proof fn lemma_round_trip(m: ChannelTypeModel) {
    }

    proof fn lemma_rejects_rejected(tree: Json, fault: FaultModel) {
    }
}

} // verus!
