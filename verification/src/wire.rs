//! The mapping between a type and its JSON form.

use vstd::prelude::*;
use serde_json::Value;
use vstd::utf8::encode_utf8_decode_utf8;
use crate::fault::{DecodeError, DecodeErrorModel, Fault, FaultKind, FaultModel, PathStep, Step};
use crate::json::{
    array_value, bool_value, i64_value, json_of, jsons_of, null_value, parse_value,
    parsed, print_value, printed, string_value, u64_value, value_bool, value_i64, value_is_null,
    value_is_object, value_items, value_member, value_str, value_u64, Json,
};

verus! {

/// A type with a JSON form.
///
/// `Model` is the mathematical value that an instance stands for; the
/// mapping is stated over it. `encoded` gives the JSON form of a model and
/// `decoded` reads a model back from a JSON tree, or rejects the tree.
pub trait Wire: Sized {
    type Model;

    /// The name by which a failed decode refers to this type.
    spec fn name() -> Seq<char>;

    /// The mathematical value of `self`.
    spec fn model(&self) -> Self::Model;

    /// The models for which encoding loses nothing: decoding what they
    /// encode to gives them back.
    spec fn valid(m: Self::Model) -> bool;

    /// The JSON form of a model.
    spec fn encoded(m: Self::Model) -> Json;

    /// The model that a JSON tree is read as, or `None` where it is rejected.
    spec fn decoded(tree: Json) -> Option<Self::Model>;

    /// Whether `tree` is rejected and `fault` is a report that it may get.
    spec fn rejects(tree: Json, fault: FaultModel) -> bool;

    /// What an object's member of this type is read as where the object has
    /// no such member, or `None` where the member is required.
    spec fn if_absent() -> Option<Self::Model>;

    /// The name by which a failed decode refers to this type.
    fn label() -> (r: String)
        ensures
            r@ == Self::name(),
    ;

    /// Encodes `self`.
    fn to_value(&self) -> (v: Value)
        ensures
            json_of(v) == Self::encoded(self.model()),
    ;

    /// Decodes a JSON value.
    fn from_value(v: &Value) -> (r: Result<Self, Fault>)
        ensures
            match r {
                Ok(x) => Self::decoded(json_of(*v)) == Some(x.model()),
                Err(fault) => Self::decoded(json_of(*v)) is None && Self::rejects(
                    json_of(*v),
                    fault@,
                ),
            },
    ;

    /// The value for a member that an object lacks.
    fn absent() -> (r: Option<Self>)
        ensures
            match r {
                Some(x) => Self::if_absent() == Some(x.model()),
                None => Self::if_absent() is None,
            },
    ;

    /// Decoding an encoded valid model gives the model back.
    proof fn lemma_round_trip(m: Self::Model)
        requires
            Self::valid(m),
        ensures
            Self::decoded(Self::encoded(m)) == Some(m),
    ;

    /// Only a tree that is rejected gets a report.
    proof fn lemma_rejects_rejected(tree: Json, fault: FaultModel)
        ensures
            Self::rejects(tree, fault) ==> Self::decoded(tree) is None,
    ;
}

/// What the member `key` of `tree` is read as.
pub open spec fn field<T: Wire>(tree: Json, key: Seq<char>) -> Option<T::Model> {
    if tree.has(key) {
        T::decoded(tree->Object_0[key])
    } else if tree is Object {
        T::if_absent()
    } else {
        None
    }
}

/// Whether `fault` reports why the member `key` of `tree` cannot be read.
pub open spec fn field_rejects<T: Wire>(tree: Json, key: Seq<char>, fault: FaultModel) -> bool {
    if !(tree is Object) {
        fault == FaultModel::here(FaultKind::Mismatch)
    } else if !tree.has(key) {
        fault == FaultModel::here(FaultKind::Missing).under(Step::Field(key))
    } else {
        fault.starts_with(Step::Field(key)) && T::rejects(tree->Object_0[key], fault.below())
    }
}

/// Only a required member that cannot be read gets a report.
pub proof fn lemma_field_rejects_rejected<T: Wire>(tree: Json, key: Seq<char>, fault: FaultModel)
    requires
        T::if_absent() is None,
    ensures
        field_rejects::<T>(tree, key, fault) ==> field::<T>(tree, key) is None,
{
    if tree.has(key) {
        T::lemma_rejects_rejected(tree->Object_0[key], fault.below());
    }
}

/// Reads the member `key` of an object.
pub fn read_field<T: Wire>(v: &Value, key: &str) -> (r: Result<T, Fault>)
    ensures
        match r {
            Ok(x) => field::<T>(json_of(*v), key@) == Some(x.model()),
            Err(fault) => field::<T>(json_of(*v), key@) is None && field_rejects::<T>(
                json_of(*v),
                key@,
                fault@,
            ),
        },
{
    match value_member(v, key) {
        Some(x) => match T::from_value(x) {
            Ok(t) => Ok(t),
            Err(fault) => Err(fault.under(PathStep::Field(key.to_owned()))),
        },
        None => if value_is_object(v) {
            match T::absent() {
                Some(t) => Ok(t),
                None => Err(Fault::here(FaultKind::Missing).under(PathStep::Field(key.to_owned()))),
            }
        } else {
            Err(Fault::here(FaultKind::Mismatch))
        },
    }
}

/// Whether two texts are the same, character by character.
pub fn same_text(a: &str, b: &str) -> (r: bool)
    ensures
        r == (a@ == b@),
{
    let x = a.as_bytes();
    let y = b.as_bytes();
    proof {
        encode_utf8_decode_utf8(a@);
        encode_utf8_decode_utf8(b@);
    }
    if x.len() != y.len() {
        return false;
    }
    let mut i: usize = 0;
    while i < x.len()
        invariant
            i <= x.len(),
            x.len() == y.len(),
            x@ == vstd::utf8::encode_utf8(a@),
            y@ == vstd::utf8::encode_utf8(b@),
            forall|j: int| 0 <= j < i ==> x[j] == y[j],
        decreases x.len() - i,
    {
        if x[i] != y[i] {
            return false;
        }
        i += 1;
    }
    assert(x@ =~= y@);
    true
}

/// Decodes a JSON value as a `T`. A failure names `T` and says where in the
/// value the fault lies.
pub fn decode_value<T: Wire>(v: &Value) -> (r: Result<T, DecodeError>)
    ensures
        match r {
            Ok(x) => T::decoded(json_of(*v)) == Some(x.model()),
            Err(e) => {
                &&& T::decoded(json_of(*v)) is None
                &&& e@.entity == T::name()
                &&& T::rejects(json_of(*v), e@.fault)
            },
        },
{
    match T::from_value(v) {
        Ok(x) => Ok(x),
        Err(fault) => Err(DecodeError { entity: T::label(), kind: fault.kind, path: fault.path }),
    }
}

/// What decoding a text as a `T` gives, from what the JSON parser made of
/// the text.
pub open spec fn decode_gives<T: Wire>(outcome: Option<Json>) -> Option<T::Model> {
    match outcome {
        Some(tree) => T::decoded(tree),
        None => None,
    }
}

/// Whether `e` is a report that decoding a text as a `T` may give, from what
/// the JSON parser made of the text.
pub open spec fn decode_reports<T: Wire>(outcome: Option<Json>, e: DecodeErrorModel) -> bool {
    &&& e.entity == T::name()
    &&& match outcome {
        Some(tree) => T::rejects(tree, e.fault),
        None => e.fault == FaultModel::here(FaultKind::Syntax),
    }
}

/// Whether `r` is what decoding `text` as a `T` may return: the decoded
/// value where there is one, and else a report of the fault.
pub open spec fn decodes_to<T: Wire>(text: Seq<char>, r: Result<T, DecodeError>) -> bool {
    match r {
        Ok(x) => decode_gives::<T>(parsed(text)) == Some(x.model()),
        Err(e) => decode_gives::<T>(parsed(text)) is None && decode_reports::<T>(parsed(text), e@),
    }
}

/// Decodes a JSON text as a `T`.
pub fn decode<T: Wire>(text: &str) -> (r: Result<T, DecodeError>)
    ensures
        decodes_to::<T>(text@, r),
{
    match parse_value(text) {
        Ok(v) => decode_value::<T>(&v),
        Err(_) => {
            let e = DecodeError {
                entity: T::label(),
                kind: FaultKind::Syntax,
                path: Vec::new(),
            };
            assert(e@.fault.path =~= Seq::empty());
            Err(e)
        },
    }
}

/// Encodes a value as a JSON text, or `None` where the JSON printer gives up
/// on it.
pub fn encode<T: Wire>(x: &T) -> (r: Option<String>)
    ensures
        match r {
            Some(s) => printed(T::encoded(x.model())) == Some(s@),
            None => printed(T::encoded(x.model())) is None,
        },
{
    let v = x.to_value();
    print_value(&v)
}

impl Wire for String {
    type Model = Seq<char>;

    open spec fn name() -> Seq<char> {
        "string"@
    }

    open spec fn model(&self) -> Seq<char> {
        self@
    }

    open spec fn valid(m: Seq<char>) -> bool {
        true
    }

    open spec fn encoded(m: Seq<char>) -> Json {
        Json::Str(m)
    }

    open spec fn decoded(tree: Json) -> Option<Seq<char>> {
        match tree {
            Json::Str(s) => Some(s),
            _ => None,
        }
    }

    open spec fn rejects(tree: Json, fault: FaultModel) -> bool {
        Self::decoded(tree) is None && fault == FaultModel::here(FaultKind::Mismatch)
    }

    open spec fn if_absent() -> Option<Seq<char>> {
        None
    }

    fn label() -> (r: String) {
        "string".to_owned()
    }

    fn to_value(&self) -> (v: Value) {
        string_value(self.clone())
    }

    fn from_value(v: &Value) -> (r: Result<Self, Fault>) {
        match value_str(v) {
            Some(s) => Ok(s.to_owned()),
            None => Err(Fault::here(FaultKind::Mismatch)),
        }
    }

    fn absent() -> (r: Option<Self>) {
        None
    }

    proof fn lemma_round_trip(m: Seq<char>) {
    }

    proof fn lemma_rejects_rejected(tree: Json, fault: FaultModel) {
    }
}

impl Wire for bool {
    type Model = bool;

    open spec fn name() -> Seq<char> {
        "boolean"@
    }

    open spec fn model(&self) -> bool {
        *self
    }

    open spec fn valid(m: bool) -> bool {
        true
    }

    open spec fn encoded(m: bool) -> Json {
        Json::Bool(m)
    }

    open spec fn decoded(tree: Json) -> Option<bool> {
        match tree {
            Json::Bool(b) => Some(b),
            _ => None,
        }
    }

    open spec fn rejects(tree: Json, fault: FaultModel) -> bool {
        Self::decoded(tree) is None && fault == FaultModel::here(FaultKind::Mismatch)
    }

    open spec fn if_absent() -> Option<bool> {
        None
    }

    fn label() -> (r: String) {
        "boolean".to_owned()
    }

    fn to_value(&self) -> (v: Value) {
        bool_value(*self)
    }

    fn from_value(v: &Value) -> (r: Result<Self, Fault>) {
        match value_bool(v) {
            Some(b) => Ok(b),
            None => Err(Fault::here(FaultKind::Mismatch)),
        }
    }

    fn absent() -> (r: Option<Self>) {
        None
    }

    proof fn lemma_round_trip(m: bool) {
    }

    proof fn lemma_rejects_rejected(tree: Json, fault: FaultModel) {
    }
}

impl Wire for u64 {
    type Model = u64;

    open spec fn name() -> Seq<char> {
        "integer"@
    }

    open spec fn model(&self) -> u64 {
        *self
    }

    open spec fn valid(m: u64) -> bool {
        true
    }

    open spec fn encoded(m: u64) -> Json {
        Json::Int(m as int)
    }

    open spec fn decoded(tree: Json) -> Option<u64> {
        match tree {
            Json::Int(i) => if 0 <= i <= u64::MAX {
                Some(i as u64)
            } else {
                None
            },
            _ => None,
        }
    }

    open spec fn rejects(tree: Json, fault: FaultModel) -> bool {
        Self::decoded(tree) is None && fault == FaultModel::here(FaultKind::Mismatch)
    }

    open spec fn if_absent() -> Option<u64> {
        None
    }

    fn label() -> (r: String) {
        "integer".to_owned()
    }

    fn to_value(&self) -> (v: Value) {
        u64_value(*self)
    }

    fn from_value(v: &Value) -> (r: Result<Self, Fault>) {
        match value_u64(v) {
            Some(n) => Ok(n),
            None => Err(Fault::here(FaultKind::Mismatch)),
        }
    }

    fn absent() -> (r: Option<Self>) {
        None
    }

    proof fn lemma_round_trip(m: u64) {
    }

    proof fn lemma_rejects_rejected(tree: Json, fault: FaultModel) {
    }
}

impl<T: Wire> Wire for Option<T> {
    type Model = Option<T::Model>;

    open spec fn name() -> Seq<char> {
        T::name()
    }

    open spec fn model(&self) -> Option<T::Model> {
        match self {
            Some(x) => Some(x.model()),
            None => None,
        }
    }

    open spec fn valid(m: Option<T::Model>) -> bool {
        match m {
            Some(x) => T::valid(x) && !(T::encoded(x) is Null),
            None => true,
        }
    }

    open spec fn encoded(m: Option<T::Model>) -> Json {
        match m {
            Some(x) => T::encoded(x),
            None => Json::Null,
        }
    }

    open spec fn decoded(tree: Json) -> Option<Option<T::Model>> {
        if tree is Null {
            Some(None)
        } else {
            match T::decoded(tree) {
                Some(x) => Some(Some(x)),
                None => None,
            }
        }
    }

    open spec fn rejects(tree: Json, fault: FaultModel) -> bool {
        !(tree is Null) && T::rejects(tree, fault)
    }

    open spec fn if_absent() -> Option<Option<T::Model>> {
        Some(None)
    }

    fn label() -> (r: String) {
        T::label()
    }

    fn to_value(&self) -> (v: Value) {
        match self {
            Some(x) => x.to_value(),
            None => null_value(),
        }
    }

    fn from_value(v: &Value) -> (r: Result<Self, Fault>) {
        if value_is_null(v) {
            Ok(None)
        } else {
            match T::from_value(v) {
                Ok(x) => Ok(Some(x)),
                Err(fault) => Err(fault),
            }
        }
    }

    fn absent() -> (r: Option<Self>) {
        Some(None)
    }

    proof fn lemma_round_trip(m: Option<T::Model>) {
        if let Some(x) = m {
            T::lemma_round_trip(x);
        }
    }

    proof fn lemma_rejects_rejected(tree: Json, fault: FaultModel) {
        T::lemma_rejects_rejected(tree, fault);
    }
}

impl Wire for usize {
    type Model = usize;

    open spec fn name() -> Seq<char> {
        "integer"@
    }

    open spec fn model(&self) -> usize {
        *self
    }

    open spec fn valid(m: usize) -> bool {
        true
    }

    open spec fn encoded(m: usize) -> Json {
        Json::Int(m as int)
    }

    open spec fn decoded(tree: Json) -> Option<usize> {
        match tree {
            Json::Int(i) => if 0 <= i <= usize::MAX {
                Some(i as usize)
            } else {
                None
            },
            _ => None,
        }
    }

    open spec fn rejects(tree: Json, fault: FaultModel) -> bool {
        Self::decoded(tree) is None && fault == FaultModel::here(FaultKind::Mismatch)
    }

    open spec fn if_absent() -> Option<usize> {
        None
    }

    fn label() -> (r: String) {
        "integer".to_owned()
    }

    fn to_value(&self) -> (v: Value) {
        u64_value(*self as u64)
    }

    fn from_value(v: &Value) -> (r: Result<Self, Fault>) {
        match value_u64(v) {
            Some(n) => if n <= usize::MAX as u64 {
                Ok(n as usize)
            } else {
                Err(Fault::here(FaultKind::Mismatch))
            },
            None => Err(Fault::here(FaultKind::Mismatch)),
        }
    }

    fn absent() -> (r: Option<Self>) {
        None
    }

    proof fn lemma_round_trip(m: usize) {
    }

    proof fn lemma_rejects_rejected(tree: Json, fault: FaultModel) {
    }
}

impl Wire for i64 {
    type Model = i64;

    open spec fn name() -> Seq<char> {
        "integer"@
    }

    open spec fn model(&self) -> i64 {
        *self
    }

    open spec fn valid(m: i64) -> bool {
        true
    }

    open spec fn encoded(m: i64) -> Json {
        Json::Int(m as int)
    }

    open spec fn decoded(tree: Json) -> Option<i64> {
        match tree {
            Json::Int(i) => if i64::MIN <= i <= i64::MAX {
                Some(i as i64)
            } else {
                None
            },
            _ => None,
        }
    }

    open spec fn rejects(tree: Json, fault: FaultModel) -> bool {
        Self::decoded(tree) is None && fault == FaultModel::here(FaultKind::Mismatch)
    }

    open spec fn if_absent() -> Option<i64> {
        None
    }

    fn label() -> (r: String) {
        "integer".to_owned()
    }

    fn to_value(&self) -> (v: Value) {
        i64_value(*self)
    }

    fn from_value(v: &Value) -> (r: Result<Self, Fault>) {
        match value_i64(v) {
            Some(n) => Ok(n),
            None => Err(Fault::here(FaultKind::Mismatch)),
        }
    }

    fn absent() -> (r: Option<Self>) {
        None
    }

    proof fn lemma_round_trip(m: i64) {
    }

    proof fn lemma_rejects_rejected(tree: Json, fault: FaultModel) {
    }
}

impl Wire for i16 {
    type Model = i16;

    open spec fn name() -> Seq<char> {
        "integer"@
    }

    open spec fn model(&self) -> i16 {
        *self
    }

    open spec fn valid(m: i16) -> bool {
        true
    }

    open spec fn encoded(m: i16) -> Json {
        Json::Int(m as int)
    }

    open spec fn decoded(tree: Json) -> Option<i16> {
        match tree {
            Json::Int(i) => if i16::MIN <= i <= i16::MAX {
                Some(i as i16)
            } else {
                None
            },
            _ => None,
        }
    }

    open spec fn rejects(tree: Json, fault: FaultModel) -> bool {
        Self::decoded(tree) is None && fault == FaultModel::here(FaultKind::Mismatch)
    }

    open spec fn if_absent() -> Option<i16> {
        None
    }

    fn label() -> (r: String) {
        "integer".to_owned()
    }

    fn to_value(&self) -> (v: Value) {
        i64_value(*self as i64)
    }

    fn from_value(v: &Value) -> (r: Result<Self, Fault>) {
        match value_i64(v) {
            Some(n) => if i16::MIN as i64 <= n && n <= i16::MAX as i64 {
                Ok(n as i16)
            } else {
                Err(Fault::here(FaultKind::Mismatch))
            },
            None => Err(Fault::here(FaultKind::Mismatch)),
        }
    }

    fn absent() -> (r: Option<Self>) {
        None
    }

    proof fn lemma_round_trip(m: i16) {
    }

    proof fn lemma_rejects_rejected(tree: Json, fault: FaultModel) {
    }
}

/// Free-form JSON is kept as it is.
impl Wire for Value {
    type Model = Json;

    open spec fn name() -> Seq<char> {
        "value"@
    }

    open spec fn model(&self) -> Json {
        json_of(*self)
    }

    open spec fn valid(m: Json) -> bool {
        true
    }

    open spec fn encoded(m: Json) -> Json {
        m
    }

    open spec fn decoded(tree: Json) -> Option<Json> {
        Some(tree)
    }

    open spec fn rejects(tree: Json, fault: FaultModel) -> bool {
        false
    }

    open spec fn if_absent() -> Option<Json> {
        None
    }

    fn label() -> (r: String) {
        "value".to_owned()
    }

    fn to_value(&self) -> (v: Value) {
        self.clone()
    }

    fn from_value(v: &Value) -> (r: Result<Self, Fault>) {
        Ok(v.clone())
    }

    fn absent() -> (r: Option<Self>) {
        None
    }

    proof fn lemma_round_trip(m: Json) {
    }

    proof fn lemma_rejects_rejected(tree: Json, fault: FaultModel) {
    }
}

impl<T: Wire> Wire for Vec<T> {
    type Model = Seq<T::Model>;

    open spec fn name() -> Seq<char> {
        T::name()
    }

    open spec fn model(&self) -> Seq<T::Model> {
        Seq::new(self@.len(), |i: int| self@[i].model())
    }

    open spec fn valid(m: Seq<T::Model>) -> bool {
        forall|i: int| 0 <= i < m.len() ==> T::valid(#[trigger] m[i])
    }

    open spec fn encoded(m: Seq<T::Model>) -> Json {
        Json::Array(Seq::new(m.len(), |i: int| T::encoded(m[i])))
    }

    open spec fn decoded(tree: Json) -> Option<Seq<T::Model>> {
        match tree {
            Json::Array(items) => if forall|i: int|
                0 <= i < items.len() ==> (#[trigger] T::decoded(items[i])) is Some {
                Some(Seq::new(items.len(), |i: int| T::decoded(items[i])->0))
            } else {
                None
            },
            _ => None,
        }
    }

    open spec fn rejects(tree: Json, fault: FaultModel) -> bool {
        match tree {
            Json::Array(items) => {
                &&& fault.path.len() > 0
                &&& fault.path[0] is Index
                &&& 0 <= fault.path[0]->Index_0 < items.len()
                &&& forall|j: int|
                    0 <= j < fault.path[0]->Index_0 ==> (#[trigger] T::decoded(items[j])) is Some
                &&& T::decoded(items[fault.path[0]->Index_0]) is None
                &&& T::rejects(items[fault.path[0]->Index_0], fault.below())
            },
            _ => fault == FaultModel::here(FaultKind::Mismatch),
        }
    }

    open spec fn if_absent() -> Option<Seq<T::Model>> {
        None
    }

    fn label() -> (r: String) {
        T::label()
    }

    fn to_value(&self) -> (v: Value) {
        let mut out: Vec<Value> = Vec::new();
        let mut i: usize = 0;
        while i < self.len()
            invariant
                i <= self.len(),
                out.len() == i,
                forall|j: int| 0 <= j < i ==> json_of(#[trigger] out[j]) == T::encoded(self[j].model()),
            decreases self.len() - i,
        {
            out.push(self[i].to_value());
            i += 1;
        }
        assert(jsons_of(out@) =~= Seq::new(
            self.model().len(),
            |i: int| T::encoded(self.model()[i]),
        ));
        array_value(out)
    }

    fn from_value(v: &Value) -> (r: Result<Self, Fault>) {
        match value_items(v) {
            None => Err(Fault::here(FaultKind::Mismatch)),
            Some(items) => {
                let ghost trees = jsons_of(items@);
                let mut out: Vec<T> = Vec::new();
                let mut i: usize = 0;
                while i < items.len()
                    invariant
                        i <= items.len(),
                        out.len() == i,
                        trees == jsons_of(items@),
                        json_of(*v) == Json::Array(trees),
                        forall|j: int|
                            0 <= j < i ==> (#[trigger] T::decoded(trees[j])) == Some(
                                out[j].model(),
                            ),
                    decreases items.len() - i,
                {
                    match T::from_value(&items[i]) {
                        Ok(x) => {
                            out.push(x);
                        },
                        Err(fault) => {
                            let at = fault.under(PathStep::Index(i));
                            assert(T::decoded(trees[i as int]) is None);
                            return Err(at);
                        },
                    }
                    i += 1;
                }
                assert(out.model() =~= Seq::new(trees.len(), |i: int| T::decoded(trees[i])->0));
                Ok(out)
            },
        }
    }

    fn absent() -> (r: Option<Self>) {
        None
    }

    proof fn lemma_round_trip(m: Seq<T::Model>) {
        let items = Seq::new(m.len(), |i: int| T::encoded(m[i]));
        assert forall|i: int| 0 <= i < items.len() implies (#[trigger] T::decoded(items[i]))
            == Some(m[i]) by {
            T::lemma_round_trip(m[i]);
        }
        assert(Seq::new(items.len(), |i: int| T::decoded(items[i])->0) =~= m);
    }

    proof fn lemma_rejects_rejected(tree: Json, fault: FaultModel) {
    }
}

} // verus!
