//! What a failed decode reports: the kind of fault and where it lies.

use vstd::prelude::*;

verus! {

/// Why a JSON value could not be read as the type that was asked for.
#[derive(Clone, Copy, Debug, PartialEq, Eq, Structural)]
pub enum FaultKind {
    /// The text is not JSON.
    Syntax,
    /// An object lacks a member that the type requires.
    Missing,
    /// A value has another JSON type than the one expected, or a number is
    /// out of the range of its field.
    Mismatch,
    /// A string is none of the tokens of a closed enumeration.
    Unrecognized,
    /// The parts are well formed but contradict each other.
    Inconsistent,
}

/// One step on the way from a JSON value to a value inside it.
#[derive(Clone, Debug, PartialEq, Eq)]
pub enum PathStep {
    /// Into the member of an object, by its key.
    Field(String),
    /// Into the element of an array, by its position.
    Index(usize),
}

/// The mathematical form of a [`PathStep`].
pub enum Step {
    Field(Seq<char>),
    Index(int),
}

impl View for PathStep {
    type V = Step;

    open spec fn view(&self) -> Step {
        match self {
            PathStep::Field(key) => Step::Field(key@),
            PathStep::Index(i) => Step::Index(*i as int),
        }
    }
}

/// The steps of a path, in order.
pub open spec fn steps_of(path: Seq<PathStep>) -> Seq<Step> {
    Seq::new(path.len(), |i: int| path[i]@)
}

/// A fault found while decoding, with the path from the decoded value to the
/// place of the fault.
#[derive(Clone, Debug, PartialEq, Eq)]
pub struct Fault {
    pub kind: FaultKind,
    pub path: Vec<PathStep>,
}

/// The mathematical form of a [`Fault`].
pub struct FaultModel {
    pub kind: FaultKind,
    pub path: Seq<Step>,
}

impl FaultModel {
    /// A fault at the decoded value itself.
    pub open spec fn here(kind: FaultKind) -> FaultModel {
        FaultModel { kind, path: Seq::empty() }
    }

    /// This fault as seen from one step further out.
    pub open spec fn under(self, step: Step) -> FaultModel {
        FaultModel { kind: self.kind, path: seq![step] + self.path }
    }

    /// This fault as seen from one step further in.
    pub open spec fn below(self) -> FaultModel
        recommends
            self.path.len() > 0,
    {
        FaultModel { kind: self.kind, path: self.path.drop_first() }
    }

    /// Whether the path starts with `step`.
    pub open spec fn starts_with(self, step: Step) -> bool {
        self.path.len() > 0 && self.path[0] == step
    }
}

impl View for Fault {
    type V = FaultModel;

    open spec fn view(&self) -> FaultModel {
        FaultModel { kind: self.kind, path: steps_of(self.path@) }
    }
}

impl Fault {
    /// A fault at the decoded value itself.
    pub fn here(kind: FaultKind) -> (r: Fault)
        ensures
            r@ == FaultModel::here(kind),
    {
        let r = Fault { kind, path: Vec::new() };
        assert(r@.path =~= Seq::empty());
        r
    }

    /// This fault as seen from one step further out.
    pub fn under(self, step: PathStep) -> (r: Fault)
        ensures
            r@ == self@.under(step@),
            r@.starts_with(step@),
            r@.below() == self@,
    {
        let ghost before = self@;
        let mut path = self.path;
        path.insert(0, step);
        let r = Fault { kind: self.kind, path };
        assert(r@.path =~= seq![step@] + before.path);
        assert(r@.path.drop_first() =~= before.path);
        r
    }
}

/// A failed decode: the type that was asked for, the kind of fault, and the
/// path from the decoded value to the place of the fault.
#[derive(Clone, Debug, PartialEq, Eq)]
pub struct DecodeError {
    pub entity: String,
    pub kind: FaultKind,
    pub path: Vec<PathStep>,
}

/// The mathematical form of a [`DecodeError`].
pub struct DecodeErrorModel {
    pub entity: Seq<char>,
    pub fault: FaultModel,
}

impl View for DecodeError {
    type V = DecodeErrorModel;

    open spec fn view(&self) -> DecodeErrorModel {
        DecodeErrorModel {
            entity: self.entity@,
            fault: FaultModel { kind: self.kind, path: steps_of(self.path@) },
        }
    }
}

} // verus!
