//! A map from strings to values, kept as a list of entries.
//!
//! JSON objects with free keys decode into a [`StringMap`]. The list keeps
//! the order in which entries were added; where a key occurs more than once,
//! the entry added last is the one that counts.

use vstd::prelude::*;
use serde_json::Value;
use crate::fault::{Fault, FaultKind, FaultModel, PathStep};
use crate::json::{empty_object, json_of, object_insert, value_members, Json};
use crate::wire::Wire;

verus! {

/// A map from strings to values.
#[derive(Clone, Debug, PartialEq, Eq)]
pub struct StringMap<V> {
    pub entries: Vec<(String, V)>,
}

/// The map that a list of entries stands for.
pub open spec fn entries_map<V>(entries: Seq<(String, V)>) -> Map<Seq<char>, V>
    decreases entries.len(),
{
    if entries.len() == 0 {
        Map::empty()
    } else {
        entries_map(entries.drop_last()).insert(entries.last().0@, entries.last().1)
    }
}

/// An entry that no later entry shadows is what the map holds for its key.
pub proof fn lemma_entries_map_holds<V>(entries: Seq<(String, V)>, i: int)
    requires
        0 <= i < entries.len(),
        forall|j: int| i < j < entries.len() ==> (#[trigger] entries[j]).0@ != entries[i].0@,
    ensures
        entries_map(entries).contains_key(entries[i].0@),
        entries_map(entries)[entries[i].0@] == entries[i].1,
    decreases entries.len(),
{
    if i < entries.len() - 1 {
        let front = entries.drop_last();
        assert(front[i] == entries[i]);
        assert forall|j: int| i < j < front.len() implies (#[trigger] front[j]).0@ != front[i].0@ by {
            assert(front[j] == entries[j]);
        }
        lemma_entries_map_holds(front, i);
        assert(entries.last() == entries[entries.len() - 1]);
    }
}

/// The map holds a key exactly where some entry has it.
pub proof fn lemma_entries_map_keys<V>(entries: Seq<(String, V)>, key: Seq<char>)
    ensures
        entries_map(entries).contains_key(key) <==> exists|i: int|
            0 <= i < entries.len() && (#[trigger] entries[i]).0@ == key,
    decreases entries.len(),
{
    if entries.len() > 0 {
        let front = entries.drop_last();
        lemma_entries_map_keys(front, key);
        if entries_map(entries).contains_key(key) {
            if entries.last().0@ == key {
                assert(entries[entries.len() - 1].0@ == key);
            } else {
                let i = choose|i: int| 0 <= i < front.len() && (#[trigger] front[i]).0@ == key;
                assert(entries[i].0@ == key);
            }
        }
        if exists|i: int| 0 <= i < entries.len() && (#[trigger] entries[i]).0@ == key {
            let i = choose|i: int| 0 <= i < entries.len() && (#[trigger] entries[i]).0@ == key;
            if i < front.len() {
                assert(front[i].0@ == key);
            }
        }
    }
}

impl<V> View for StringMap<V> {
    type V = Map<Seq<char>, V>;

    open spec fn view(&self) -> Map<Seq<char>, V> {
        entries_map(self.entries@)
    }
}

impl<V> StringMap<V> {
    /// The map without entries.
    pub fn new() -> (r: Self)
        ensures
            r@ == Map::<Seq<char>, V>::empty(),
    {
        StringMap { entries: Vec::new() }
    }

    /// Sets the value for `key`.
    pub fn insert(&mut self, key: String, value: V)
        ensures
            final(self)@ == old(self)@.insert(key@, value),
    {
        self.entries.push((key, value));
        assert(self.entries@.drop_last() =~= old(self).entries@);
    }

    /// The position of the entry that counts for `key`, if there is one.
    pub fn position(&self, key: &String) -> (r: Option<usize>)
        ensures
            match r {
                Some(i) => {
                    &&& i < self.entries.len()
                    &&& self.entries[i as int].0@ == key@
                    &&& self@.contains_key(key@)
                    &&& self@[key@] == self.entries[i as int].1
                },
                None => !self@.contains_key(key@),
            },
    {
        let mut i: usize = self.entries.len();
        while i > 0
            invariant
                i <= self.entries.len(),
                forall|j: int| i <= j < self.entries.len() ==> (#[trigger] self.entries[j]).0@ != key@,
            decreases i,
        {
            i -= 1;
            if self.entries[i].0 == *key {
                proof {
                    lemma_entries_map_holds(self.entries@, i as int);
                }
                return Some(i);
            }
        }
        proof {
            lemma_entries_map_keys(self.entries@, key@);
        }
        None
    }

    /// The value for `key`, if there is one.
    pub fn get(&self, key: &String) -> (r: Option<&V>)
        ensures
            match r {
                Some(value) => self@.contains_key(key@) && self@[key@] == *value,
                None => !self@.contains_key(key@),
            },
    {
        match self.position(key) {
            Some(i) => Some(&self.entries[i].1),
            None => None,
        }
    }

    /// Whether there is a value for `key`.
    pub fn contains_key(&self, key: &String) -> (r: bool)
        ensures
            r == self@.contains_key(key@),
    {
        self.position(key).is_some()
    }
}

/// The members of the JSON object that a map of models encodes to.
pub open spec fn encoded_members<V: Wire>(m: Map<Seq<char>, V::Model>) -> Map<Seq<char>, Json> {
    Map::new(|key: Seq<char>| m.contains_key(key), |key: Seq<char>| V::encoded(m[key]))
}

/// The models of the values of a map.
pub open spec fn models_of<V: Wire>(m: Map<Seq<char>, V>) -> Map<Seq<char>, V::Model> {
    Map::new(|key: Seq<char>| m.contains_key(key), |key: Seq<char>| m[key].model())
}

/// A JSON object with free keys, each value a `V`.
///
/// Where several members are rejected, the report is for one of them.
impl<V: Wire> Wire for StringMap<V> {
    type Model = Map<Seq<char>, V::Model>;

    open spec fn name() -> Seq<char> {
        V::name()
    }

    open spec fn model(&self) -> Map<Seq<char>, V::Model> {
        models_of::<V>(self@)
    }

    open spec fn valid(m: Map<Seq<char>, V::Model>) -> bool {
        forall|key: Seq<char>| m.contains_key(key) ==> V::valid(#[trigger] m[key])
    }

    open spec fn encoded(m: Map<Seq<char>, V::Model>) -> Json {
        Json::Object(encoded_members::<V>(m))
    }

    open spec fn decoded(tree: Json) -> Option<Map<Seq<char>, V::Model>> {
        match tree {
            Json::Object(members) => if forall|key: Seq<char>|
                members.contains_key(key) ==> (#[trigger] V::decoded(members[key])) is Some {
                Some(
                    Map::new(
                        |key: Seq<char>| members.contains_key(key),
                        |key: Seq<char>| V::decoded(members[key])->0,
                    ),
                )
            } else {
                None
            },
            _ => None,
        }
    }

    open spec fn rejects(tree: Json, fault: FaultModel) -> bool {
        match tree {
            Json::Object(members) => {
                &&& fault.path.len() > 0
                &&& fault.path[0] is Field
                &&& members.contains_key(fault.path[0]->Field_0)
                &&& V::decoded(members[fault.path[0]->Field_0]) is None
                &&& V::rejects(members[fault.path[0]->Field_0], fault.below())
            },
            _ => fault == FaultModel::here(FaultKind::Mismatch),
        }
    }

    open spec fn if_absent() -> Option<Map<Seq<char>, V::Model>> {
        None
    }

    fn label() -> (r: String) {
        V::label()
    }

    fn to_value(&self) -> (v: Value) {
        let mut obj = empty_object();
        let mut i: usize = 0;
        assert(entries_map(self.entries@.take(0)) =~= Map::<Seq<char>, V>::empty());
        assert(json_of(obj)->Object_0 =~= encoded_members::<V>(
            models_of::<V>(entries_map(self.entries@.take(0))),
        ));
        while i < self.entries.len()
            invariant
                i <= self.entries.len(),
                json_of(obj) == Json::Object(
                    encoded_members::<V>(models_of::<V>(entries_map(self.entries@.take(i as int)))),
                ),
            decreases self.entries.len() - i,
        {
            let ghost before = entries_map(self.entries@.take(i as int));
            let key = self.entries[i].0.clone();
            let value = self.entries[i].1.to_value();
            object_insert(&mut obj, key, value);
            proof {
                let next = self.entries@.take(i + 1);
                assert(next.drop_last() =~= self.entries@.take(i as int));
                assert(next.last() == self.entries@[i as int]);
                assert(json_of(obj)->Object_0 =~= encoded_members::<V>(
                    models_of::<V>(entries_map(next)),
                ));
            }
            i += 1;
        }
        assert(self.entries@.take(i as int) =~= self.entries@);
        obj
    }

    fn from_value(v: &Value) -> (r: Result<Self, Fault>) {
        match value_members(v) {
            None => Err(Fault::here(FaultKind::Mismatch)),
            Some(pairs) => {
                let ghost members = json_of(*v)->Object_0;
                let mut entries: Vec<(String, V)> = Vec::new();
                let mut i: usize = 0;
                while i < pairs.len()
                    invariant
                        i <= pairs.len(),
                        entries.len() == i,
                        json_of(*v) == Json::Object(members),
                        forall|j: int|
                            0 <= j < pairs.len() ==> json_of(*v).member((#[trigger] pairs[j]).0@)
                                == Some(json_of(*pairs[j].1)),
                        forall|j: int|
                            0 <= j < i ==> (#[trigger] entries[j]).0@ == pairs[j].0@ && V::decoded(
                                json_of(*pairs[j].1),
                            ) == Some(entries[j].1.model()),
                    decreases pairs.len() - i,
                {
                    match V::from_value(pairs[i].1) {
                        Ok(x) => {
                            entries.push((pairs[i].0.clone(), x));
                        },
                        Err(fault) => {
                            let at = fault.under(PathStep::Field(pairs[i].0.clone()));
                            assert(json_of(*v).member(pairs[i as int].0@) == Some(
                                json_of(*pairs[i as int].1),
                            ));
                            assert(V::decoded(members[pairs[i as int].0@]) is None);
                            return Err(at);
                        },
                    }
                    i += 1;
                }
                let out = StringMap { entries };
                proof {
                    let wanted = Map::new(
                        |key: Seq<char>| members.contains_key(key),
                        |key: Seq<char>| V::decoded(members[key])->0,
                    );
                    assert forall|key: Seq<char>| #[trigger]
                        members.contains_key(key) implies V::decoded(members[key]) is Some
                        && out.model().contains_key(key) && out.model()[key] == V::decoded(
                        members[key],
                    )->0 by {
                        assert(json_of(*v).has(key));
                        let j = choose|j: int| 0 <= j < pairs.len() && (#[trigger] pairs[j]).0@ == key;
                        assert(json_of(*v).member(pairs[j].0@) == Some(json_of(*pairs[j].1)));
                        assert(entries[j].0@ == key);
                        assert forall|k: int| j < k < entries.len() implies (
                        #[trigger] entries@[k]).0@ != entries@[j].0@ by {
                            assert(entries[k].0@ == pairs[k].0@);
                        }
                        lemma_entries_map_holds(entries@, j);
                    }
                    assert forall|key: Seq<char>| out.model().contains_key(key) implies members.contains_key(
                        key,
                    ) by {
                        lemma_entries_map_keys(entries@, key);
                        let j = choose|j: int| 0 <= j < entries.len() && (#[trigger] entries@[j]).0@ == key;
                        assert(json_of(*v).member(pairs[j].0@) == Some(json_of(*pairs[j].1)));
                    }
                    assert(out.model() =~= wanted);
                }
                Ok(out)
            },
        }
    }

    fn absent() -> (r: Option<Self>) {
        None
    }

    proof fn lemma_round_trip(m: Map<Seq<char>, V::Model>) {
        let members = encoded_members::<V>(m);
        assert forall|key: Seq<char>| members.contains_key(key) implies (#[trigger] V::decoded(
            members[key],
        )) == Some(m[key]) by {
            V::lemma_round_trip(m[key]);
        }
        assert(Map::new(
            |key: Seq<char>| members.contains_key(key),
            |key: Seq<char>| V::decoded(members[key])->0,
        ) =~= m);
    }

    proof fn lemma_rejects_rejected(tree: Json, fault: FaultModel) {
    }
}

} // verus!
