//! Threads, and the check that holds their parts against each other.

use vstd::prelude::*;
use serde_json::Value;
use crate::fault::{Fault, FaultKind, FaultModel, PathStep, Step};
use crate::json::{empty_object, object_insert, Json};
use crate::keyed::StringMap;
use crate::models::post::{Post, PostModel};
use crate::wire::{field, field_rejects, read_field, Wire};

verus! {

/// A thread: the identifiers of its posts in order, and the posts by
/// identifier.
///
/// Every identifier in `order` has its post in `posts`. A wire form that
/// breaks this is rejected as inconsistent.
#[derive(Clone, Debug, PartialEq, Eq)]
pub struct Thread {
    pub order: Vec<String>,
    pub posts: StringMap<Post>,
    pub next_post_id: String,
    pub prev_post_id: String,
    pub has_next: bool,
}

/// What a [`Thread`] stands for.
pub struct ThreadModel {
    pub order: Seq<Seq<char>>,
    pub posts: Map<Seq<char>, PostModel>,
    pub next_post_id: Seq<char>,
    pub prev_post_id: Seq<char>,
    pub has_next: bool,
}

impl ThreadModel {
    /// Whether every identifier in `order` has its post.
    pub open spec fn consistent(self) -> bool {
        forall|i: int| 0 <= i < self.order.len() ==> self.posts.contains_key(#[trigger] self.order[i])
    }

    /// Whether `fault` points at the first identifier in `order` that has no
    /// post.
    pub open spec fn misses(self, fault: FaultModel) -> bool {
        &&& fault.kind == FaultKind::Inconsistent
        &&& fault.path.len() == 2
        &&& fault.path[0] == Step::Field("order"@)
        &&& fault.path[1] is Index
        &&& 0 <= fault.path[1]->Index_0 < self.order.len()
        &&& !self.posts.contains_key(self.order[fault.path[1]->Index_0])
        &&& forall|j: int|
            0 <= j < fault.path[1]->Index_0 ==> self.posts.contains_key(#[trigger] self.order[j])
    }

    /// The parts of a thread as a JSON tree gives them, before they are held
    /// against each other.
    pub open spec fn parts(tree: Json) -> Option<ThreadModel> {
        let order = field::<Vec<String>>(tree, "order"@);
        let posts = field::<StringMap<Post>>(tree, "posts"@);
        let next_post_id = field::<String>(tree, "next_post_id"@);
        let prev_post_id = field::<String>(tree, "prev_post_id"@);
        let has_next = field::<bool>(tree, "has_next"@);
        if order is Some
            && posts is Some
            && next_post_id is Some
            && prev_post_id is Some
            && has_next is Some {
            Some(
                ThreadModel {
                    order: order->0,
                    posts: posts->0,
                    next_post_id: next_post_id->0,
                    prev_post_id: prev_post_id->0,
                    has_next: has_next->0,
                },
            )
        } else {
            None
        }
    }

    /// Whether `fault` reports why the parts of a thread cannot be read.
    pub open spec fn parts_reject(tree: Json, fault: FaultModel) -> bool {
        if field::<Vec<String>>(tree, "order"@) is None {
            field_rejects::<Vec<String>>(tree, "order"@, fault)
        } else if field::<StringMap<Post>>(tree, "posts"@) is None {
            field_rejects::<StringMap<Post>>(tree, "posts"@, fault)
        } else if field::<String>(tree, "next_post_id"@) is None {
            field_rejects::<String>(tree, "next_post_id"@, fault)
        } else if field::<String>(tree, "prev_post_id"@) is None {
            field_rejects::<String>(tree, "prev_post_id"@, fault)
        } else if field::<bool>(tree, "has_next"@) is None {
            field_rejects::<bool>(tree, "has_next"@, fault)
        } else {
            false
        }
    }
}

impl Thread {
    /// The position of the first identifier in `order` that has no post, or
    /// `None` where every identifier has one.
    pub fn missing_post(&self) -> (r: Option<usize>)
        ensures
            match r {
                Some(i) => {
                    &&& i < self.order.len()
                    &&& !self.model().posts.contains_key(self.model().order[i as int])
                    &&& forall|j: int|
                        0 <= j < i ==> self.model().posts.contains_key(
                            #[trigger] self.model().order[j],
                        )
                },
                None => self.model().consistent(),
            },
    {
        let mut i: usize = 0;
        while i < self.order.len()
            invariant
                i <= self.order.len(),
                forall|j: int|
                    0 <= j < i ==> self.model().posts.contains_key(#[trigger] self.model().order[j]),
            decreases self.order.len() - i,
        {
            if !self.posts.contains_key(&self.order[i]) {
                return Some(i);
            }
            i += 1;
        }
        None
    }

    /// Whether every identifier in `order` has its post.
    pub fn is_consistent(&self) -> (r: bool)
        ensures
            r == self.model().consistent(),
    {
        self.missing_post().is_none()
    }
}

impl Wire for Thread {
    type Model = ThreadModel;

    open spec fn name() -> Seq<char> {
        "Thread"@
    }

    open spec fn model(&self) -> ThreadModel {
        ThreadModel {
            order: self.order.model(),
            posts: self.posts.model(),
            next_post_id: self.next_post_id.model(),
            prev_post_id: self.prev_post_id.model(),
            has_next: self.has_next.model(),
        }
    }

    open spec fn valid(m: ThreadModel) -> bool {
        &&& StringMap::<Post>::valid(m.posts)
        &&& m.consistent()
    }

    open spec fn encoded(m: ThreadModel) -> Json {
        Json::empty_object()
            .with("order"@, Vec::<String>::encoded(m.order))
            .with("posts"@, StringMap::<Post>::encoded(m.posts))
            .with("next_post_id"@, String::encoded(m.next_post_id))
            .with("prev_post_id"@, String::encoded(m.prev_post_id))
            .with("has_next"@, bool::encoded(m.has_next))
    }

    open spec fn decoded(tree: Json) -> Option<ThreadModel> {
        match ThreadModel::parts(tree) {
            Some(m) => if m.consistent() {
                Some(m)
            } else {
                None
            },
            None => None,
        }
    }

    open spec fn rejects(tree: Json, fault: FaultModel) -> bool {
        match ThreadModel::parts(tree) {
            Some(m) => m.misses(fault),
            None => ThreadModel::parts_reject(tree, fault),
        }
    }

    open spec fn if_absent() -> Option<ThreadModel> {
        None
    }

    fn label() -> (r: String) {
        "Thread".to_owned()
    }

    fn to_value(&self) -> (v: Value) {
        let mut obj = empty_object();
        object_insert(&mut obj, "order".to_owned(), self.order.to_value());
        object_insert(&mut obj, "posts".to_owned(), self.posts.to_value());
        object_insert(&mut obj, "next_post_id".to_owned(), self.next_post_id.to_value());
        object_insert(&mut obj, "prev_post_id".to_owned(), self.prev_post_id.to_value());
        object_insert(&mut obj, "has_next".to_owned(), self.has_next.to_value());
        obj
    }

    fn from_value(v: &Value) -> (r: Result<Self, Fault>) {
        let order = read_field::<Vec<String>>(v, "order")?;
        let posts = read_field::<StringMap<Post>>(v, "posts")?;
        let next_post_id = read_field::<String>(v, "next_post_id")?;
        let prev_post_id = read_field::<String>(v, "prev_post_id")?;
        let has_next = read_field::<bool>(v, "has_next")?;
        let thread = Thread { order, posts, next_post_id, prev_post_id, has_next };
        match thread.missing_post() {
            Some(i) => Err(
                Fault::here(FaultKind::Inconsistent).under(PathStep::Index(i)).under(
                    PathStep::Field("order".to_owned()),
                ),
            ),
            None => Ok(thread),
        }
    }

    fn absent() -> (r: Option<Self>) {
        None
    }

    proof fn lemma_round_trip(m: ThreadModel) {
        lemma_parts_round_trip(m);
    }

    proof fn lemma_rejects_rejected(tree: Json, fault: FaultModel) {
    }
}

/// Reading the parts of an encoded thread gives them back, whether or not
/// they are consistent.
pub proof fn lemma_parts_round_trip(m: ThreadModel)
    requires
        StringMap::<Post>::valid(m.posts),
    ensures
        ThreadModel::parts(Thread::encoded(m)) == Some(m),
{
    reveal_strlit("order");
    reveal_strlit("posts");
    reveal_strlit("next_post_id");
    reveal_strlit("prev_post_id");
    reveal_strlit("has_next");
    assert("has_next"@.len() == 8);
    assert("order"@.len() == 5 && "order"@[0] == 'o');
    assert("posts"@.len() == 5 && "posts"@[0] == 'p');
    assert("next_post_id"@.len() == 12 && "next_post_id"@[0] == 'n');
    assert("prev_post_id"@.len() == 12 && "prev_post_id"@[0] == 'p');
    Vec::<String>::lemma_round_trip(m.order);
    StringMap::<Post>::lemma_round_trip(m.posts);
}

} // verus!
