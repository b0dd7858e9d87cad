//! What holds of the mapping as a whole.

use vstd::prelude::*;
use crate::fault::FaultModel;
use crate::json::Json;
use crate::keyed::StringMap;
use crate::models::post::{CreatePost, CreatePostModel, Post};
use crate::models::thread::{lemma_parts_round_trip, Thread, ThreadModel};
use crate::socket::channel::{ChannelType, ChannelTypeModel};
use crate::socket::event::{WebsocketEventType, WebsocketEventTypeModel};
use crate::socket::kind::EventKind;
use crate::wire::Wire;

verus! {

/// Decoding what a valid model encodes to gives the model back, for every
/// type that has a JSON form.
pub proof fn round_trip<T: Wire>(m: T::Model)
    requires
        T::valid(m),
    ensures
        T::decoded(T::encoded(m)) == Some(m),
{
    T::lemma_round_trip(m);
}

/// A report of a fault is given only for a tree that is rejected, for every
/// type that has a JSON form.
pub proof fn reports_are_for_rejected<T: Wire>(tree: Json, fault: FaultModel)
    requires
        T::rejects(tree, fault),
    ensures
        T::decoded(tree) is None,
{
    T::lemma_rejects_rejected(tree, fault);
}

/// Every string is the token of a channel type, and encoding the channel
/// type it decodes to gives the same string. A string other than `"O"`,
/// `"D"` and `"P"` decodes to `Other` with that string.
pub proof fn channel_type_keeps_token(token: Seq<char>)
    ensures
        ChannelType::decoded(Json::Str(token)) is Some,
        ChannelType::encoded(ChannelType::decoded(Json::Str(token))->0) == Json::Str(token),
        ChannelType::valid(ChannelType::decoded(Json::Str(token))->0),
        token != "O"@ && token != "D"@ && token != "P"@ ==> ChannelType::decoded(Json::Str(token))
            == Some(ChannelTypeModel::Other(token)),
{
}

/// An encoded thread decodes exactly where every identifier in its `order`
/// has a post in its `posts`.
pub proof fn thread_decodes_iff_consistent(m: ThreadModel)
    requires
        StringMap::<Post>::valid(m.posts),
    ensures
        Thread::decoded(Thread::encoded(m)) is Some <==> m.consistent(),
        m.consistent() ==> Thread::decoded(Thread::encoded(m)) == Some(m),
{
    lemma_parts_round_trip(m);
}

/// Whatever decodes as a thread has a post for every identifier in its
/// `order`.
pub proof fn decoded_thread_is_consistent(tree: Json)
    ensures
        Thread::decoded(tree) matches Some(m) ==> m.consistent(),
{
}

/// An object whose `event` is a name that this crate does not know decodes
/// to `Unknown`, with the name and the payload as they came.
pub proof fn unknown_event_is_kept(tree: Json, event: Seq<char>, data: Json)
    requires
        tree.member("event"@) == Some(Json::Str(event)),
        tree.member("data"@) == Some(data),
        EventKind::of_token(event) is None,
    ensures
        WebsocketEventType::decoded(tree) == Some(WebsocketEventTypeModel::Unknown { event, data }),
{
}

/// A request to create a post encodes to an object that has every member,
/// and a member that is not set is JSON null.
pub proof fn create_post_sends_null_for_unset(m: CreatePostModel)
    ensures
        CreatePost::encoded(m).has("channel_id"@),
        CreatePost::encoded(m).has("message"@),
        CreatePost::encoded(m).has("root_id"@),
        CreatePost::encoded(m).has("props"@),
        CreatePost::encoded(m).has("hashtag"@),
        CreatePost::encoded(m).has("file_ids"@),
        CreatePost::encoded(m).has("metadata"@),
        m.root_id is None ==> CreatePost::encoded(m).member("root_id"@) == Some(Json::Null),
        m.props is None ==> CreatePost::encoded(m).member("props"@) == Some(Json::Null),
        m.hashtag is None ==> CreatePost::encoded(m).member("hashtag"@) == Some(Json::Null),
        m.file_ids is None ==> CreatePost::encoded(m).member("file_ids"@) == Some(Json::Null),
        m.metadata is None ==> CreatePost::encoded(m).member("metadata"@) == Some(Json::Null),
{
    reveal_strlit("channel_id");
    reveal_strlit("message");
    reveal_strlit("root_id");
    reveal_strlit("props");
    reveal_strlit("hashtag");
    reveal_strlit("file_ids");
    reveal_strlit("metadata");
    assert("channel_id"@.len() == 10);
    assert("props"@.len() == 5);
    assert("message"@.len() == 7 && "message"@[0] == 'm');
    assert("root_id"@.len() == 7 && "root_id"@[0] == 'r');
    assert("hashtag"@.len() == 7 && "hashtag"@[0] == 'h');
    assert("file_ids"@.len() == 8 && "file_ids"@[0] == 'f');
    assert("metadata"@.len() == 8 && "metadata"@[0] == 'm');
}

} // verus!
