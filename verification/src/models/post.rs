//! Posts and what belongs to them.

use vstd::prelude::*;
use serde_json::Value;
use crate::fault::{Fault, FaultKind, FaultModel};
use crate::json::{empty_object, object_insert, string_value, value_str, Json};
use crate::wire::{field, field_rejects, read_field, same_text, Wire};

verus! {

/// Content embedded in a post, such as a link preview.
#[derive(Clone, Debug, PartialEq, Eq)]
pub struct Embed {
    pub embed_type: String,
    pub url: Option<String>,
    pub data: Option<Value>,
}

/// What a [`Embed`] stands for.
pub struct EmbedModel {
    pub embed_type: Seq<char>,
    pub url: Option<Seq<char>>,
    pub data: Option<Json>,
}

impl Wire for Embed {
    type Model = EmbedModel;

    open spec fn name() -> Seq<char> {
        "Embed"@
    }

    open spec fn model(&self) -> EmbedModel {
        EmbedModel {
            embed_type: self.embed_type.model(),
            url: self.url.model(),
            data: self.data.model(),
        }
    }

    open spec fn valid(m: EmbedModel) -> bool {
        Option::<Value>::valid(m.data)
    }

    open spec fn encoded(m: EmbedModel) -> Json {
        Json::empty_object()
            .with("type"@, String::encoded(m.embed_type))
            .with("url"@, Option::<String>::encoded(m.url))
            .with("data"@, Option::<Value>::encoded(m.data))
    }

    open spec fn decoded(tree: Json) -> Option<EmbedModel> {
        let embed_type = field::<String>(tree, "type"@);
        let url = field::<Option<String>>(tree, "url"@);
        let data = field::<Option<Value>>(tree, "data"@);
        if embed_type is Some
            && url is Some
            && data is Some {
            Some(EmbedModel { embed_type: embed_type->0, url: url->0, data: data->0 })
        } else {
            None
        }
    }

    open spec fn rejects(tree: Json, fault: FaultModel) -> bool {
        if field::<String>(tree, "type"@) is None {
            field_rejects::<String>(tree, "type"@, fault)
        } else if field::<Option<String>>(tree, "url"@) is None {
            field_rejects::<Option<String>>(tree, "url"@, fault)
        } else if field::<Option<Value>>(tree, "data"@) is None {
            field_rejects::<Option<Value>>(tree, "data"@, fault)
        } else {
            false
        }
    }

    open spec fn if_absent() -> Option<EmbedModel> {
        None
    }

    fn label() -> (r: String) {
        "Embed".to_owned()
    }

    fn to_value(&self) -> (v: Value) {
        let mut obj = empty_object();
        object_insert(&mut obj, "type".to_owned(), self.embed_type.to_value());
        object_insert(&mut obj, "url".to_owned(), self.url.to_value());
        object_insert(&mut obj, "data".to_owned(), self.data.to_value());
        obj
    }

    fn from_value(v: &Value) -> (r: Result<Self, Fault>) {
        let embed_type = read_field::<String>(v, "type")?;
        let url = read_field::<Option<String>>(v, "url")?;
        let data = read_field::<Option<Value>>(v, "data")?;
        Ok(Embed { embed_type, url, data })
    }

    fn absent() -> (r: Option<Self>) {
        None
    }

    proof fn lemma_round_trip(m: EmbedModel) {
        reveal_strlit("type");
        reveal_strlit("url");
        reveal_strlit("data");
        assert("url"@.len() == 3);
        assert("type"@.len() == 4 && "type"@[0] == 't');
        assert("data"@.len() == 4 && "data"@[0] == 'd');
        Option::<String>::lemma_round_trip(m.url);
        Option::<Value>::lemma_round_trip(m.data);
    }

    proof fn lemma_rejects_rejected(tree: Json, fault: FaultModel) {
    }
}

/// A custom emoji.
#[derive(Clone, Debug, PartialEq, Eq)]
pub struct Emoji {
    pub id: String,
    pub creator_id: String,
    pub name: String,
    pub create_at: usize,
    pub update_at: usize,
    pub delete_at: usize,
}

/// What a [`Emoji`] stands for.
pub struct EmojiModel {
    pub id: Seq<char>,
    pub creator_id: Seq<char>,
    pub name: Seq<char>,
    pub create_at: usize,
    pub update_at: usize,
    pub delete_at: usize,
}

impl Wire for Emoji {
    type Model = EmojiModel;

    open spec fn name() -> Seq<char> {
        "Emoji"@
    }

    open spec fn model(&self) -> EmojiModel {
        EmojiModel {
            id: self.id.model(),
            creator_id: self.creator_id.model(),
            name: self.name.model(),
            create_at: self.create_at.model(),
            update_at: self.update_at.model(),
            delete_at: self.delete_at.model(),
        }
    }

    open spec fn valid(m: EmojiModel) -> bool {
        true
    }

    open spec fn encoded(m: EmojiModel) -> Json {
        Json::empty_object()
            .with("id"@, String::encoded(m.id))
            .with("creator_id"@, String::encoded(m.creator_id))
            .with("name"@, String::encoded(m.name))
            .with("create_at"@, usize::encoded(m.create_at))
            .with("update_at"@, usize::encoded(m.update_at))
            .with("delete_at"@, usize::encoded(m.delete_at))
    }

    open spec fn decoded(tree: Json) -> Option<EmojiModel> {
        let id = field::<String>(tree, "id"@);
        let creator_id = field::<String>(tree, "creator_id"@);
        let name = field::<String>(tree, "name"@);
        let create_at = field::<usize>(tree, "create_at"@);
        let update_at = field::<usize>(tree, "update_at"@);
        let delete_at = field::<usize>(tree, "delete_at"@);
        if id is Some
            && creator_id is Some
            && name is Some
            && create_at is Some
            && update_at is Some
            && delete_at is Some {
            Some(
                EmojiModel {
                    id: id->0,
                    creator_id: creator_id->0,
                    name: name->0,
                    create_at: create_at->0,
                    update_at: update_at->0,
                    delete_at: delete_at->0,
                },
            )
        } else {
            None
        }
    }

    open spec fn rejects(tree: Json, fault: FaultModel) -> bool {
        if field::<String>(tree, "id"@) is None {
            field_rejects::<String>(tree, "id"@, fault)
        } else if field::<String>(tree, "creator_id"@) is None {
            field_rejects::<String>(tree, "creator_id"@, fault)
        } else if field::<String>(tree, "name"@) is None {
            field_rejects::<String>(tree, "name"@, fault)
        } else if field::<usize>(tree, "create_at"@) is None {
            field_rejects::<usize>(tree, "create_at"@, fault)
        } else if field::<usize>(tree, "update_at"@) is None {
            field_rejects::<usize>(tree, "update_at"@, fault)
        } else if field::<usize>(tree, "delete_at"@) is None {
            field_rejects::<usize>(tree, "delete_at"@, fault)
        } else {
            false
        }
    }

    open spec fn if_absent() -> Option<EmojiModel> {
        None
    }

    fn label() -> (r: String) {
        "Emoji".to_owned()
    }

    fn to_value(&self) -> (v: Value) {
        let mut obj = empty_object();
        object_insert(&mut obj, "id".to_owned(), self.id.to_value());
        object_insert(&mut obj, "creator_id".to_owned(), self.creator_id.to_value());
        object_insert(&mut obj, "name".to_owned(), self.name.to_value());
        object_insert(&mut obj, "create_at".to_owned(), self.create_at.to_value());
        object_insert(&mut obj, "update_at".to_owned(), self.update_at.to_value());
        object_insert(&mut obj, "delete_at".to_owned(), self.delete_at.to_value());
        obj
    }

    fn from_value(v: &Value) -> (r: Result<Self, Fault>) {
        let id = read_field::<String>(v, "id")?;
        let creator_id = read_field::<String>(v, "creator_id")?;
        let name = read_field::<String>(v, "name")?;
        let create_at = read_field::<usize>(v, "create_at")?;
        let update_at = read_field::<usize>(v, "update_at")?;
        let delete_at = read_field::<usize>(v, "delete_at")?;
        Ok(Emoji { id, creator_id, name, create_at, update_at, delete_at })
    }

    fn absent() -> (r: Option<Self>) {
        None
    }

    proof fn lemma_round_trip(m: EmojiModel) {
        reveal_strlit("id");
        reveal_strlit("creator_id");
        reveal_strlit("name");
        reveal_strlit("create_at");
        reveal_strlit("update_at");
        reveal_strlit("delete_at");
        assert("id"@.len() == 2);
        assert("creator_id"@.len() == 10);
        assert("name"@.len() == 4);
        assert("create_at"@.len() == 9 && "create_at"@[0] == 'c');
        assert("update_at"@.len() == 9 && "update_at"@[0] == 'u');
        assert("delete_at"@.len() == 9 && "delete_at"@[0] == 'd');
    }

    proof fn lemma_rejects_rejected(tree: Json, fault: FaultModel) {
    }
}

/// A file attached to a post.
#[derive(Clone, Debug, PartialEq, Eq)]
pub struct FileMetadata {
    pub id: String,
    pub user_id: String,
    pub post_id: String,
    pub create_at: usize,
    pub update_at: usize,
    pub delete_at: usize,
    pub name: String,
    pub extension: String,
    pub size: usize,
    pub mime_type: String,
    pub width: usize,
    pub height: usize,
    pub has_preview_image: bool,
}

/// What a [`FileMetadata`] stands for.
pub struct FileMetadataModel {
    pub id: Seq<char>,
    pub user_id: Seq<char>,
    pub post_id: Seq<char>,
    pub create_at: usize,
    pub update_at: usize,
    pub delete_at: usize,
    pub name: Seq<char>,
    pub extension: Seq<char>,
    pub size: usize,
    pub mime_type: Seq<char>,
    pub width: usize,
    pub height: usize,
    pub has_preview_image: bool,
}

impl Wire for FileMetadata {
    type Model = FileMetadataModel;

    open spec fn name() -> Seq<char> {
        "FileMetadata"@
    }

    open spec fn model(&self) -> FileMetadataModel {
        FileMetadataModel {
            id: self.id.model(),
            user_id: self.user_id.model(),
            post_id: self.post_id.model(),
            create_at: self.create_at.model(),
            update_at: self.update_at.model(),
            delete_at: self.delete_at.model(),
            name: self.name.model(),
            extension: self.extension.model(),
            size: self.size.model(),
            mime_type: self.mime_type.model(),
            width: self.width.model(),
            height: self.height.model(),
            has_preview_image: self.has_preview_image.model(),
        }
    }

    open spec fn valid(m: FileMetadataModel) -> bool {
        true
    }

    open spec fn encoded(m: FileMetadataModel) -> Json {
        Json::empty_object()
            .with("id"@, String::encoded(m.id))
            .with("user_id"@, String::encoded(m.user_id))
            .with("post_id"@, String::encoded(m.post_id))
            .with("create_at"@, usize::encoded(m.create_at))
            .with("update_at"@, usize::encoded(m.update_at))
            .with("delete_at"@, usize::encoded(m.delete_at))
            .with("name"@, String::encoded(m.name))
            .with("extension"@, String::encoded(m.extension))
            .with("size"@, usize::encoded(m.size))
            .with("mime_type"@, String::encoded(m.mime_type))
            .with("width"@, usize::encoded(m.width))
            .with("height"@, usize::encoded(m.height))
            .with("has_preview_image"@, bool::encoded(m.has_preview_image))
    }

    open spec fn decoded(tree: Json) -> Option<FileMetadataModel> {
        let id = field::<String>(tree, "id"@);
        let user_id = field::<String>(tree, "user_id"@);
        let post_id = field::<String>(tree, "post_id"@);
        let create_at = field::<usize>(tree, "create_at"@);
        let update_at = field::<usize>(tree, "update_at"@);
        let delete_at = field::<usize>(tree, "delete_at"@);
        let name = field::<String>(tree, "name"@);
        let extension = field::<String>(tree, "extension"@);
        let size = field::<usize>(tree, "size"@);
        let mime_type = field::<String>(tree, "mime_type"@);
        let width = field::<usize>(tree, "width"@);
        let height = field::<usize>(tree, "height"@);
        let has_preview_image = field::<bool>(tree, "has_preview_image"@);
        if id is Some
            && user_id is Some
            && post_id is Some
            && create_at is Some
            && update_at is Some
            && delete_at is Some
            && name is Some
            && extension is Some
            && size is Some
            && mime_type is Some
            && width is Some
            && height is Some
            && has_preview_image is Some {
            Some(
                FileMetadataModel {
                    id: id->0,
                    user_id: user_id->0,
                    post_id: post_id->0,
                    create_at: create_at->0,
                    update_at: update_at->0,
                    delete_at: delete_at->0,
                    name: name->0,
                    extension: extension->0,
                    size: size->0,
                    mime_type: mime_type->0,
                    width: width->0,
                    height: height->0,
                    has_preview_image: has_preview_image->0,
                },
            )
        } else {
            None
        }
    }

    open spec fn rejects(tree: Json, fault: FaultModel) -> bool {
        if field::<String>(tree, "id"@) is None {
            field_rejects::<String>(tree, "id"@, fault)
        } else if field::<String>(tree, "user_id"@) is None {
            field_rejects::<String>(tree, "user_id"@, fault)
        } else if field::<String>(tree, "post_id"@) is None {
            field_rejects::<String>(tree, "post_id"@, fault)
        } else if field::<usize>(tree, "create_at"@) is None {
            field_rejects::<usize>(tree, "create_at"@, fault)
        } else if field::<usize>(tree, "update_at"@) is None {
            field_rejects::<usize>(tree, "update_at"@, fault)
        } else if field::<usize>(tree, "delete_at"@) is None {
            field_rejects::<usize>(tree, "delete_at"@, fault)
        } else if field::<String>(tree, "name"@) is None {
            field_rejects::<String>(tree, "name"@, fault)
        } else if field::<String>(tree, "extension"@) is None {
            field_rejects::<String>(tree, "extension"@, fault)
        } else if field::<usize>(tree, "size"@) is None {
            field_rejects::<usize>(tree, "size"@, fault)
        } else if field::<String>(tree, "mime_type"@) is None {
            field_rejects::<String>(tree, "mime_type"@, fault)
        } else if field::<usize>(tree, "width"@) is None {
            field_rejects::<usize>(tree, "width"@, fault)
        } else if field::<usize>(tree, "height"@) is None {
            field_rejects::<usize>(tree, "height"@, fault)
        } else if field::<bool>(tree, "has_preview_image"@) is None {
            field_rejects::<bool>(tree, "has_preview_image"@, fault)
        } else {
            false
        }
    }

    open spec fn if_absent() -> Option<FileMetadataModel> {
        None
    }

    fn label() -> (r: String) {
        "FileMetadata".to_owned()
    }

    fn to_value(&self) -> (v: Value) {
        let mut obj = empty_object();
        object_insert(&mut obj, "id".to_owned(), self.id.to_value());
        object_insert(&mut obj, "user_id".to_owned(), self.user_id.to_value());
        object_insert(&mut obj, "post_id".to_owned(), self.post_id.to_value());
        object_insert(&mut obj, "create_at".to_owned(), self.create_at.to_value());
        object_insert(&mut obj, "update_at".to_owned(), self.update_at.to_value());
        object_insert(&mut obj, "delete_at".to_owned(), self.delete_at.to_value());
        object_insert(&mut obj, "name".to_owned(), self.name.to_value());
        object_insert(&mut obj, "extension".to_owned(), self.extension.to_value());
        object_insert(&mut obj, "size".to_owned(), self.size.to_value());
        object_insert(&mut obj, "mime_type".to_owned(), self.mime_type.to_value());
        object_insert(&mut obj, "width".to_owned(), self.width.to_value());
        object_insert(&mut obj, "height".to_owned(), self.height.to_value());
        object_insert(&mut obj, "has_preview_image".to_owned(), self.has_preview_image.to_value());
        obj
    }

    fn from_value(v: &Value) -> (r: Result<Self, Fault>) {
        let id = read_field::<String>(v, "id")?;
        let user_id = read_field::<String>(v, "user_id")?;
        let post_id = read_field::<String>(v, "post_id")?;
        let create_at = read_field::<usize>(v, "create_at")?;
        let update_at = read_field::<usize>(v, "update_at")?;
        let delete_at = read_field::<usize>(v, "delete_at")?;
        let name = read_field::<String>(v, "name")?;
        let extension = read_field::<String>(v, "extension")?;
        let size = read_field::<usize>(v, "size")?;
        let mime_type = read_field::<String>(v, "mime_type")?;
        let width = read_field::<usize>(v, "width")?;
        let height = read_field::<usize>(v, "height")?;
        let has_preview_image = read_field::<bool>(v, "has_preview_image")?;
        Ok(
            FileMetadata {
                id,
                user_id,
                post_id,
                create_at,
                update_at,
                delete_at,
                name,
                extension,
                size,
                mime_type,
                width,
                height,
                has_preview_image,
            },
        )
    }

    fn absent() -> (r: Option<Self>) {
        None
    }

    proof fn lemma_round_trip(m: FileMetadataModel) {
        reveal_strlit("id");
        reveal_strlit("user_id");
        reveal_strlit("post_id");
        reveal_strlit("create_at");
        reveal_strlit("update_at");
        reveal_strlit("delete_at");
        reveal_strlit("name");
        reveal_strlit("extension");
        reveal_strlit("size");
        reveal_strlit("mime_type");
        reveal_strlit("width");
        reveal_strlit("height");
        reveal_strlit("has_preview_image");
        assert("id"@.len() == 2);
        assert("width"@.len() == 5);
        assert("height"@.len() == 6);
        assert("has_preview_image"@.len() == 17);
        assert("name"@.len() == 4 && "name"@[0] == 'n');
        assert("size"@.len() == 4 && "size"@[0] == 's');
        assert("user_id"@.len() == 7 && "user_id"@[0] == 'u');
        assert("post_id"@.len() == 7 && "post_id"@[0] == 'p');
        assert("create_at"@.len() == 9 && "create_at"@[0] == 'c');
        assert("update_at"@.len() == 9 && "update_at"@[0] == 'u');
        assert("delete_at"@.len() == 9 && "delete_at"@[0] == 'd');
        assert("extension"@.len() == 9 && "extension"@[0] == 'e');
        assert("mime_type"@.len() == 9 && "mime_type"@[0] == 'm');
        let tree = Self::encoded(m);
        assert(tree.member("id"@) == Some(String::encoded(m.id)));
        assert(tree.member("user_id"@) == Some(String::encoded(m.user_id)));
        assert(tree.member("post_id"@) == Some(String::encoded(m.post_id)));
        assert(tree.member("create_at"@) == Some(usize::encoded(m.create_at)));
        assert(tree.member("update_at"@) == Some(usize::encoded(m.update_at)));
        assert(tree.member("delete_at"@) == Some(usize::encoded(m.delete_at)));
        assert(tree.member("name"@) == Some(String::encoded(m.name)));
        assert(tree.member("extension"@) == Some(String::encoded(m.extension)));
        assert(tree.member("size"@) == Some(usize::encoded(m.size)));
        assert(tree.member("mime_type"@) == Some(String::encoded(m.mime_type)));
        assert(tree.member("width"@) == Some(usize::encoded(m.width)));
        assert(tree.member("height"@) == Some(usize::encoded(m.height)));
        assert(tree.member("has_preview_image"@) == Some(bool::encoded(m.has_preview_image)));
    }

    proof fn lemma_rejects_rejected(tree: Json, fault: FaultModel) {
    }
}

/// The reaction of a user to a post.
#[derive(Clone, Debug, PartialEq, Eq)]
pub struct Reaction {
    pub user_id: String,
    pub post_id: String,
    pub emoji_name: String,
    pub create_at: usize,
}

/// What a [`Reaction`] stands for.
pub struct ReactionModel {
    pub user_id: Seq<char>,
    pub post_id: Seq<char>,
    pub emoji_name: Seq<char>,
    pub create_at: usize,
}

impl Wire for Reaction {
    type Model = ReactionModel;

    open spec fn name() -> Seq<char> {
        "Reaction"@
    }

    open spec fn model(&self) -> ReactionModel {
        ReactionModel {
            user_id: self.user_id.model(),
            post_id: self.post_id.model(),
            emoji_name: self.emoji_name.model(),
            create_at: self.create_at.model(),
        }
    }

    open spec fn valid(m: ReactionModel) -> bool {
        true
    }

    open spec fn encoded(m: ReactionModel) -> Json {
        Json::empty_object()
            .with("user_id"@, String::encoded(m.user_id))
            .with("post_id"@, String::encoded(m.post_id))
            .with("emoji_name"@, String::encoded(m.emoji_name))
            .with("create_at"@, usize::encoded(m.create_at))
    }

    open spec fn decoded(tree: Json) -> Option<ReactionModel> {
        let user_id = field::<String>(tree, "user_id"@);
        let post_id = field::<String>(tree, "post_id"@);
        let emoji_name = field::<String>(tree, "emoji_name"@);
        let create_at = field::<usize>(tree, "create_at"@);
        if user_id is Some
            && post_id is Some
            && emoji_name is Some
            && create_at is Some {
            Some(
                ReactionModel {
                    user_id: user_id->0,
                    post_id: post_id->0,
                    emoji_name: emoji_name->0,
                    create_at: create_at->0,
                },
            )
        } else {
            None
        }
    }

    open spec fn rejects(tree: Json, fault: FaultModel) -> bool {
        if field::<String>(tree, "user_id"@) is None {
            field_rejects::<String>(tree, "user_id"@, fault)
        } else if field::<String>(tree, "post_id"@) is None {
            field_rejects::<String>(tree, "post_id"@, fault)
        } else if field::<String>(tree, "emoji_name"@) is None {
            field_rejects::<String>(tree, "emoji_name"@, fault)
        } else if field::<usize>(tree, "create_at"@) is None {
            field_rejects::<usize>(tree, "create_at"@, fault)
        } else {
            false
        }
    }

    open spec fn if_absent() -> Option<ReactionModel> {
        None
    }

    fn label() -> (r: String) {
        "Reaction".to_owned()
    }

    fn to_value(&self) -> (v: Value) {
        let mut obj = empty_object();
        object_insert(&mut obj, "user_id".to_owned(), self.user_id.to_value());
        object_insert(&mut obj, "post_id".to_owned(), self.post_id.to_value());
        object_insert(&mut obj, "emoji_name".to_owned(), self.emoji_name.to_value());
        object_insert(&mut obj, "create_at".to_owned(), self.create_at.to_value());
        obj
    }

    fn from_value(v: &Value) -> (r: Result<Self, Fault>) {
        let user_id = read_field::<String>(v, "user_id")?;
        let post_id = read_field::<String>(v, "post_id")?;
        let emoji_name = read_field::<String>(v, "emoji_name")?;
        let create_at = read_field::<usize>(v, "create_at")?;
        Ok(Reaction { user_id, post_id, emoji_name, create_at })
    }

    fn absent() -> (r: Option<Self>) {
        None
    }

    proof fn lemma_round_trip(m: ReactionModel) {
        reveal_strlit("user_id");
        reveal_strlit("post_id");
        reveal_strlit("emoji_name");
        reveal_strlit("create_at");
        assert("emoji_name"@.len() == 10);
        assert("create_at"@.len() == 9);
        assert("user_id"@.len() == 7 && "user_id"@[0] == 'u');
        assert("post_id"@.len() == 7 && "post_id"@[0] == 'p');
    }

    proof fn lemma_rejects_rejected(tree: Json, fault: FaultModel) {
    }
}

/// How urgent a post is.
///
/// On the wire a level is a plain string, and the empty string stands for
/// `Standard`.
#[derive(Clone, Copy, Debug, PartialEq, Eq, Structural)]
pub enum PriorityLevel {
    /// No priority was set.
    Standard,
    Urgent,
    Important,
}

impl PriorityLevel {
    /// The token that stands for this value on the wire.
    pub open spec fn token(self) -> Seq<char> {
        match self {
            PriorityLevel::Standard => ""@,
            PriorityLevel::Urgent => "urgent"@,
            PriorityLevel::Important => "important"@,
        }
    }

    /// The value that a token stands for, if it is one of the tokens.
    pub open spec fn of_token(token: Seq<char>) -> Option<PriorityLevel> {
        if token == ""@ {
            Some(PriorityLevel::Standard)
        } else if token == "urgent"@ {
            Some(PriorityLevel::Urgent)
        } else if token == "important"@ {
            Some(PriorityLevel::Important)
        } else {
            None
        }
    }
}

impl Wire for PriorityLevel {
    type Model = PriorityLevel;

    open spec fn name() -> Seq<char> {
        "PriorityLevel"@
    }

    open spec fn model(&self) -> PriorityLevel {
        *self
    }

    open spec fn valid(m: PriorityLevel) -> bool {
        true
    }

    open spec fn encoded(m: PriorityLevel) -> Json {
        Json::Str(m.token())
    }

    open spec fn decoded(tree: Json) -> Option<PriorityLevel> {
        match tree {
            Json::Str(token) => Self::of_token(token),
            _ => None,
        }
    }

    open spec fn rejects(tree: Json, fault: FaultModel) -> bool {
        match tree {
            Json::Str(token) => Self::of_token(token) is None && fault == FaultModel::here(
                FaultKind::Unrecognized,
            ),
            _ => fault == FaultModel::here(FaultKind::Mismatch),
        }
    }

    open spec fn if_absent() -> Option<PriorityLevel> {
        None
    }

    fn label() -> (r: String) {
        "PriorityLevel".to_owned()
    }

    fn to_value(&self) -> (v: Value) {
        match self {
            PriorityLevel::Standard => string_value("".to_owned()),
            PriorityLevel::Urgent => string_value("urgent".to_owned()),
            PriorityLevel::Important => string_value("important".to_owned()),
        }
    }

    fn from_value(v: &Value) -> (r: Result<Self, Fault>) {
        match value_str(v) {
            Some(token) => {
                if same_text(token, "") {
                    Ok(PriorityLevel::Standard)
                } else if same_text(token, "urgent") {
                    Ok(PriorityLevel::Urgent)
                } else if same_text(token, "important") {
                    Ok(PriorityLevel::Important)
                } else {
                    Err(Fault::here(FaultKind::Unrecognized))
                }
            },
            None => Err(Fault::here(FaultKind::Mismatch)),
        }
    }

    fn absent() -> (r: Option<Self>) {
        None
    }

    proof fn lemma_round_trip(m: PriorityLevel) {
        reveal_strlit("");
        reveal_strlit("urgent");
        reveal_strlit("important");
        assert(""@.len() == 0);
        assert("urgent"@.len() == 6);
        assert("important"@.len() == 9);
    }

    proof fn lemma_rejects_rejected(tree: Json, fault: FaultModel) {
    }
}

/// The priority of a post, and whether its readers are asked to acknowledge it.
#[derive(Clone, Debug, PartialEq, Eq)]
pub struct Priority {
    pub priority: PriorityLevel,
    pub requested_ack: bool,
}

/// What a [`Priority`] stands for.
pub struct PriorityModel {
    pub priority: PriorityLevel,
    pub requested_ack: bool,
}

impl Wire for Priority {
    type Model = PriorityModel;

    open spec fn name() -> Seq<char> {
        "Priority"@
    }

    open spec fn model(&self) -> PriorityModel {
        PriorityModel {
            priority: self.priority.model(),
            requested_ack: self.requested_ack.model(),
        }
    }

    open spec fn valid(m: PriorityModel) -> bool {
        true
    }

    open spec fn encoded(m: PriorityModel) -> Json {
        Json::empty_object()
            .with("priority"@, PriorityLevel::encoded(m.priority))
            .with("requested_ack"@, bool::encoded(m.requested_ack))
    }

    open spec fn decoded(tree: Json) -> Option<PriorityModel> {
        let priority = field::<PriorityLevel>(tree, "priority"@);
        let requested_ack = field::<bool>(tree, "requested_ack"@);
        if priority is Some
            && requested_ack is Some {
            Some(PriorityModel { priority: priority->0, requested_ack: requested_ack->0 })
        } else {
            None
        }
    }

    open spec fn rejects(tree: Json, fault: FaultModel) -> bool {
        if field::<PriorityLevel>(tree, "priority"@) is None {
            field_rejects::<PriorityLevel>(tree, "priority"@, fault)
        } else if field::<bool>(tree, "requested_ack"@) is None {
            field_rejects::<bool>(tree, "requested_ack"@, fault)
        } else {
            false
        }
    }

    open spec fn if_absent() -> Option<PriorityModel> {
        None
    }

    fn label() -> (r: String) {
        "Priority".to_owned()
    }

    fn to_value(&self) -> (v: Value) {
        let mut obj = empty_object();
        object_insert(&mut obj, "priority".to_owned(), self.priority.to_value());
        object_insert(&mut obj, "requested_ack".to_owned(), self.requested_ack.to_value());
        obj
    }

    fn from_value(v: &Value) -> (r: Result<Self, Fault>) {
        let priority = read_field::<PriorityLevel>(v, "priority")?;
        let requested_ack = read_field::<bool>(v, "requested_ack")?;
        Ok(Priority { priority, requested_ack })
    }

    fn absent() -> (r: Option<Self>) {
        None
    }

    proof fn lemma_round_trip(m: PriorityModel) {
        reveal_strlit("priority");
        reveal_strlit("requested_ack");
        assert("priority"@.len() == 8);
        assert("requested_ack"@.len() == 13);
        PriorityLevel::lemma_round_trip(m.priority);
    }

    proof fn lemma_rejects_rejected(tree: Json, fault: FaultModel) {
    }
}

/// The acknowledgement of a post by a user.
#[derive(Clone, Debug, PartialEq, Eq)]
pub struct Acknowledgement {
    pub user_id: String,
    pub post_id: String,
    pub acknowledged_at: usize,
}

/// What a [`Acknowledgement`] stands for.
pub struct AcknowledgementModel {
    pub user_id: Seq<char>,
    pub post_id: Seq<char>,
    pub acknowledged_at: usize,
}

impl Wire for Acknowledgement {
    type Model = AcknowledgementModel;

    open spec fn name() -> Seq<char> {
        "Acknowledgement"@
    }

    open spec fn model(&self) -> AcknowledgementModel {
        AcknowledgementModel {
            user_id: self.user_id.model(),
            post_id: self.post_id.model(),
            acknowledged_at: self.acknowledged_at.model(),
        }
    }

    open spec fn valid(m: AcknowledgementModel) -> bool {
        true
    }

    open spec fn encoded(m: AcknowledgementModel) -> Json {
        Json::empty_object()
            .with("user_id"@, String::encoded(m.user_id))
            .with("post_id"@, String::encoded(m.post_id))
            .with("acknowledged_at"@, usize::encoded(m.acknowledged_at))
    }

    open spec fn decoded(tree: Json) -> Option<AcknowledgementModel> {
        let user_id = field::<String>(tree, "user_id"@);
        let post_id = field::<String>(tree, "post_id"@);
        let acknowledged_at = field::<usize>(tree, "acknowledged_at"@);
        if user_id is Some
            && post_id is Some
            && acknowledged_at is Some {
            Some(
                AcknowledgementModel {
                    user_id: user_id->0,
                    post_id: post_id->0,
                    acknowledged_at: acknowledged_at->0,
                },
            )
        } else {
            None
        }
    }

    open spec fn rejects(tree: Json, fault: FaultModel) -> bool {
        if field::<String>(tree, "user_id"@) is None {
            field_rejects::<String>(tree, "user_id"@, fault)
        } else if field::<String>(tree, "post_id"@) is None {
            field_rejects::<String>(tree, "post_id"@, fault)
        } else if field::<usize>(tree, "acknowledged_at"@) is None {
            field_rejects::<usize>(tree, "acknowledged_at"@, fault)
        } else {
            false
        }
    }

    open spec fn if_absent() -> Option<AcknowledgementModel> {
        None
    }

    fn label() -> (r: String) {
        "Acknowledgement".to_owned()
    }

    fn to_value(&self) -> (v: Value) {
        let mut obj = empty_object();
        object_insert(&mut obj, "user_id".to_owned(), self.user_id.to_value());
        object_insert(&mut obj, "post_id".to_owned(), self.post_id.to_value());
        object_insert(&mut obj, "acknowledged_at".to_owned(), self.acknowledged_at.to_value());
        obj
    }

    fn from_value(v: &Value) -> (r: Result<Self, Fault>) {
        let user_id = read_field::<String>(v, "user_id")?;
        let post_id = read_field::<String>(v, "post_id")?;
        let acknowledged_at = read_field::<usize>(v, "acknowledged_at")?;
        Ok(Acknowledgement { user_id, post_id, acknowledged_at })
    }

    fn absent() -> (r: Option<Self>) {
        None
    }

    proof fn lemma_round_trip(m: AcknowledgementModel) {
        reveal_strlit("user_id");
        reveal_strlit("post_id");
        reveal_strlit("acknowledged_at");
        assert("acknowledged_at"@.len() == 15);
        assert("user_id"@.len() == 7 && "user_id"@[0] == 'u');
        assert("post_id"@.len() == 7 && "post_id"@[0] == 'p');
    }

    proof fn lemma_rejects_rejected(tree: Json, fault: FaultModel) {
    }
}

/// What the server attaches to a post. Each part may be left out.
#[derive(Clone, Debug, PartialEq, Eq)]
pub struct Metadata {
    pub embeds: Option<Vec<Embed>>,
    pub emojis: Option<Vec<Emoji>>,
    pub files: Option<Vec<FileMetadata>>,
    pub images: Option<Value>,
    pub reactions: Option<Vec<Reaction>>,
    pub priority: Option<Priority>,
    pub acknowledgements: Option<Vec<Acknowledgement>>,
}

/// What a [`Metadata`] stands for.
pub struct MetadataModel {
    pub embeds: Option<Seq<EmbedModel>>,
    pub emojis: Option<Seq<EmojiModel>>,
    pub files: Option<Seq<FileMetadataModel>>,
    pub images: Option<Json>,
    pub reactions: Option<Seq<ReactionModel>>,
    pub priority: Option<PriorityModel>,
    pub acknowledgements: Option<Seq<AcknowledgementModel>>,
}

impl Wire for Metadata {
    type Model = MetadataModel;

    open spec fn name() -> Seq<char> {
        "Metadata"@
    }

    open spec fn model(&self) -> MetadataModel {
        MetadataModel {
            embeds: self.embeds.model(),
            emojis: self.emojis.model(),
            files: self.files.model(),
            images: self.images.model(),
            reactions: self.reactions.model(),
            priority: self.priority.model(),
            acknowledgements: self.acknowledgements.model(),
        }
    }

    open spec fn valid(m: MetadataModel) -> bool {
        &&& Option::<Vec<Embed>>::valid(m.embeds)
        &&& Option::<Value>::valid(m.images)
    }

    open spec fn encoded(m: MetadataModel) -> Json {
        Json::empty_object()
            .with("embeds"@, Option::<Vec<Embed>>::encoded(m.embeds))
            .with("emojis"@, Option::<Vec<Emoji>>::encoded(m.emojis))
            .with("files"@, Option::<Vec<FileMetadata>>::encoded(m.files))
            .with("images"@, Option::<Value>::encoded(m.images))
            .with("reactions"@, Option::<Vec<Reaction>>::encoded(m.reactions))
            .with("priority"@, Option::<Priority>::encoded(m.priority))
            .with("acknowledgements"@, Option::<Vec<Acknowledgement>>::encoded(m.acknowledgements))
    }

    open spec fn decoded(tree: Json) -> Option<MetadataModel> {
        let embeds = field::<Option<Vec<Embed>>>(tree, "embeds"@);
        let emojis = field::<Option<Vec<Emoji>>>(tree, "emojis"@);
        let files = field::<Option<Vec<FileMetadata>>>(tree, "files"@);
        let images = field::<Option<Value>>(tree, "images"@);
        let reactions = field::<Option<Vec<Reaction>>>(tree, "reactions"@);
        let priority = field::<Option<Priority>>(tree, "priority"@);
        let acknowledgements = field::<Option<Vec<Acknowledgement>>>(tree, "acknowledgements"@);
        if embeds is Some
            && emojis is Some
            && files is Some
            && images is Some
            && reactions is Some
            && priority is Some
            && acknowledgements is Some {
            Some(
                MetadataModel {
                    embeds: embeds->0,
                    emojis: emojis->0,
                    files: files->0,
                    images: images->0,
                    reactions: reactions->0,
                    priority: priority->0,
                    acknowledgements: acknowledgements->0,
                },
            )
        } else {
            None
        }
    }

    open spec fn rejects(tree: Json, fault: FaultModel) -> bool {
        if field::<Option<Vec<Embed>>>(tree, "embeds"@) is None {
            field_rejects::<Option<Vec<Embed>>>(tree, "embeds"@, fault)
        } else if field::<Option<Vec<Emoji>>>(tree, "emojis"@) is None {
            field_rejects::<Option<Vec<Emoji>>>(tree, "emojis"@, fault)
        } else if field::<Option<Vec<FileMetadata>>>(tree, "files"@) is None {
            field_rejects::<Option<Vec<FileMetadata>>>(tree, "files"@, fault)
        } else if field::<Option<Value>>(tree, "images"@) is None {
            field_rejects::<Option<Value>>(tree, "images"@, fault)
        } else if field::<Option<Vec<Reaction>>>(tree, "reactions"@) is None {
            field_rejects::<Option<Vec<Reaction>>>(tree, "reactions"@, fault)
        } else if field::<Option<Priority>>(tree, "priority"@) is None {
            field_rejects::<Option<Priority>>(tree, "priority"@, fault)
        } else if field::<Option<Vec<Acknowledgement>>>(tree, "acknowledgements"@) is None {
            field_rejects::<Option<Vec<Acknowledgement>>>(tree, "acknowledgements"@, fault)
        } else {
            false
        }
    }

    open spec fn if_absent() -> Option<MetadataModel> {
        None
    }

    fn label() -> (r: String) {
        "Metadata".to_owned()
    }

    fn to_value(&self) -> (v: Value) {
        let mut obj = empty_object();
        object_insert(&mut obj, "embeds".to_owned(), self.embeds.to_value());
        object_insert(&mut obj, "emojis".to_owned(), self.emojis.to_value());
        object_insert(&mut obj, "files".to_owned(), self.files.to_value());
        object_insert(&mut obj, "images".to_owned(), self.images.to_value());
        object_insert(&mut obj, "reactions".to_owned(), self.reactions.to_value());
        object_insert(&mut obj, "priority".to_owned(), self.priority.to_value());
        object_insert(&mut obj, "acknowledgements".to_owned(), self.acknowledgements.to_value());
        obj
    }

    fn from_value(v: &Value) -> (r: Result<Self, Fault>) {
        let embeds = read_field::<Option<Vec<Embed>>>(v, "embeds")?;
        let emojis = read_field::<Option<Vec<Emoji>>>(v, "emojis")?;
        let files = read_field::<Option<Vec<FileMetadata>>>(v, "files")?;
        let images = read_field::<Option<Value>>(v, "images")?;
        let reactions = read_field::<Option<Vec<Reaction>>>(v, "reactions")?;
        let priority = read_field::<Option<Priority>>(v, "priority")?;
        let acknowledgements = read_field::<Option<Vec<Acknowledgement>>>(v, "acknowledgements")?;
        Ok(Metadata { embeds, emojis, files, images, reactions, priority, acknowledgements })
    }

    fn absent() -> (r: Option<Self>) {
        None
    }

    proof fn lemma_round_trip(m: MetadataModel) {
        reveal_strlit("embeds");
        reveal_strlit("emojis");
        reveal_strlit("files");
        reveal_strlit("images");
        reveal_strlit("reactions");
        reveal_strlit("priority");
        reveal_strlit("acknowledgements");
        assert("files"@.len() == 5);
        assert("reactions"@.len() == 9);
        assert("priority"@.len() == 8);
        assert("acknowledgements"@.len() == 16);
        assert("embeds"@.len() == 6 && "embeds"@[2] == 'b');
        assert("emojis"@.len() == 6 && "emojis"@[2] == 'o');
        assert("images"@.len() == 6 && "images"@[2] == 'a');
        Option::<Vec<Embed>>::lemma_round_trip(m.embeds);
        Option::<Vec<Emoji>>::lemma_round_trip(m.emojis);
        Option::<Vec<FileMetadata>>::lemma_round_trip(m.files);
        Option::<Value>::lemma_round_trip(m.images);
        Option::<Vec<Reaction>>::lemma_round_trip(m.reactions);
        Option::<Priority>::lemma_round_trip(m.priority);
        Option::<Vec<Acknowledgement>>::lemma_round_trip(m.acknowledgements);
    }

    proof fn lemma_rejects_rejected(tree: Json, fault: FaultModel) {
    }
}

/// A post in a channel.
#[derive(Clone, Debug, PartialEq, Eq)]
pub struct Post {
    pub id: String,
    pub create_at: usize,
    pub update_at: usize,
    pub delete_at: usize,
    pub edit_at: usize,
    pub user_id: String,
    pub channel_id: String,
    pub root_id: String,
    pub original_id: String,
    pub message: String,
    pub post_type: String,
    pub props: Value,
    pub hashtag: Option<String>,
    pub file_ids: Option<Vec<String>>,
    pub pending_post_id: String,
    pub metadata: Metadata,
}

/// What a [`Post`] stands for.
pub struct PostModel {
    pub id: Seq<char>,
    pub create_at: usize,
    pub update_at: usize,
    pub delete_at: usize,
    pub edit_at: usize,
    pub user_id: Seq<char>,
    pub channel_id: Seq<char>,
    pub root_id: Seq<char>,
    pub original_id: Seq<char>,
    pub message: Seq<char>,
    pub post_type: Seq<char>,
    pub props: Json,
    pub hashtag: Option<Seq<char>>,
    pub file_ids: Option<Seq<Seq<char>>>,
    pub pending_post_id: Seq<char>,
    pub metadata: MetadataModel,
}

impl Wire for Post {
    type Model = PostModel;

    open spec fn name() -> Seq<char> {
        "Post"@
    }

    open spec fn model(&self) -> PostModel {
        PostModel {
            id: self.id.model(),
            create_at: self.create_at.model(),
            update_at: self.update_at.model(),
            delete_at: self.delete_at.model(),
            edit_at: self.edit_at.model(),
            user_id: self.user_id.model(),
            channel_id: self.channel_id.model(),
            root_id: self.root_id.model(),
            original_id: self.original_id.model(),
            message: self.message.model(),
            post_type: self.post_type.model(),
            props: self.props.model(),
            hashtag: self.hashtag.model(),
            file_ids: self.file_ids.model(),
            pending_post_id: self.pending_post_id.model(),
            metadata: self.metadata.model(),
        }
    }

    open spec fn valid(m: PostModel) -> bool {
        Metadata::valid(m.metadata)
    }

    open spec fn encoded(m: PostModel) -> Json {
        Json::empty_object()
            .with("id"@, String::encoded(m.id))
            .with("create_at"@, usize::encoded(m.create_at))
            .with("update_at"@, usize::encoded(m.update_at))
            .with("delete_at"@, usize::encoded(m.delete_at))
            .with("edit_at"@, usize::encoded(m.edit_at))
            .with("user_id"@, String::encoded(m.user_id))
            .with("channel_id"@, String::encoded(m.channel_id))
            .with("root_id"@, String::encoded(m.root_id))
            .with("original_id"@, String::encoded(m.original_id))
            .with("message"@, String::encoded(m.message))
            .with("type"@, String::encoded(m.post_type))
            .with("props"@, Value::encoded(m.props))
            .with("hashtag"@, Option::<String>::encoded(m.hashtag))
            .with("file_ids"@, Option::<Vec<String>>::encoded(m.file_ids))
            .with("pending_post_id"@, String::encoded(m.pending_post_id))
            .with("metadata"@, Metadata::encoded(m.metadata))
    }

    open spec fn decoded(tree: Json) -> Option<PostModel> {
        let id = field::<String>(tree, "id"@);
        let create_at = field::<usize>(tree, "create_at"@);
        let update_at = field::<usize>(tree, "update_at"@);
        let delete_at = field::<usize>(tree, "delete_at"@);
        let edit_at = field::<usize>(tree, "edit_at"@);
        let user_id = field::<String>(tree, "user_id"@);
        let channel_id = field::<String>(tree, "channel_id"@);
        let root_id = field::<String>(tree, "root_id"@);
        let original_id = field::<String>(tree, "original_id"@);
        let message = field::<String>(tree, "message"@);
        let post_type = field::<String>(tree, "type"@);
        let props = field::<Value>(tree, "props"@);
        let hashtag = field::<Option<String>>(tree, "hashtag"@);
        let file_ids = field::<Option<Vec<String>>>(tree, "file_ids"@);
        let pending_post_id = field::<String>(tree, "pending_post_id"@);
        let metadata = field::<Metadata>(tree, "metadata"@);
        if id is Some
            && create_at is Some
            && update_at is Some
            && delete_at is Some
            && edit_at is Some
            && user_id is Some
            && channel_id is Some
            && root_id is Some
            && original_id is Some
            && message is Some
            && post_type is Some
            && props is Some
            && hashtag is Some
            && file_ids is Some
            && pending_post_id is Some
            && metadata is Some {
            Some(
                PostModel {
                    id: id->0,
                    create_at: create_at->0,
                    update_at: update_at->0,
                    delete_at: delete_at->0,
                    edit_at: edit_at->0,
                    user_id: user_id->0,
                    channel_id: channel_id->0,
                    root_id: root_id->0,
                    original_id: original_id->0,
                    message: message->0,
                    post_type: post_type->0,
                    props: props->0,
                    hashtag: hashtag->0,
                    file_ids: file_ids->0,
                    pending_post_id: pending_post_id->0,
                    metadata: metadata->0,
                },
            )
        } else {
            None
        }
    }

    open spec fn rejects(tree: Json, fault: FaultModel) -> bool {
        if field::<String>(tree, "id"@) is None {
            field_rejects::<String>(tree, "id"@, fault)
        } else if field::<usize>(tree, "create_at"@) is None {
            field_rejects::<usize>(tree, "create_at"@, fault)
        } else if field::<usize>(tree, "update_at"@) is None {
            field_rejects::<usize>(tree, "update_at"@, fault)
        } else if field::<usize>(tree, "delete_at"@) is None {
            field_rejects::<usize>(tree, "delete_at"@, fault)
        } else if field::<usize>(tree, "edit_at"@) is None {
            field_rejects::<usize>(tree, "edit_at"@, fault)
        } else if field::<String>(tree, "user_id"@) is None {
            field_rejects::<String>(tree, "user_id"@, fault)
        } else if field::<String>(tree, "channel_id"@) is None {
            field_rejects::<String>(tree, "channel_id"@, fault)
        } else if field::<String>(tree, "root_id"@) is None {
            field_rejects::<String>(tree, "root_id"@, fault)
        } else if field::<String>(tree, "original_id"@) is None {
            field_rejects::<String>(tree, "original_id"@, fault)
        } else if field::<String>(tree, "message"@) is None {
            field_rejects::<String>(tree, "message"@, fault)
        } else if field::<String>(tree, "type"@) is None {
            field_rejects::<String>(tree, "type"@, fault)
        } else if field::<Value>(tree, "props"@) is None {
            field_rejects::<Value>(tree, "props"@, fault)
        } else if field::<Option<String>>(tree, "hashtag"@) is None {
            field_rejects::<Option<String>>(tree, "hashtag"@, fault)
        } else if field::<Option<Vec<String>>>(tree, "file_ids"@) is None {
            field_rejects::<Option<Vec<String>>>(tree, "file_ids"@, fault)
        } else if field::<String>(tree, "pending_post_id"@) is None {
            field_rejects::<String>(tree, "pending_post_id"@, fault)
        } else if field::<Metadata>(tree, "metadata"@) is None {
            field_rejects::<Metadata>(tree, "metadata"@, fault)
        } else {
            false
        }
    }

    open spec fn if_absent() -> Option<PostModel> {
        None
    }

    fn label() -> (r: String) {
        "Post".to_owned()
    }

    fn to_value(&self) -> (v: Value) {
        let mut obj = empty_object();
        object_insert(&mut obj, "id".to_owned(), self.id.to_value());
        object_insert(&mut obj, "create_at".to_owned(), self.create_at.to_value());
        object_insert(&mut obj, "update_at".to_owned(), self.update_at.to_value());
        object_insert(&mut obj, "delete_at".to_owned(), self.delete_at.to_value());
        object_insert(&mut obj, "edit_at".to_owned(), self.edit_at.to_value());
        object_insert(&mut obj, "user_id".to_owned(), self.user_id.to_value());
        object_insert(&mut obj, "channel_id".to_owned(), self.channel_id.to_value());
        object_insert(&mut obj, "root_id".to_owned(), self.root_id.to_value());
        object_insert(&mut obj, "original_id".to_owned(), self.original_id.to_value());
        object_insert(&mut obj, "message".to_owned(), self.message.to_value());
        object_insert(&mut obj, "type".to_owned(), self.post_type.to_value());
        object_insert(&mut obj, "props".to_owned(), self.props.to_value());
        object_insert(&mut obj, "hashtag".to_owned(), self.hashtag.to_value());
        object_insert(&mut obj, "file_ids".to_owned(), self.file_ids.to_value());
        object_insert(&mut obj, "pending_post_id".to_owned(), self.pending_post_id.to_value());
        object_insert(&mut obj, "metadata".to_owned(), self.metadata.to_value());
        obj
    }

    fn from_value(v: &Value) -> (r: Result<Self, Fault>) {
        let id = read_field::<String>(v, "id")?;
        let create_at = read_field::<usize>(v, "create_at")?;
        let update_at = read_field::<usize>(v, "update_at")?;
        let delete_at = read_field::<usize>(v, "delete_at")?;
        let edit_at = read_field::<usize>(v, "edit_at")?;
        let user_id = read_field::<String>(v, "user_id")?;
        let channel_id = read_field::<String>(v, "channel_id")?;
        let root_id = read_field::<String>(v, "root_id")?;
        let original_id = read_field::<String>(v, "original_id")?;
        let message = read_field::<String>(v, "message")?;
        let post_type = read_field::<String>(v, "type")?;
        let props = read_field::<Value>(v, "props")?;
        let hashtag = read_field::<Option<String>>(v, "hashtag")?;
        let file_ids = read_field::<Option<Vec<String>>>(v, "file_ids")?;
        let pending_post_id = read_field::<String>(v, "pending_post_id")?;
        let metadata = read_field::<Metadata>(v, "metadata")?;
        Ok(
            Post {
                id,
                create_at,
                update_at,
                delete_at,
                edit_at,
                user_id,
                channel_id,
                root_id,
                original_id,
                message,
                post_type,
                props,
                hashtag,
                file_ids,
                pending_post_id,
                metadata,
            },
        )
    }

    fn absent() -> (r: Option<Self>) {
        None
    }

    proof fn lemma_round_trip(m: PostModel) {
        reveal_strlit("id");
        reveal_strlit("create_at");
        reveal_strlit("update_at");
        reveal_strlit("delete_at");
        reveal_strlit("edit_at");
        reveal_strlit("user_id");
        reveal_strlit("channel_id");
        reveal_strlit("root_id");
        reveal_strlit("original_id");
        reveal_strlit("message");
        reveal_strlit("type");
        reveal_strlit("props");
        reveal_strlit("hashtag");
        reveal_strlit("file_ids");
        reveal_strlit("pending_post_id");
        reveal_strlit("metadata");
        assert("id"@.len() == 2);
        assert("channel_id"@.len() == 10);
        assert("original_id"@.len() == 11);
        assert("type"@.len() == 4);
        assert("props"@.len() == 5);
        assert("pending_post_id"@.len() == 15);
        assert("edit_at"@.len() == 7 && "edit_at"@[0] == 'e');
        assert("user_id"@.len() == 7 && "user_id"@[0] == 'u');
        assert("root_id"@.len() == 7 && "root_id"@[0] == 'r');
        assert("message"@.len() == 7 && "message"@[0] == 'm');
        assert("hashtag"@.len() == 7 && "hashtag"@[0] == 'h');
        assert("file_ids"@.len() == 8 && "file_ids"@[0] == 'f');
        assert("metadata"@.len() == 8 && "metadata"@[0] == 'm');
        assert("create_at"@.len() == 9 && "create_at"@[0] == 'c');
        assert("update_at"@.len() == 9 && "update_at"@[0] == 'u');
        assert("delete_at"@.len() == 9 && "delete_at"@[0] == 'd');
        let tree = Self::encoded(m);
        assert(tree.member("id"@) == Some(String::encoded(m.id)));
        assert(tree.member("create_at"@) == Some(usize::encoded(m.create_at)));
        assert(tree.member("update_at"@) == Some(usize::encoded(m.update_at)));
        assert(tree.member("delete_at"@) == Some(usize::encoded(m.delete_at)));
        assert(tree.member("edit_at"@) == Some(usize::encoded(m.edit_at)));
        assert(tree.member("user_id"@) == Some(String::encoded(m.user_id)));
        assert(tree.member("channel_id"@) == Some(String::encoded(m.channel_id)));
        assert(tree.member("root_id"@) == Some(String::encoded(m.root_id)));
        assert(tree.member("original_id"@) == Some(String::encoded(m.original_id)));
        assert(tree.member("message"@) == Some(String::encoded(m.message)));
        assert(tree.member("type"@) == Some(String::encoded(m.post_type)));
        assert(tree.member("props"@) == Some(Value::encoded(m.props)));
        assert(tree.member("hashtag"@) == Some(Option::<String>::encoded(m.hashtag)));
        assert(tree.member("file_ids"@) == Some(Option::<Vec<String>>::encoded(m.file_ids)));
        assert(tree.member("pending_post_id"@) == Some(String::encoded(m.pending_post_id)));
        assert(tree.member("metadata"@) == Some(Metadata::encoded(m.metadata)));
        Option::<String>::lemma_round_trip(m.hashtag);
        Option::<Vec<String>>::lemma_round_trip(m.file_ids);
        Metadata::lemma_round_trip(m.metadata);
    }

    proof fn lemma_rejects_rejected(tree: Json, fault: FaultModel) {
    }
}

/// The metadata that a new post may carry.
#[derive(Clone, Debug, PartialEq, Eq)]
pub struct CreatePostMetadata {
    pub priority: Option<Priority>,
}

/// What a [`CreatePostMetadata`] stands for.
pub struct CreatePostMetadataModel {
    pub priority: Option<PriorityModel>,
}

impl Wire for CreatePostMetadata {
    type Model = CreatePostMetadataModel;

    open spec fn name() -> Seq<char> {
        "CreatePostMetadata"@
    }

    open spec fn model(&self) -> CreatePostMetadataModel {
        CreatePostMetadataModel {
            priority: self.priority.model(),
        }
    }

    open spec fn valid(m: CreatePostMetadataModel) -> bool {
        true
    }

    open spec fn encoded(m: CreatePostMetadataModel) -> Json {
        Json::empty_object()
            .with("priority"@, Option::<Priority>::encoded(m.priority))
    }

    open spec fn decoded(tree: Json) -> Option<CreatePostMetadataModel> {
        let priority = field::<Option<Priority>>(tree, "priority"@);
        if priority is Some {
            Some(CreatePostMetadataModel { priority: priority->0 })
        } else {
            None
        }
    }

    open spec fn rejects(tree: Json, fault: FaultModel) -> bool {
        if field::<Option<Priority>>(tree, "priority"@) is None {
            field_rejects::<Option<Priority>>(tree, "priority"@, fault)
        } else {
            false
        }
    }

    open spec fn if_absent() -> Option<CreatePostMetadataModel> {
        None
    }

    fn label() -> (r: String) {
        "CreatePostMetadata".to_owned()
    }

    fn to_value(&self) -> (v: Value) {
        let mut obj = empty_object();
        object_insert(&mut obj, "priority".to_owned(), self.priority.to_value());
        obj
    }

    fn from_value(v: &Value) -> (r: Result<Self, Fault>) {
        let priority = read_field::<Option<Priority>>(v, "priority")?;
        Ok(CreatePostMetadata { priority })
    }

    fn absent() -> (r: Option<Self>) {
        None
    }

    proof fn lemma_round_trip(m: CreatePostMetadataModel) {
        reveal_strlit("priority");
        Option::<Priority>::lemma_round_trip(m.priority);
    }

    proof fn lemma_rejects_rejected(tree: Json, fault: FaultModel) {
    }
}

/// The request to create a post.
///
/// A part that is not set is sent as JSON null, not left out.
#[derive(Clone, Debug, PartialEq, Eq)]
pub struct CreatePost {
    pub channel_id: String,
    pub message: String,
    pub root_id: Option<String>,
    pub props: Option<Value>,
    pub hashtag: Option<String>,
    pub file_ids: Option<Vec<String>>,
    pub metadata: Option<CreatePostMetadata>,
}

/// What a [`CreatePost`] stands for.
pub struct CreatePostModel {
    pub channel_id: Seq<char>,
    pub message: Seq<char>,
    pub root_id: Option<Seq<char>>,
    pub props: Option<Json>,
    pub hashtag: Option<Seq<char>>,
    pub file_ids: Option<Seq<Seq<char>>>,
    pub metadata: Option<CreatePostMetadataModel>,
}

impl Wire for CreatePost {
    type Model = CreatePostModel;

    open spec fn name() -> Seq<char> {
        "CreatePost"@
    }

    open spec fn model(&self) -> CreatePostModel {
        CreatePostModel {
            channel_id: self.channel_id.model(),
            message: self.message.model(),
            root_id: self.root_id.model(),
            props: self.props.model(),
            hashtag: self.hashtag.model(),
            file_ids: self.file_ids.model(),
            metadata: self.metadata.model(),
        }
    }

    open spec fn valid(m: CreatePostModel) -> bool {
        Option::<Value>::valid(m.props)
    }

    open spec fn encoded(m: CreatePostModel) -> Json {
        Json::empty_object()
            .with("channel_id"@, String::encoded(m.channel_id))
            .with("message"@, String::encoded(m.message))
            .with("root_id"@, Option::<String>::encoded(m.root_id))
            .with("props"@, Option::<Value>::encoded(m.props))
            .with("hashtag"@, Option::<String>::encoded(m.hashtag))
            .with("file_ids"@, Option::<Vec<String>>::encoded(m.file_ids))
            .with("metadata"@, Option::<CreatePostMetadata>::encoded(m.metadata))
    }

    open spec fn decoded(tree: Json) -> Option<CreatePostModel> {
        let channel_id = field::<String>(tree, "channel_id"@);
        let message = field::<String>(tree, "message"@);
        let root_id = field::<Option<String>>(tree, "root_id"@);
        let props = field::<Option<Value>>(tree, "props"@);
        let hashtag = field::<Option<String>>(tree, "hashtag"@);
        let file_ids = field::<Option<Vec<String>>>(tree, "file_ids"@);
        let metadata = field::<Option<CreatePostMetadata>>(tree, "metadata"@);
        if channel_id is Some
            && message is Some
            && root_id is Some
            && props is Some
            && hashtag is Some
            && file_ids is Some
            && metadata is Some {
            Some(
                CreatePostModel {
                    channel_id: channel_id->0,
                    message: message->0,
                    root_id: root_id->0,
                    props: props->0,
                    hashtag: hashtag->0,
                    file_ids: file_ids->0,
                    metadata: metadata->0,
                },
            )
        } else {
            None
        }
    }

    open spec fn rejects(tree: Json, fault: FaultModel) -> bool {
        if field::<String>(tree, "channel_id"@) is None {
            field_rejects::<String>(tree, "channel_id"@, fault)
        } else if field::<String>(tree, "message"@) is None {
            field_rejects::<String>(tree, "message"@, fault)
        } else if field::<Option<String>>(tree, "root_id"@) is None {
            field_rejects::<Option<String>>(tree, "root_id"@, fault)
        } else if field::<Option<Value>>(tree, "props"@) is None {
            field_rejects::<Option<Value>>(tree, "props"@, fault)
        } else if field::<Option<String>>(tree, "hashtag"@) is None {
            field_rejects::<Option<String>>(tree, "hashtag"@, fault)
        } else if field::<Option<Vec<String>>>(tree, "file_ids"@) is None {
            field_rejects::<Option<Vec<String>>>(tree, "file_ids"@, fault)
        } else if field::<Option<CreatePostMetadata>>(tree, "metadata"@) is None {
            field_rejects::<Option<CreatePostMetadata>>(tree, "metadata"@, fault)
        } else {
            false
        }
    }

    open spec fn if_absent() -> Option<CreatePostModel> {
        None
    }

    fn label() -> (r: String) {
        "CreatePost".to_owned()
    }

    fn to_value(&self) -> (v: Value) {
        let mut obj = empty_object();
        object_insert(&mut obj, "channel_id".to_owned(), self.channel_id.to_value());
        object_insert(&mut obj, "message".to_owned(), self.message.to_value());
        object_insert(&mut obj, "root_id".to_owned(), self.root_id.to_value());
        object_insert(&mut obj, "props".to_owned(), self.props.to_value());
        object_insert(&mut obj, "hashtag".to_owned(), self.hashtag.to_value());
        object_insert(&mut obj, "file_ids".to_owned(), self.file_ids.to_value());
        object_insert(&mut obj, "metadata".to_owned(), self.metadata.to_value());
        obj
    }

    fn from_value(v: &Value) -> (r: Result<Self, Fault>) {
        let channel_id = read_field::<String>(v, "channel_id")?;
        let message = read_field::<String>(v, "message")?;
        let root_id = read_field::<Option<String>>(v, "root_id")?;
        let props = read_field::<Option<Value>>(v, "props")?;
        let hashtag = read_field::<Option<String>>(v, "hashtag")?;
        let file_ids = read_field::<Option<Vec<String>>>(v, "file_ids")?;
        let metadata = read_field::<Option<CreatePostMetadata>>(v, "metadata")?;
        Ok(CreatePost { channel_id, message, root_id, props, hashtag, file_ids, metadata })
    }

    fn absent() -> (r: Option<Self>) {
        None
    }

    proof fn lemma_round_trip(m: CreatePostModel) {
        reveal_strlit("channel_id");
        reveal_strlit("message");
        reveal_strlit("root_id");
        reveal_strlit("props");
        reveal_strlit("hashtag");
        reveal_strlit("file_ids");
        reveal_strlit("metadata");
        assert("channel_id"@.len() == 10);
        assert("props"@.len() == 5);
        assert("message"@.len() == 7 && "message"@[0] == 'm');
        assert("root_id"@.len() == 7 && "root_id"@[0] == 'r');
        assert("hashtag"@.len() == 7 && "hashtag"@[0] == 'h');
        assert("file_ids"@.len() == 8 && "file_ids"@[0] == 'f');
        assert("metadata"@.len() == 8 && "metadata"@[0] == 'm');
        Option::<String>::lemma_round_trip(m.root_id);
        Option::<Value>::lemma_round_trip(m.props);
        Option::<String>::lemma_round_trip(m.hashtag);
        Option::<Vec<String>>::lemma_round_trip(m.file_ids);
        Option::<CreatePostMetadata>::lemma_round_trip(m.metadata);
    }

    proof fn lemma_rejects_rejected(tree: Json, fault: FaultModel) {
    }
}

impl Default for CreatePost {
    /// The request with empty texts and nothing else set.
    fn default() -> (r: CreatePost)
        ensures
            r.model() == (CreatePostModel {
                channel_id: Seq::empty(),
                message: Seq::empty(),
                root_id: None,
                props: None,
                hashtag: None,
                file_ids: None,
                metadata: None,
            }),
    {
        CreatePost {
            channel_id: String::new(),
            message: String::new(),
            root_id: None,
            props: None,
            hashtag: None,
            file_ids: None,
            metadata: None,
        }
    }
}

/// The reply to the removal of a reaction.
#[derive(Clone, Debug, PartialEq, Eq)]
pub struct DeleteReactionResponse {
    pub status: String,
}

/// What a [`DeleteReactionResponse`] stands for.
pub struct DeleteReactionResponseModel {
    pub status: Seq<char>,
}

impl Wire for DeleteReactionResponse {
    type Model = DeleteReactionResponseModel;

    open spec fn name() -> Seq<char> {
        "DeleteReactionResponse"@
    }

    open spec fn model(&self) -> DeleteReactionResponseModel {
        DeleteReactionResponseModel {
            status: self.status.model(),
        }
    }

    open spec fn valid(m: DeleteReactionResponseModel) -> bool {
        true
    }

    open spec fn encoded(m: DeleteReactionResponseModel) -> Json {
        Json::empty_object()
            .with("status"@, String::encoded(m.status))
    }

    open spec fn decoded(tree: Json) -> Option<DeleteReactionResponseModel> {
        let status = field::<String>(tree, "status"@);
        if status is Some {
            Some(DeleteReactionResponseModel { status: status->0 })
        } else {
            None
        }
    }

    open spec fn rejects(tree: Json, fault: FaultModel) -> bool {
        if field::<String>(tree, "status"@) is None {
            field_rejects::<String>(tree, "status"@, fault)
        } else {
            false
        }
    }

    open spec fn if_absent() -> Option<DeleteReactionResponseModel> {
        None
    }

    fn label() -> (r: String) {
        "DeleteReactionResponse".to_owned()
    }

    fn to_value(&self) -> (v: Value) {
        let mut obj = empty_object();
        object_insert(&mut obj, "status".to_owned(), self.status.to_value());
        obj
    }

    fn from_value(v: &Value) -> (r: Result<Self, Fault>) {
        let status = read_field::<String>(v, "status")?;
        Ok(DeleteReactionResponse { status })
    }

    fn absent() -> (r: Option<Self>) {
        None
    }

    proof fn lemma_round_trip(m: DeleteReactionResponseModel) {
        reveal_strlit("status");
    }

    proof fn lemma_rejects_rejected(tree: Json, fault: FaultModel) {
    }
}

impl Default for DeleteReactionResponse {
    /// The reply with an empty status.
    fn default() -> (r: DeleteReactionResponse)
        ensures
            r.model() == (DeleteReactionResponseModel { status: Seq::empty() }),
    {
        DeleteReactionResponse { status: String::new() }
    }
}

/// The reply to a file upload.
#[derive(Clone, Debug, PartialEq, Eq)]
pub struct FileUploadResponse {
    pub file_infos: Vec<FileMetadata>,
    pub client_ids: Vec<String>,
}

/// What a [`FileUploadResponse`] stands for.
pub struct FileUploadResponseModel {
    pub file_infos: Seq<FileMetadataModel>,
    pub client_ids: Seq<Seq<char>>,
}

impl Wire for FileUploadResponse {
    type Model = FileUploadResponseModel;

    open spec fn name() -> Seq<char> {
        "FileUploadResponse"@
    }

    open spec fn model(&self) -> FileUploadResponseModel {
        FileUploadResponseModel {
            file_infos: self.file_infos.model(),
            client_ids: self.client_ids.model(),
        }
    }

    open spec fn valid(m: FileUploadResponseModel) -> bool {
        true
    }

    open spec fn encoded(m: FileUploadResponseModel) -> Json {
        Json::empty_object()
            .with("file_infos"@, Vec::<FileMetadata>::encoded(m.file_infos))
            .with("client_ids"@, Vec::<String>::encoded(m.client_ids))
    }

    open spec fn decoded(tree: Json) -> Option<FileUploadResponseModel> {
        let file_infos = field::<Vec<FileMetadata>>(tree, "file_infos"@);
        let client_ids = field::<Vec<String>>(tree, "client_ids"@);
        if file_infos is Some
            && client_ids is Some {
            Some(FileUploadResponseModel { file_infos: file_infos->0, client_ids: client_ids->0 })
        } else {
            None
        }
    }

    open spec fn rejects(tree: Json, fault: FaultModel) -> bool {
        if field::<Vec<FileMetadata>>(tree, "file_infos"@) is None {
            field_rejects::<Vec<FileMetadata>>(tree, "file_infos"@, fault)
        } else if field::<Vec<String>>(tree, "client_ids"@) is None {
            field_rejects::<Vec<String>>(tree, "client_ids"@, fault)
        } else {
            false
        }
    }

    open spec fn if_absent() -> Option<FileUploadResponseModel> {
        None
    }

    fn label() -> (r: String) {
        "FileUploadResponse".to_owned()
    }

    fn to_value(&self) -> (v: Value) {
        let mut obj = empty_object();
        object_insert(&mut obj, "file_infos".to_owned(), self.file_infos.to_value());
        object_insert(&mut obj, "client_ids".to_owned(), self.client_ids.to_value());
        obj
    }

    fn from_value(v: &Value) -> (r: Result<Self, Fault>) {
        let file_infos = read_field::<Vec<FileMetadata>>(v, "file_infos")?;
        let client_ids = read_field::<Vec<String>>(v, "client_ids")?;
        Ok(FileUploadResponse { file_infos, client_ids })
    }

    fn absent() -> (r: Option<Self>) {
        None
    }

    proof fn lemma_round_trip(m: FileUploadResponseModel) {
        reveal_strlit("file_infos");
        reveal_strlit("client_ids");
        assert("file_infos"@.len() == 10 && "file_infos"@[0] == 'f');
        assert("client_ids"@.len() == 10 && "client_ids"@[0] == 'c');
        Vec::<FileMetadata>::lemma_round_trip(m.file_infos);
        Vec::<String>::lemma_round_trip(m.client_ids);
    }

    proof fn lemma_rejects_rejected(tree: Json, fault: FaultModel) {
    }
}

} // verus!
