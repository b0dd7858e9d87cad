//! Users and their settings.

use vstd::prelude::*;
use serde_json::Value;
use crate::fault::{Fault, FaultKind, FaultModel};
use crate::json::{empty_object, object_insert, string_value, value_bool, value_str, Json};
use crate::wire::{field, field_rejects, read_field, same_text, Wire};

verus! {

/// A switch that the server sends as the string `"true"` or `"false"`.
#[derive(Clone, Copy, Debug, PartialEq, Eq, Structural)]
pub enum BoolishFlag {
    True,
    False,
}

impl BoolishFlag {
    /// The token that stands for this value on the wire.
    pub open spec fn token(self) -> Seq<char> {
        match self {
            BoolishFlag::True => "true"@,
            BoolishFlag::False => "false"@,
        }
    }

    /// The value that a token stands for, if it is one of the tokens.
    pub open spec fn of_token(token: Seq<char>) -> Option<BoolishFlag> {
        if token == "true"@ {
            Some(BoolishFlag::True)
        } else if token == "false"@ {
            Some(BoolishFlag::False)
        } else {
            None
        }
    }
}

impl Wire for BoolishFlag {
    type Model = BoolishFlag;

    open spec fn name() -> Seq<char> {
        "BoolishFlag"@
    }

    open spec fn model(&self) -> BoolishFlag {
        *self
    }

    open spec fn valid(m: BoolishFlag) -> bool {
        true
    }

    open spec fn encoded(m: BoolishFlag) -> Json {
        Json::Str(m.token())
    }

    open spec fn decoded(tree: Json) -> Option<BoolishFlag> {
        match tree {
            Json::Str(token) => Self::of_token(token),
            _ => None,
        }
    }

    open spec fn rejects(tree: Json, fault: FaultModel) -> bool {
        match tree {
            Json::Str(token) => Self::of_token(token) is None && fault == FaultModel::here(
                FaultKind::Unrecognized,
            ),
            _ => fault == FaultModel::here(FaultKind::Mismatch),
        }
    }

    open spec fn if_absent() -> Option<BoolishFlag> {
        None
    }

    fn label() -> (r: String) {
        "BoolishFlag".to_owned()
    }

    fn to_value(&self) -> (v: Value) {
        match self {
            BoolishFlag::True => string_value("true".to_owned()),
            BoolishFlag::False => string_value("false".to_owned()),
        }
    }

    fn from_value(v: &Value) -> (r: Result<Self, Fault>) {
        match value_str(v) {
            Some(token) => {
                if same_text(token, "true") {
                    Ok(BoolishFlag::True)
                } else if same_text(token, "false") {
                    Ok(BoolishFlag::False)
                } else {
                    Err(Fault::here(FaultKind::Unrecognized))
                }
            },
            None => Err(Fault::here(FaultKind::Mismatch)),
        }
    }

    fn absent() -> (r: Option<Self>) {
        None
    }

    proof fn lemma_round_trip(m: BoolishFlag) {
        reveal_strlit("true");
        reveal_strlit("false");
        assert("true"@.len() == 4);
        assert("false"@.len() == 5);
    }

    proof fn lemma_rejects_rejected(tree: Json, fault: FaultModel) {
    }
}

/// For which posts a user is notified.
#[derive(Clone, Copy, Debug, PartialEq, Eq, Structural)]
pub enum NotificationFlag {
    /// For every post.
    All,
    /// For posts that mention the user.
    Mention,
    /// For no post; the token is `"none"`.
    Never,
}

impl NotificationFlag {
    /// The token that stands for this value on the wire.
    pub open spec fn token(self) -> Seq<char> {
        match self {
            NotificationFlag::All => "all"@,
            NotificationFlag::Mention => "mention"@,
            NotificationFlag::Never => "none"@,
        }
    }

    /// The value that a token stands for, if it is one of the tokens.
    pub open spec fn of_token(token: Seq<char>) -> Option<NotificationFlag> {
        if token == "all"@ {
            Some(NotificationFlag::All)
        } else if token == "mention"@ {
            Some(NotificationFlag::Mention)
        } else if token == "none"@ {
            Some(NotificationFlag::Never)
        } else {
            None
        }
    }
}

impl Wire for NotificationFlag {
    type Model = NotificationFlag;

    open spec fn name() -> Seq<char> {
        "NotificationFlag"@
    }

    open spec fn model(&self) -> NotificationFlag {
        *self
    }

    open spec fn valid(m: NotificationFlag) -> bool {
        true
    }

    open spec fn encoded(m: NotificationFlag) -> Json {
        Json::Str(m.token())
    }

    open spec fn decoded(tree: Json) -> Option<NotificationFlag> {
        match tree {
            Json::Str(token) => Self::of_token(token),
            _ => None,
        }
    }

    open spec fn rejects(tree: Json, fault: FaultModel) -> bool {
        match tree {
            Json::Str(token) => Self::of_token(token) is None && fault == FaultModel::here(
                FaultKind::Unrecognized,
            ),
            _ => fault == FaultModel::here(FaultKind::Mismatch),
        }
    }

    open spec fn if_absent() -> Option<NotificationFlag> {
        None
    }

    fn label() -> (r: String) {
        "NotificationFlag".to_owned()
    }

    fn to_value(&self) -> (v: Value) {
        match self {
            NotificationFlag::All => string_value("all".to_owned()),
            NotificationFlag::Mention => string_value("mention".to_owned()),
            NotificationFlag::Never => string_value("none".to_owned()),
        }
    }

    fn from_value(v: &Value) -> (r: Result<Self, Fault>) {
        match value_str(v) {
            Some(token) => {
                if same_text(token, "all") {
                    Ok(NotificationFlag::All)
                } else if same_text(token, "mention") {
                    Ok(NotificationFlag::Mention)
                } else if same_text(token, "none") {
                    Ok(NotificationFlag::Never)
                } else {
                    Err(Fault::here(FaultKind::Unrecognized))
                }
            },
            None => Err(Fault::here(FaultKind::Mismatch)),
        }
    }

    fn absent() -> (r: Option<Self>) {
        None
    }

    proof fn lemma_round_trip(m: NotificationFlag) {
        reveal_strlit("all");
        reveal_strlit("mention");
        reveal_strlit("none");
        assert("all"@.len() == 3);
        assert("mention"@.len() == 7);
        assert("none"@.len() == 4);
    }

    proof fn lemma_rejects_rejected(tree: Json, fault: FaultModel) {
    }
}

/// A user's notification preferences.
#[derive(Clone, Debug, PartialEq, Eq)]
pub struct UserNotifyProps {
    pub email: Option<BoolishFlag>,
    pub push: Option<NotificationFlag>,
    pub desktop: Option<NotificationFlag>,
    pub desktop_sound: Option<BoolishFlag>,
    pub mention_keys: Option<String>,
    pub channel: Option<BoolishFlag>,
    pub first_name: Option<BoolishFlag>,
}

/// What a [`UserNotifyProps`] stands for.
pub struct UserNotifyPropsModel {
    pub email: Option<BoolishFlag>,
    pub push: Option<NotificationFlag>,
    pub desktop: Option<NotificationFlag>,
    pub desktop_sound: Option<BoolishFlag>,
    pub mention_keys: Option<Seq<char>>,
    pub channel: Option<BoolishFlag>,
    pub first_name: Option<BoolishFlag>,
}

impl Wire for UserNotifyProps {
    type Model = UserNotifyPropsModel;

    open spec fn name() -> Seq<char> {
        "UserNotifyProps"@
    }

    open spec fn model(&self) -> UserNotifyPropsModel {
        UserNotifyPropsModel {
            email: self.email.model(),
            push: self.push.model(),
            desktop: self.desktop.model(),
            desktop_sound: self.desktop_sound.model(),
            mention_keys: self.mention_keys.model(),
            channel: self.channel.model(),
            first_name: self.first_name.model(),
        }
    }

    open spec fn valid(m: UserNotifyPropsModel) -> bool {
        true
    }

    open spec fn encoded(m: UserNotifyPropsModel) -> Json {
        Json::empty_object()
            .with("email"@, Option::<BoolishFlag>::encoded(m.email))
            .with("push"@, Option::<NotificationFlag>::encoded(m.push))
            .with("desktop"@, Option::<NotificationFlag>::encoded(m.desktop))
            .with("desktop_sound"@, Option::<BoolishFlag>::encoded(m.desktop_sound))
            .with("mention_keys"@, Option::<String>::encoded(m.mention_keys))
            .with("channel"@, Option::<BoolishFlag>::encoded(m.channel))
            .with("first_name"@, Option::<BoolishFlag>::encoded(m.first_name))
    }

    open spec fn decoded(tree: Json) -> Option<UserNotifyPropsModel> {
        let email = field::<Option<BoolishFlag>>(tree, "email"@);
        let push = field::<Option<NotificationFlag>>(tree, "push"@);
        let desktop = field::<Option<NotificationFlag>>(tree, "desktop"@);
        let desktop_sound = field::<Option<BoolishFlag>>(tree, "desktop_sound"@);
        let mention_keys = field::<Option<String>>(tree, "mention_keys"@);
        let channel = field::<Option<BoolishFlag>>(tree, "channel"@);
        let first_name = field::<Option<BoolishFlag>>(tree, "first_name"@);
        if email is Some
            && push is Some
            && desktop is Some
            && desktop_sound is Some
            && mention_keys is Some
            && channel is Some
            && first_name is Some {
            Some(
                UserNotifyPropsModel {
                    email: email->0,
                    push: push->0,
                    desktop: desktop->0,
                    desktop_sound: desktop_sound->0,
                    mention_keys: mention_keys->0,
                    channel: channel->0,
                    first_name: first_name->0,
                },
            )
        } else {
            None
        }
    }

    open spec fn rejects(tree: Json, fault: FaultModel) -> bool {
        if field::<Option<BoolishFlag>>(tree, "email"@) is None {
            field_rejects::<Option<BoolishFlag>>(tree, "email"@, fault)
        } else if field::<Option<NotificationFlag>>(tree, "push"@) is None {
            field_rejects::<Option<NotificationFlag>>(tree, "push"@, fault)
        } else if field::<Option<NotificationFlag>>(tree, "desktop"@) is None {
            field_rejects::<Option<NotificationFlag>>(tree, "desktop"@, fault)
        } else if field::<Option<BoolishFlag>>(tree, "desktop_sound"@) is None {
            field_rejects::<Option<BoolishFlag>>(tree, "desktop_sound"@, fault)
        } else if field::<Option<String>>(tree, "mention_keys"@) is None {
            field_rejects::<Option<String>>(tree, "mention_keys"@, fault)
        } else if field::<Option<BoolishFlag>>(tree, "channel"@) is None {
            field_rejects::<Option<BoolishFlag>>(tree, "channel"@, fault)
        } else if field::<Option<BoolishFlag>>(tree, "first_name"@) is None {
            field_rejects::<Option<BoolishFlag>>(tree, "first_name"@, fault)
        } else {
            false
        }
    }

    open spec fn if_absent() -> Option<UserNotifyPropsModel> {
        None
    }

    fn label() -> (r: String) {
        "UserNotifyProps".to_owned()
    }

    fn to_value(&self) -> (v: Value) {
        let mut obj = empty_object();
        object_insert(&mut obj, "email".to_owned(), self.email.to_value());
        object_insert(&mut obj, "push".to_owned(), self.push.to_value());
        object_insert(&mut obj, "desktop".to_owned(), self.desktop.to_value());
        object_insert(&mut obj, "desktop_sound".to_owned(), self.desktop_sound.to_value());
        object_insert(&mut obj, "mention_keys".to_owned(), self.mention_keys.to_value());
        object_insert(&mut obj, "channel".to_owned(), self.channel.to_value());
        object_insert(&mut obj, "first_name".to_owned(), self.first_name.to_value());
        obj
    }

    fn from_value(v: &Value) -> (r: Result<Self, Fault>) {
        let email = read_field::<Option<BoolishFlag>>(v, "email")?;
        let push = read_field::<Option<NotificationFlag>>(v, "push")?;
        let desktop = read_field::<Option<NotificationFlag>>(v, "desktop")?;
        let desktop_sound = read_field::<Option<BoolishFlag>>(v, "desktop_sound")?;
        let mention_keys = read_field::<Option<String>>(v, "mention_keys")?;
        let channel = read_field::<Option<BoolishFlag>>(v, "channel")?;
        let first_name = read_field::<Option<BoolishFlag>>(v, "first_name")?;
        Ok(
            UserNotifyProps {
                email,
                push,
                desktop,
                desktop_sound,
                mention_keys,
                channel,
                first_name,
            },
        )
    }

    fn absent() -> (r: Option<Self>) {
        None
    }

    proof fn lemma_round_trip(m: UserNotifyPropsModel) {
        reveal_strlit("email");
        reveal_strlit("push");
        reveal_strlit("desktop");
        reveal_strlit("desktop_sound");
        reveal_strlit("mention_keys");
        reveal_strlit("channel");
        reveal_strlit("first_name");
        assert("email"@.len() == 5);
        assert("push"@.len() == 4);
        assert("desktop_sound"@.len() == 13);
        assert("mention_keys"@.len() == 12);
        assert("first_name"@.len() == 10);
        assert("desktop"@.len() == 7 && "desktop"@[0] == 'd');
        assert("channel"@.len() == 7 && "channel"@[0] == 'c');
        Option::<BoolishFlag>::lemma_round_trip(m.email);
        Option::<NotificationFlag>::lemma_round_trip(m.push);
        Option::<NotificationFlag>::lemma_round_trip(m.desktop);
        Option::<BoolishFlag>::lemma_round_trip(m.desktop_sound);
        Option::<String>::lemma_round_trip(m.mention_keys);
        Option::<BoolishFlag>::lemma_round_trip(m.channel);
        Option::<BoolishFlag>::lemma_round_trip(m.first_name);
    }

    proof fn lemma_rejects_rejected(tree: Json, fault: FaultModel) {
    }
}

/// A text that some servers send as a JSON boolean instead: `true` and
/// `false` are read as the texts `"true"` and `"false"`.
#[derive(Clone, Debug, PartialEq, Eq)]
pub struct TextOrBool(pub String);

impl Wire for TextOrBool {
    type Model = Seq<char>;

    open spec fn name() -> Seq<char> {
        "string"@
    }

    open spec fn model(&self) -> Seq<char> {
        self.0@
    }

    open spec fn valid(m: Seq<char>) -> bool {
        true
    }

    open spec fn encoded(m: Seq<char>) -> Json {
        Json::Str(m)
    }

    open spec fn decoded(tree: Json) -> Option<Seq<char>> {
        match tree {
            Json::Str(text) => Some(text),
            Json::Bool(b) => Some(
                if b {
                    "true"@
                } else {
                    "false"@
                },
            ),
            _ => None,
        }
    }

    open spec fn rejects(tree: Json, fault: FaultModel) -> bool {
        Self::decoded(tree) is None && fault == FaultModel::here(FaultKind::Mismatch)
    }

    open spec fn if_absent() -> Option<Seq<char>> {
        None
    }

    fn label() -> (r: String) {
        "string".to_owned()
    }

    fn to_value(&self) -> (v: Value) {
        string_value(self.0.clone())
    }

    fn from_value(v: &Value) -> (r: Result<Self, Fault>) {
        match value_str(v) {
            Some(text) => Ok(TextOrBool(text.to_owned())),
            None => match value_bool(v) {
                Some(true) => Ok(TextOrBool("true".to_owned())),
                Some(false) => Ok(TextOrBool("false".to_owned())),
                None => Err(Fault::here(FaultKind::Mismatch)),
            },
        }
    }

    fn absent() -> (r: Option<Self>) {
        None
    }

    proof fn lemma_round_trip(m: Seq<char>) {
    }

    proof fn lemma_rejects_rejected(tree: Json, fault: FaultModel) {
    }
}

/// A user's timezone settings.
///
/// The keys of its wire form are in camel case. `use_automatic_timezone` is
/// read from a string or from a boolean, and always written as a string.
#[derive(Clone, Debug, PartialEq, Eq)]
pub struct Timezone {
    pub use_automatic_timezone: String,
    pub manual_timezone: String,
    pub automatic_timezone: String,
}

/// What a [`Timezone`] stands for.
pub struct TimezoneModel {
    pub use_automatic_timezone: Seq<char>,
    pub manual_timezone: Seq<char>,
    pub automatic_timezone: Seq<char>,
}

impl Wire for Timezone {
    type Model = TimezoneModel;

    open spec fn name() -> Seq<char> {
        "Timezone"@
    }

    open spec fn model(&self) -> TimezoneModel {
        TimezoneModel {
            use_automatic_timezone: self.use_automatic_timezone@,
            manual_timezone: self.manual_timezone.model(),
            automatic_timezone: self.automatic_timezone.model(),
        }
    }

    open spec fn valid(m: TimezoneModel) -> bool {
        true
    }

    open spec fn encoded(m: TimezoneModel) -> Json {
        Json::empty_object()
            .with("useAutomaticTimezone"@, TextOrBool::encoded(m.use_automatic_timezone))
            .with("manualTimezone"@, String::encoded(m.manual_timezone))
            .with("automaticTimezone"@, String::encoded(m.automatic_timezone))
    }

    open spec fn decoded(tree: Json) -> Option<TimezoneModel> {
        let use_automatic_timezone = field::<TextOrBool>(tree, "useAutomaticTimezone"@);
        let manual_timezone = field::<String>(tree, "manualTimezone"@);
        let automatic_timezone = field::<String>(tree, "automaticTimezone"@);
        if use_automatic_timezone is Some
            && manual_timezone is Some
            && automatic_timezone is Some {
            Some(
                TimezoneModel {
                    use_automatic_timezone: use_automatic_timezone->0,
                    manual_timezone: manual_timezone->0,
                    automatic_timezone: automatic_timezone->0,
                },
            )
        } else {
            None
        }
    }

    open spec fn rejects(tree: Json, fault: FaultModel) -> bool {
        if field::<TextOrBool>(tree, "useAutomaticTimezone"@) is None {
            field_rejects::<TextOrBool>(tree, "useAutomaticTimezone"@, fault)
        } else if field::<String>(tree, "manualTimezone"@) is None {
            field_rejects::<String>(tree, "manualTimezone"@, fault)
        } else if field::<String>(tree, "automaticTimezone"@) is None {
            field_rejects::<String>(tree, "automaticTimezone"@, fault)
        } else {
            false
        }
    }

    open spec fn if_absent() -> Option<TimezoneModel> {
        None
    }

    fn label() -> (r: String) {
        "Timezone".to_owned()
    }

    fn to_value(&self) -> (v: Value) {
        let mut obj = empty_object();
        object_insert(
            &mut obj,
            "useAutomaticTimezone".to_owned(),
            self.use_automatic_timezone.to_value(),
        );
        object_insert(&mut obj, "manualTimezone".to_owned(), self.manual_timezone.to_value());
        object_insert(&mut obj, "automaticTimezone".to_owned(), self.automatic_timezone.to_value());
        obj
    }

    fn from_value(v: &Value) -> (r: Result<Self, Fault>) {
        let use_automatic_timezone = read_field::<TextOrBool>(v, "useAutomaticTimezone")?.0;
        let manual_timezone = read_field::<String>(v, "manualTimezone")?;
        let automatic_timezone = read_field::<String>(v, "automaticTimezone")?;
        Ok(Timezone { use_automatic_timezone, manual_timezone, automatic_timezone })
    }

    fn absent() -> (r: Option<Self>) {
        None
    }

    proof fn lemma_round_trip(m: TimezoneModel) {
        reveal_strlit("useAutomaticTimezone");
        reveal_strlit("manualTimezone");
        reveal_strlit("automaticTimezone");
        assert("useAutomaticTimezone"@.len() == 20);
        assert("manualTimezone"@.len() == 14);
        assert("automaticTimezone"@.len() == 17);
    }

    proof fn lemma_rejects_rejected(tree: Json, fault: FaultModel) {
    }
}

/// A user.
///
/// Servers of different generations leave different parts out: every part
/// that some generation omits is optional here.
#[derive(Clone, Debug, PartialEq, Eq)]
pub struct User {
    pub id: String,
    pub create_at: i64,
    pub update_at: i64,
    pub delete_at: i64,
    pub username: String,
    pub first_name: String,
    pub last_name: String,
    pub email: String,
    pub email_verified: Option<String>,
    pub auth_service: String,
    pub roles: String,
    pub locale: String,
    pub notify_props: Option<UserNotifyProps>,
    pub props: Option<Value>,
    pub last_password_update: Option<i64>,
    pub last_picture_update: Option<i64>,
    pub failed_attemps: Option<i64>,
    pub mfa_active: Option<bool>,
    pub timezone: Timezone,
    pub terms_of_service_id: Option<String>,
    pub terms_of_service_create_at: Option<i64>,
}

/// What a [`User`] stands for.
pub struct UserModel {
    pub id: Seq<char>,
    pub create_at: i64,
    pub update_at: i64,
    pub delete_at: i64,
    pub username: Seq<char>,
    pub first_name: Seq<char>,
    pub last_name: Seq<char>,
    pub email: Seq<char>,
    pub email_verified: Option<Seq<char>>,
    pub auth_service: Seq<char>,
    pub roles: Seq<char>,
    pub locale: Seq<char>,
    pub notify_props: Option<UserNotifyPropsModel>,
    pub props: Option<Json>,
    pub last_password_update: Option<i64>,
    pub last_picture_update: Option<i64>,
    pub failed_attemps: Option<i64>,
    pub mfa_active: Option<bool>,
    pub timezone: TimezoneModel,
    pub terms_of_service_id: Option<Seq<char>>,
    pub terms_of_service_create_at: Option<i64>,
}

impl Wire for User {
    type Model = UserModel;

    open spec fn name() -> Seq<char> {
        "User"@
    }

    open spec fn model(&self) -> UserModel {
        UserModel {
            id: self.id.model(),
            create_at: self.create_at.model(),
            update_at: self.update_at.model(),
            delete_at: self.delete_at.model(),
            username: self.username.model(),
            first_name: self.first_name.model(),
            last_name: self.last_name.model(),
            email: self.email.model(),
            email_verified: self.email_verified.model(),
            auth_service: self.auth_service.model(),
            roles: self.roles.model(),
            locale: self.locale.model(),
            notify_props: self.notify_props.model(),
            props: self.props.model(),
            last_password_update: self.last_password_update.model(),
            last_picture_update: self.last_picture_update.model(),
            failed_attemps: self.failed_attemps.model(),
            mfa_active: self.mfa_active.model(),
            timezone: self.timezone.model(),
            terms_of_service_id: self.terms_of_service_id.model(),
            terms_of_service_create_at: self.terms_of_service_create_at.model(),
        }
    }

    open spec fn valid(m: UserModel) -> bool {
        Option::<Value>::valid(m.props)
    }

    open spec fn encoded(m: UserModel) -> Json {
        Json::empty_object()
            .with("id"@, String::encoded(m.id))
            .with("create_at"@, i64::encoded(m.create_at))
            .with("update_at"@, i64::encoded(m.update_at))
            .with("delete_at"@, i64::encoded(m.delete_at))
            .with("username"@, String::encoded(m.username))
            .with("first_name"@, String::encoded(m.first_name))
            .with("last_name"@, String::encoded(m.last_name))
            .with("email"@, String::encoded(m.email))
            .with("email_verified"@, Option::<String>::encoded(m.email_verified))
            .with("auth_service"@, String::encoded(m.auth_service))
            .with("roles"@, String::encoded(m.roles))
            .with("locale"@, String::encoded(m.locale))
            .with("notify_props"@, Option::<UserNotifyProps>::encoded(m.notify_props))
            .with("props"@, Option::<Value>::encoded(m.props))
            .with("last_password_update"@, Option::<i64>::encoded(m.last_password_update))
            .with("last_picture_update"@, Option::<i64>::encoded(m.last_picture_update))
            .with("failed_attemps"@, Option::<i64>::encoded(m.failed_attemps))
            .with("mfa_active"@, Option::<bool>::encoded(m.mfa_active))
            .with("timezone"@, Timezone::encoded(m.timezone))
            .with("terms_of_service_id"@, Option::<String>::encoded(m.terms_of_service_id))
            .with(
                "terms_of_service_create_at"@,
                Option::<i64>::encoded(m.terms_of_service_create_at),
            )
    }

    open spec fn decoded(tree: Json) -> Option<UserModel> {
        let id = field::<String>(tree, "id"@);
        let create_at = field::<i64>(tree, "create_at"@);
        let update_at = field::<i64>(tree, "update_at"@);
        let delete_at = field::<i64>(tree, "delete_at"@);
        let username = field::<String>(tree, "username"@);
        let first_name = field::<String>(tree, "first_name"@);
        let last_name = field::<String>(tree, "last_name"@);
        let email = field::<String>(tree, "email"@);
        let email_verified = field::<Option<String>>(tree, "email_verified"@);
        let auth_service = field::<String>(tree, "auth_service"@);
        let roles = field::<String>(tree, "roles"@);
        let locale = field::<String>(tree, "locale"@);
        let notify_props = field::<Option<UserNotifyProps>>(tree, "notify_props"@);
        let props = field::<Option<Value>>(tree, "props"@);
        let last_password_update = field::<Option<i64>>(tree, "last_password_update"@);
        let last_picture_update = field::<Option<i64>>(tree, "last_picture_update"@);
        let failed_attemps = field::<Option<i64>>(tree, "failed_attemps"@);
        let mfa_active = field::<Option<bool>>(tree, "mfa_active"@);
        let timezone = field::<Timezone>(tree, "timezone"@);
        let terms_of_service_id = field::<Option<String>>(tree, "terms_of_service_id"@);
        let terms_of_service_create_at = field::<Option<i64>>(tree, "terms_of_service_create_at"@);
        if id is Some
            && create_at is Some
            && update_at is Some
            && delete_at is Some
            && username is Some
            && first_name is Some
            && last_name is Some
            && email is Some
            && email_verified is Some
            && auth_service is Some
            && roles is Some
            && locale is Some
            && notify_props is Some
            && props is Some
            && last_password_update is Some
            && last_picture_update is Some
            && failed_attemps is Some
            && mfa_active is Some
            && timezone is Some
            && terms_of_service_id is Some
            && terms_of_service_create_at is Some {
            Some(
                UserModel {
                    id: id->0,
                    create_at: create_at->0,
                    update_at: update_at->0,
                    delete_at: delete_at->0,
                    username: username->0,
                    first_name: first_name->0,
                    last_name: last_name->0,
                    email: email->0,
                    email_verified: email_verified->0,
                    auth_service: auth_service->0,
                    roles: roles->0,
                    locale: locale->0,
                    notify_props: notify_props->0,
                    props: props->0,
                    last_password_update: last_password_update->0,
                    last_picture_update: last_picture_update->0,
                    failed_attemps: failed_attemps->0,
                    mfa_active: mfa_active->0,
                    timezone: timezone->0,
                    terms_of_service_id: terms_of_service_id->0,
                    terms_of_service_create_at: terms_of_service_create_at->0,
                },
            )
        } else {
            None
        }
    }

    open spec fn rejects(tree: Json, fault: FaultModel) -> bool {
        if field::<String>(tree, "id"@) is None {
            field_rejects::<String>(tree, "id"@, fault)
        } else if field::<i64>(tree, "create_at"@) is None {
            field_rejects::<i64>(tree, "create_at"@, fault)
        } else if field::<i64>(tree, "update_at"@) is None {
            field_rejects::<i64>(tree, "update_at"@, fault)
        } else if field::<i64>(tree, "delete_at"@) is None {
            field_rejects::<i64>(tree, "delete_at"@, fault)
        } else if field::<String>(tree, "username"@) is None {
            field_rejects::<String>(tree, "username"@, fault)
        } else if field::<String>(tree, "first_name"@) is None {
            field_rejects::<String>(tree, "first_name"@, fault)
        } else if field::<String>(tree, "last_name"@) is None {
            field_rejects::<String>(tree, "last_name"@, fault)
        } else if field::<String>(tree, "email"@) is None {
            field_rejects::<String>(tree, "email"@, fault)
        } else if field::<Option<String>>(tree, "email_verified"@) is None {
            field_rejects::<Option<String>>(tree, "email_verified"@, fault)
        } else if field::<String>(tree, "auth_service"@) is None {
            field_rejects::<String>(tree, "auth_service"@, fault)
        } else if field::<String>(tree, "roles"@) is None {
            field_rejects::<String>(tree, "roles"@, fault)
        } else if field::<String>(tree, "locale"@) is None {
            field_rejects::<String>(tree, "locale"@, fault)
        } else if field::<Option<UserNotifyProps>>(tree, "notify_props"@) is None {
            field_rejects::<Option<UserNotifyProps>>(tree, "notify_props"@, fault)
        } else if field::<Option<Value>>(tree, "props"@) is None {
            field_rejects::<Option<Value>>(tree, "props"@, fault)
        } else if field::<Option<i64>>(tree, "last_password_update"@) is None {
            field_rejects::<Option<i64>>(tree, "last_password_update"@, fault)
        } else if field::<Option<i64>>(tree, "last_picture_update"@) is None {
            field_rejects::<Option<i64>>(tree, "last_picture_update"@, fault)
        } else if field::<Option<i64>>(tree, "failed_attemps"@) is None {
            field_rejects::<Option<i64>>(tree, "failed_attemps"@, fault)
        } else if field::<Option<bool>>(tree, "mfa_active"@) is None {
            field_rejects::<Option<bool>>(tree, "mfa_active"@, fault)
        } else if field::<Timezone>(tree, "timezone"@) is None {
            field_rejects::<Timezone>(tree, "timezone"@, fault)
        } else if field::<Option<String>>(tree, "terms_of_service_id"@) is None {
            field_rejects::<Option<String>>(tree, "terms_of_service_id"@, fault)
        } else if field::<Option<i64>>(tree, "terms_of_service_create_at"@) is None {
            field_rejects::<Option<i64>>(tree, "terms_of_service_create_at"@, fault)
        } else {
            false
        }
    }

    open spec fn if_absent() -> Option<UserModel> {
        None
    }

    fn label() -> (r: String) {
        "User".to_owned()
    }

    fn to_value(&self) -> (v: Value) {
        let mut obj = empty_object();
        object_insert(&mut obj, "id".to_owned(), self.id.to_value());
        object_insert(&mut obj, "create_at".to_owned(), self.create_at.to_value());
        object_insert(&mut obj, "update_at".to_owned(), self.update_at.to_value());
        object_insert(&mut obj, "delete_at".to_owned(), self.delete_at.to_value());
        object_insert(&mut obj, "username".to_owned(), self.username.to_value());
        object_insert(&mut obj, "first_name".to_owned(), self.first_name.to_value());
        object_insert(&mut obj, "last_name".to_owned(), self.last_name.to_value());
        object_insert(&mut obj, "email".to_owned(), self.email.to_value());
        object_insert(&mut obj, "email_verified".to_owned(), self.email_verified.to_value());
        object_insert(&mut obj, "auth_service".to_owned(), self.auth_service.to_value());
        object_insert(&mut obj, "roles".to_owned(), self.roles.to_value());
        object_insert(&mut obj, "locale".to_owned(), self.locale.to_value());
        object_insert(&mut obj, "notify_props".to_owned(), self.notify_props.to_value());
        object_insert(&mut obj, "props".to_owned(), self.props.to_value());
        object_insert(
            &mut obj,
            "last_password_update".to_owned(),
            self.last_password_update.to_value(),
        );
        object_insert(
            &mut obj,
            "last_picture_update".to_owned(),
            self.last_picture_update.to_value(),
        );
        object_insert(&mut obj, "failed_attemps".to_owned(), self.failed_attemps.to_value());
        object_insert(&mut obj, "mfa_active".to_owned(), self.mfa_active.to_value());
        object_insert(&mut obj, "timezone".to_owned(), self.timezone.to_value());
        object_insert(
            &mut obj,
            "terms_of_service_id".to_owned(),
            self.terms_of_service_id.to_value(),
        );
        object_insert(
            &mut obj,
            "terms_of_service_create_at".to_owned(),
            self.terms_of_service_create_at.to_value(),
        );
        obj
    }

    fn from_value(v: &Value) -> (r: Result<Self, Fault>) {
        let id = read_field::<String>(v, "id")?;
        let create_at = read_field::<i64>(v, "create_at")?;
        let update_at = read_field::<i64>(v, "update_at")?;
        let delete_at = read_field::<i64>(v, "delete_at")?;
        let username = read_field::<String>(v, "username")?;
        let first_name = read_field::<String>(v, "first_name")?;
        let last_name = read_field::<String>(v, "last_name")?;
        let email = read_field::<String>(v, "email")?;
        let email_verified = read_field::<Option<String>>(v, "email_verified")?;
        let auth_service = read_field::<String>(v, "auth_service")?;
        let roles = read_field::<String>(v, "roles")?;
        let locale = read_field::<String>(v, "locale")?;
        let notify_props = read_field::<Option<UserNotifyProps>>(v, "notify_props")?;
        let props = read_field::<Option<Value>>(v, "props")?;
        let last_password_update = read_field::<Option<i64>>(v, "last_password_update")?;
        let last_picture_update = read_field::<Option<i64>>(v, "last_picture_update")?;
        let failed_attemps = read_field::<Option<i64>>(v, "failed_attemps")?;
        let mfa_active = read_field::<Option<bool>>(v, "mfa_active")?;
        let timezone = read_field::<Timezone>(v, "timezone")?;
        let terms_of_service_id = read_field::<Option<String>>(v, "terms_of_service_id")?;
        let terms_of_service_create_at = read_field::<Option<i64>>(v, "terms_of_service_create_at")?;
        Ok(
            User {
                id,
                create_at,
                update_at,
                delete_at,
                username,
                first_name,
                last_name,
                email,
                email_verified,
                auth_service,
                roles,
                locale,
                notify_props,
                props,
                last_password_update,
                last_picture_update,
                failed_attemps,
                mfa_active,
                timezone,
                terms_of_service_id,
                terms_of_service_create_at,
            },
        )
    }

    fn absent() -> (r: Option<Self>) {
        None
    }

    proof fn lemma_round_trip(m: UserModel) {
        reveal_strlit("id");
        reveal_strlit("create_at");
        reveal_strlit("update_at");
        reveal_strlit("delete_at");
        reveal_strlit("username");
        reveal_strlit("first_name");
        reveal_strlit("last_name");
        reveal_strlit("email");
        reveal_strlit("email_verified");
        reveal_strlit("auth_service");
        reveal_strlit("roles");
        reveal_strlit("locale");
        reveal_strlit("notify_props");
        reveal_strlit("props");
        reveal_strlit("last_password_update");
        reveal_strlit("last_picture_update");
        reveal_strlit("failed_attemps");
        reveal_strlit("mfa_active");
        reveal_strlit("timezone");
        reveal_strlit("terms_of_service_id");
        reveal_strlit("terms_of_service_create_at");
        assert("id"@.len() == 2);
        assert("locale"@.len() == 6);
        assert("last_password_update"@.len() == 20);
        assert("terms_of_service_create_at"@.len() == 26);
        assert("email"@.len() == 5 && "email"@[0] == 'e');
        assert("roles"@.len() == 5 && "roles"@[0] == 'r');
        assert("props"@.len() == 5 && "props"@[0] == 'p');
        assert("username"@.len() == 8 && "username"@[0] == 'u');
        assert("timezone"@.len() == 8 && "timezone"@[0] == 't');
        assert("create_at"@.len() == 9 && "create_at"@[0] == 'c');
        assert("update_at"@.len() == 9 && "update_at"@[0] == 'u');
        assert("delete_at"@.len() == 9 && "delete_at"@[0] == 'd');
        assert("last_name"@.len() == 9 && "last_name"@[0] == 'l');
        assert("first_name"@.len() == 10 && "first_name"@[0] == 'f');
        assert("mfa_active"@.len() == 10 && "mfa_active"@[0] == 'm');
        assert("auth_service"@.len() == 12 && "auth_service"@[0] == 'a');
        assert("notify_props"@.len() == 12 && "notify_props"@[0] == 'n');
        assert("email_verified"@.len() == 14 && "email_verified"@[0] == 'e');
        assert("failed_attemps"@.len() == 14 && "failed_attemps"@[0] == 'f');
        assert("last_picture_update"@.len() == 19 && "last_picture_update"@[0] == 'l');
        assert("terms_of_service_id"@.len() == 19 && "terms_of_service_id"@[0] == 't');
        let tree = Self::encoded(m);
        assert(tree.member("id"@) == Some(String::encoded(m.id)));
        assert(tree.member("create_at"@) == Some(i64::encoded(m.create_at)));
        assert(tree.member("update_at"@) == Some(i64::encoded(m.update_at)));
        assert(tree.member("delete_at"@) == Some(i64::encoded(m.delete_at)));
        assert(tree.member("username"@) == Some(String::encoded(m.username)));
        assert(tree.member("first_name"@) == Some(String::encoded(m.first_name)));
        assert(tree.member("last_name"@) == Some(String::encoded(m.last_name)));
        assert(tree.member("email"@) == Some(String::encoded(m.email)));
        assert(tree.member("email_verified"@) == Some(Option::<String>::encoded(m.email_verified)));
        assert(tree.member("auth_service"@) == Some(String::encoded(m.auth_service)));
        assert(tree.member("roles"@) == Some(String::encoded(m.roles)));
        assert(tree.member("locale"@) == Some(String::encoded(m.locale)));
        assert(tree.member("notify_props"@) == Some(
            Option::<UserNotifyProps>::encoded(m.notify_props),
        ));
        assert(tree.member("props"@) == Some(Option::<Value>::encoded(m.props)));
        assert(tree.member("last_password_update"@) == Some(
            Option::<i64>::encoded(m.last_password_update),
        ));
        assert(tree.member("last_picture_update"@) == Some(
            Option::<i64>::encoded(m.last_picture_update),
        ));
        assert(tree.member("failed_attemps"@) == Some(Option::<i64>::encoded(m.failed_attemps)));
        assert(tree.member("mfa_active"@) == Some(Option::<bool>::encoded(m.mfa_active)));
        assert(tree.member("timezone"@) == Some(Timezone::encoded(m.timezone)));
        assert(tree.member("terms_of_service_id"@) == Some(
            Option::<String>::encoded(m.terms_of_service_id),
        ));
        assert(tree.member("terms_of_service_create_at"@) == Some(
            Option::<i64>::encoded(m.terms_of_service_create_at),
        ));
        Option::<String>::lemma_round_trip(m.email_verified);
        Option::<UserNotifyProps>::lemma_round_trip(m.notify_props);
        Option::<Value>::lemma_round_trip(m.props);
        Option::<i64>::lemma_round_trip(m.last_password_update);
        Option::<i64>::lemma_round_trip(m.last_picture_update);
        Option::<i64>::lemma_round_trip(m.failed_attemps);
        Option::<bool>::lemma_round_trip(m.mfa_active);
        Timezone::lemma_round_trip(m.timezone);
        Option::<String>::lemma_round_trip(m.terms_of_service_id);
        Option::<i64>::lemma_round_trip(m.terms_of_service_create_at);
    }

    proof fn lemma_rejects_rejected(tree: Json, fault: FaultModel) {
    }
}

} // verus!
