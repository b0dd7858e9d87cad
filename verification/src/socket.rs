//! Models of the events of the websocket API.

pub mod broadcast;
pub mod channel;
pub mod event;
pub mod dispatch;
pub mod kind;
pub mod payload;

pub use self::broadcast::{WebsocketEventBroadcast, WebsocketEventBroadcastModel};
pub use self::channel::{ChannelType, ChannelTypeModel};
pub use self::dispatch::{dispatch_frame, dispatch_frames, Dispatch, Dispatcher};
pub use self::event::{
    WebsocketEvent, WebsocketEventModel, WebsocketEventType, WebsocketEventTypeModel,
};
pub use self::kind::EventKind;
pub use self::payload::{
    HelloPayload, HelloPayloadModel, PostEditedPayload, PostEditedPayloadModel, PostedPayload,
    PostedPayloadModel, ReactionPayload, ReactionPayloadModel, TypingPayload, TypingPayloadModel,
};
