//! Models of the entities of the REST API.

pub mod error;
pub mod post;
pub mod team;
pub mod thread;
pub mod user;

pub use self::error::{MattermostError, MattermostErrorModel};
pub use self::post::{
    Acknowledgement, AcknowledgementModel, CreatePost, CreatePostMetadata, CreatePostMetadataModel,
    CreatePostModel, DeleteReactionResponse, DeleteReactionResponseModel, Embed, EmbedModel, Emoji,
    EmojiModel, FileMetadata, FileMetadataModel, FileUploadResponse, FileUploadResponseModel,
    Metadata, MetadataModel, Post, PostModel, Priority, PriorityLevel, PriorityModel, Reaction,
    ReactionModel,
};
pub use self::team::{
    ChannelInformation, ChannelInformationModel, TeamInformation, TeamInformationModel,
    TeamsUnreadInformation, TeamsUnreadInformationModel,
};
pub use self::thread::{Thread, ThreadModel};
pub use self::user::{
    BoolishFlag, NotificationFlag, TextOrBool, Timezone, TimezoneModel, User, UserModel,
    UserNotifyProps, UserNotifyPropsModel,
};
