//! A client library for a social-posting web service: the publish protocol for posts with
//! media attachments, the attachment upload state machine, and login key derivation.
//!
//! Network transport lives outside this crate. The functions here decide what to send and how
//! to interpret what came back; their behaviour is stated in their contracts.

mod ask;
mod attachment;
mod credentials;
pub mod de;
mod error;
mod post;
mod publish;
pub mod ser;
mod text;
mod time;

pub use crate::ask::{Ask, AskId, Asker};
pub use crate::attachment::{
    file_metadata, wants_dimensions, Attachment, AttachmentId, AttachmentState, Content, Finished, MediaMetadata, Pending,
};
pub use crate::error::Error;
pub use crate::post::{Post, PostId, PostLocations, PostMetadata, ProjectId};
pub use crate::text::{split_paragraphs, with_trailing_slash};
pub use crate::time::Timestamp;
pub use crate::publish::{
    finish_path_of, post_path_of, posts_path_of, Action, Event, Method, Phase, Publish, Request,
};
pub use crate::credentials::{
    client_hash, decode_salt, derive_client_hash, hash_password, PBKDF2_ITERATIONS, PBKDF2_KEY_LENGTH,
};
