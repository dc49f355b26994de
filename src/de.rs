//! The response bodies of the post endpoints, as plain values.
use crate::attachment::AttachmentId;
use crate::post::{PostId, ProjectId};
use crate::time::Timestamp;
use vstd::prelude::*;

verus! {

/// A page of a project's posts.
#[derive(Debug)]
pub struct PostPage {
    /// The number of posts on the page.
    pub n_items: u64,
    /// The number of pages.
    pub n_pages: u64,
    /// The posts.
    pub items: Vec<Post>,
}

/// A post as the server describes it.
#[derive(Debug)]
pub struct Post {
    /// Attachment and markdown blocks.
    pub blocks: Vec<Block>,
    /// Whether the current account may publish this post.
    pub can_publish: bool,
    /// Whether the current account may share this post.
    pub can_share: bool,
    /// Whether comments are locked.
    pub comments_locked: bool,
    /// Whether a block stands between the current account and a contributor.
    pub contributor_block_incoming_or_outgoing: bool,
    /// Content warnings.
    pub cws: Vec<String>,
    /// Whether the post counts as adult content.
    pub effective_adult_content: bool,
    /// The post's file name.
    pub filename: String,
    /// Whether any contributor is muted by the current account.
    pub has_any_contributor_muted: bool,
    /// Whether paid features were available to the poster.
    pub has_cohost_plus: bool,
    /// Post headline.
    pub headline: String,
    /// Whether the current account may edit this post.
    pub is_editor: bool,
    /// Whether the current account has liked this post.
    pub is_liked: bool,
    /// The number of comments.
    pub num_comments: u64,
    /// The number of comments elsewhere in the share tree.
    pub num_shared_comments: u64,
    /// Whether the post is pinned.
    pub pinned: bool,
    /// The markdown body.
    pub plain_text_body: String,
    /// Where the post is edited.
    pub post_edit_url: String,
    /// The post's ID.
    pub post_id: PostId,
    /// The project that posted it.
    pub posting_project: PostingProject,
    /// When it was published.
    pub published_at: Timestamp,
    /// The projects involved in the post.
    pub related_projects: Vec<PostingProject>,
    /// The posts of this post's branch of the share tree.
    pub share_tree: Vec<Post>,
    /// Where the post can be viewed.
    pub single_post_page_url: String,
    /// 0 for a draft, 1 for a published post.
    pub state: u64,
    /// Tags.
    pub tags: Vec<String>,
    /// The post that this one shares without adding content, if any.
    pub transparent_share_of_post_id: Option<PostId>,
}

/// A project as the server describes it.
#[derive(Debug)]
pub struct PostingProject {
    /// The unique handle.
    pub handle: String,
    /// The display name.
    pub display_name: Option<String>,
    /// The short description.
    pub dek: Option<String>,
    /// The long description.
    pub description: Option<String>,
    /// The avatar's URL.
    pub avatar_url: String,
    /// The avatar preview's URL.
    pub avatar_preview_url: String,
    /// The project's ID.
    pub project_id: ProjectId,
    /// The privacy setting.
    pub privacy: String,
    /// The pronouns.
    pub pronouns: Option<String>,
    /// The project's URL.
    pub url: Option<String>,
    /// The avatar's shape.
    pub avatar_shape: String,
}

/// One unit of a post body.
#[derive(Debug)]
pub enum Block {
    /// An attachment.
    Attachment {
        /// The attachment.
        attachment: Attachment,
    },
    /// A markdown paragraph.
    Markdown {
        /// The paragraph.
        markdown: Markdown,
    },
}

/// An uploaded attachment as the server describes it.
#[derive(Debug)]
pub struct Attachment {
    /// Alt text.
    pub alt_text: Option<String>,
    /// The attachment's ID.
    pub attachment_id: AttachmentId,
    /// The CDN URL of the file.
    pub file_url: String,
    /// The CDN URL of the preview.
    pub preview_url: String,
}

/// A markdown paragraph.
#[derive(Debug)]
pub struct Markdown {
    /// The paragraph's text.
    pub content: String,
}

/// The response to a create or edit request.
#[derive(Debug, Clone, Copy, PartialEq, Eq, Structural)]
pub struct PostResponse {
    /// The ID of the created or edited post.
    pub post_id: PostId,
}

} // verus!
