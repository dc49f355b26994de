//! The request bodies of the post endpoints, as plain values.
use crate::post::PostId;
use vstd::prelude::*;

verus! {

/// The body of a create or edit request.
#[derive(Debug)]
pub struct Post {
    /// Marks the post as adult content.
    pub adult_content: bool,
    /// The attachment blocks, then the markdown blocks.
    pub blocks: Vec<Block>,
    /// Content warnings.
    pub cws: Vec<String>,
    /// Post headline.
    pub headline: String,
    /// 0 for a draft, 1 for a published post.
    pub post_state: u64,
    /// The post that this one shares, if any; omitted from the body when absent.
    pub share_of_post_id: Option<PostId>,
    /// Tags.
    pub tags: Vec<String>,
}

/// One unit of a post body.
#[derive(Debug)]
pub enum Block {
    /// A reference to an attachment.
    Attachment {
        /// The attachment reference.
        attachment: Attachment,
    },
    /// One paragraph of markdown.
    Markdown {
        /// The markdown paragraph.
        markdown: Markdown,
    },
}

/// A reference to an attachment in a post body.
#[derive(Debug)]
pub struct Attachment {
    /// Alt text of the attachment.
    pub alt_text: Option<String>,
    /// The canonical form of the attachment's ID, or the empty string while it is not uploaded.
    pub attachment_id: String,
}

/// One paragraph of markdown in a post body.
#[derive(Debug)]
pub struct Markdown {
    /// The paragraph's text.
    pub content: String,
}

} // verus!
