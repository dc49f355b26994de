use crate::attachment::{id_text, Attachment, AttachmentState, Finished};
use crate::de;
use crate::error::Error;
use crate::ser;
use crate::text::{paragraphs, split_paragraphs, views};
use crate::time::Timestamp;
use vstd::prelude::*;

verus! {

/// A post ID.
#[derive(Clone, Copy, Debug, Default, PartialEq, Eq, Structural, Hash, PartialOrd, Ord)]
pub struct PostId(pub u64);

/// A project ID.
#[derive(Clone, Copy, Debug, Default, PartialEq, Eq, Structural, Hash, PartialOrd, Ord)]
pub struct ProjectId(pub u64);

/// Describes a post's contents.
///
/// Sending a post needs it mutable: its attachments are updated with the ID and URL that the
/// upload assigned.
#[derive(Debug)]
pub struct Post {
    /// Marks the post as adult content.
    pub adult_content: bool,
    /// Post headline, which is displayed above attachments and markdown.
    pub headline: String,
    /// List of attachments, displayed between the headline and markdown.
    pub attachments: Vec<Attachment>,
    /// Markdown content for the post, displayed after the headline and attachments.
    pub markdown: String,
    /// List of tags.
    pub tags: Vec<String>,
    /// List of content warnings.
    pub content_warnings: Vec<String>,
    /// Marks the post as a draft, preventing it from being seen by other users without the
    /// draft link.
    pub draft: bool,
    /// Metadata returned by the server for posts retrieved from the API.
    pub metadata: Option<PostMetadata>,
}

/// Metadata returned by the server for posts retrieved from post pages.
#[derive(Debug)]
pub struct PostMetadata {
    /// All identifiers regarding where this post can be found.
    pub locations: PostLocations,
    /// True if the client has permission to share this post.
    pub can_share: bool,
    /// True if adding new comments is disabled on this post.
    pub comments_locked: bool,
    /// True if any contributor to the post is muted by the current account.
    pub has_any_contributor_muted: bool,
    /// True if paid features were available to the poster.
    pub has_cohost_plus: bool,
    /// True if the current account has liked this post.
    pub liked: bool,
    /// The number of comments on this post.
    pub num_comments: u64,
    /// The number of comments on other posts in this post's branch of the share tree.
    pub num_shared_comments: u64,
    /// True if this post is pinned to its author's profile.
    pub pinned: bool,
    /// The handle of the project that posted this post.
    pub posting_project_id: String,
    /// The time at which the post was published.
    pub publication_date: Timestamp,
    /// A list of the handles of all the projects involved in this post.
    pub related_projects: Vec<String>,
    /// A list of all the posts in this post's branch of the share tree.
    pub share_tree: Vec<Post>,
}

/// All identifying information about where to find a post, from its ID to how to edit it.
#[derive(Debug, Clone)]
pub struct PostLocations {
    /// The unique numerical ID of the post.
    pub id: PostId,
    /// The filename of the post, excluding the protocol, domain, and project.
    pub filename: String,
    /// The complete URL at which this post can be viewed.
    pub url: String,
    /// The location at which this post can be edited.
    pub edit_url: String,
}

/// A post with no headline, no attachments and no markdown.
pub open spec fn is_empty_post(p: Post) -> bool {
    p.attachments@.len() == 0 && p.headline@.len() == 0 && p.markdown@.len() == 0
}

/// Some attachment of `p` has not been uploaded yet.
pub open spec fn needs_upload(p: Post) -> bool {
    exists|i: int| 0 <= i < p.attachments@.len() && (#[trigger] p.attachments@[i]).state is New
}

/// Some attachment of `p` has failed to upload.
pub open spec fn has_failed(p: Post) -> bool {
    exists|i: int| 0 <= i < p.attachments@.len() && (#[trigger] p.attachments@[i]).state is Failed
}

/// Whether `p` may be sent, sharing `shared` if that is present, and if so whether it has
/// attachments to upload. An empty post may only be sent as a share; a post with a failed
/// attachment never.
pub open spec fn validate(p: Post, shared: Option<PostId>) -> Result<bool, Error> {
    if is_empty_post(p) && shared is None {
        Err(Error::EmptyPost)
    } else if has_failed(p) {
        Err(Error::FailedAttachment)
    } else {
        Ok(needs_upload(p))
    }
}

/// The markdown blocks of a post body: one per paragraph, none for empty markdown.
pub open spec fn markdown_blocks(md: Seq<char>) -> Seq<Seq<char>> {
    if md.len() == 0 {
        Seq::empty()
    } else {
        paragraphs(md)
    }
}

/// The `post_state` of a body: draft (0) when forced or when the post is a draft, else
/// published (1).
pub open spec fn post_state(p: Post, force_draft: bool) -> u64 {
    if force_draft || p.draft {
        0
    } else {
        1
    }
}

/// Block `i` of `w` refers to attachment `a`, with its alt text and its ID text.
pub open spec fn refers_to(w: ser::Post, i: int, a: Attachment) -> bool {
    &&& w.blocks@[i] matches ser::Block::Attachment { attachment }
    &&& attachment.alt_text == a.alt_text
    &&& attachment.attachment_id@ == id_text(a)
}

/// Block `i` of `w` is markdown with text `m`.
pub open spec fn holds_markdown(w: ser::Post, i: int, m: Seq<char>) -> bool {
    &&& w.blocks@[i] matches ser::Block::Markdown { markdown }
    &&& markdown.content@ == m
}

/// `w` is the body for `p`: its fields copied, the post state as `post_state` says, one
/// attachment block per attachment in order, then one markdown block per paragraph in order.
pub open spec fn renders(w: ser::Post, p: Post, force_draft: bool, shared: Option<PostId>) -> bool {
    let n = p.attachments@.len();
    let md = markdown_blocks(p.markdown@);
    &&& w.adult_content == p.adult_content
    &&& w.cws@ == p.content_warnings@
    &&& w.headline@ == p.headline@
    &&& w.tags@ == p.tags@
    &&& w.post_state == post_state(p, force_draft)
    &&& w.share_of_post_id == shared
    &&& w.blocks@.len() == n + md.len()
    &&& forall|i: int| 0 <= i < n ==> refers_to(w, i, #[trigger] p.attachments@[i])
    &&& forall|j: int| 0 <= j < md.len() ==> holds_markdown(w, n + j, #[trigger] md[j])
}

/// A post with no headline, no markdown and no attachments cannot be sent on its own, and the
/// same post can be sent as a share of any post.
pub proof fn empty_post_needs_share(p: Post, shared: PostId)
    requires
        is_empty_post(p),
    ensures
        validate(p, None) matches Err(Error::EmptyPost),
        validate(p, Some(shared)) == Ok::<bool, Error>(false),
{
}

/// A post with a failed attachment cannot be sent, whatever else it holds and whether or not
/// it shares another post.
pub proof fn failed_attachment_blocks_send(p: Post, shared: Option<PostId>)
    requires
        has_failed(p),
    ensures
        validate(p, shared) matches Err(Error::FailedAttachment),
{
}

/// The attachment that the server's description of an uploaded attachment stands for.
pub open spec fn attachment_from_api(a: de::Attachment) -> Attachment {
    Attachment {
        state: AttachmentState::Uploaded(Finished { attachment_id: a.attachment_id, url: a.file_url }),
        alt_text: a.alt_text,
    }
}

/// The attachment of an attachment block; none for a markdown block.
pub open spec fn block_attachment(b: de::Block) -> Option<Attachment> {
    match b {
        de::Block::Attachment { attachment } => Some(attachment_from_api(attachment)),
        de::Block::Markdown { .. } => None,
    }
}

/// The attachments among `blocks`, in order.
pub open spec fn attachments_of(blocks: Seq<de::Block>) -> Seq<Attachment> {
    blocks.filter_map(|b: de::Block| block_attachment(b))
}

/// The handles of the projects involved in `api`: those it lists, or the posting project's
/// when it lists none.
pub open spec fn related_of(api: de::Post) -> Seq<String> {
    if api.related_projects@.len() == 0 {
        seq![api.posting_project.handle]
    } else {
        api.related_projects@.map_values(|p: de::PostingProject| p.handle)
    }
}

/// `p` is the post that the server's description `api` stands for, down its share tree.
pub open spec fn converted(api: de::Post, p: Post) -> bool
    decreases api,
{
    &&& p.adult_content == api.effective_adult_content
    &&& p.headline == api.headline
    &&& p.markdown == api.plain_text_body
    &&& p.tags@ == api.tags@
    &&& p.content_warnings@ == api.cws@
    &&& p.draft == (api.state == 0)
    &&& p.attachments@ == attachments_of(api.blocks@)
    &&& p.metadata matches Some(m)
    &&& m.locations == PostLocations {
        id: api.post_id,
        filename: api.filename,
        url: api.single_post_page_url,
        edit_url: api.post_edit_url,
    }
    &&& m.can_share == api.can_share
    &&& m.comments_locked == api.comments_locked
    &&& m.has_any_contributor_muted == api.has_any_contributor_muted
    &&& m.has_cohost_plus == api.has_cohost_plus
    &&& m.liked == api.is_liked
    &&& m.num_comments == api.num_comments
    &&& m.num_shared_comments == api.num_shared_comments
    &&& m.pinned == api.pinned
    &&& m.posting_project_id == api.posting_project.handle
    &&& m.publication_date == api.published_at
    &&& m.related_projects@ == related_of(api)
    &&& m.share_tree@.len() == api.share_tree@.len()
    &&& forall|i: int|
        0 <= i < api.share_tree@.len() ==> converted(#[trigger] api.share_tree@[i], m.share_tree@[i])
}

impl de::PostPage {
    /// The posts of the page, in order.
    pub fn into_posts(self) -> (r: Vec<Post>)
        ensures
            r@.len() == self.items@.len(),
            forall|i: int| 0 <= i < r@.len() ==> converted(#[trigger] self.items@[i], r@[i]),
    {
        let mut r: Vec<Post> = Vec::new();
        for i in 0..self.items.len()
            invariant
                r@.len() == i,
                forall|k: int| 0 <= k < i ==> converted(#[trigger] self.items@[k], r@[k]),
        {
            r.push(Post::from_api_ref(&self.items[i]));
        }
        r
    }
}

/// Copies a list of strings.
fn copy_strings(v: &Vec<String>) -> (r: Vec<String>)
    ensures
        r@ == v@,
{
    let mut r: Vec<String> = Vec::new();
    for i in 0..v.len()
        invariant
            r@ == v@.subrange(0, i as int),
    {
        r.push(v[i].clone());
        assert(r@ == v@.subrange(0, i + 1));
    }
    assert(v@.subrange(0, v@.len() as int) == v@);
    r
}

impl Default for Post {
    fn default() -> (r: Post)
        ensures
            !r.adult_content && !r.draft,
            r.headline@.len() == 0 && r.markdown@.len() == 0,
            r.attachments@.len() == 0 && r.tags@.len() == 0 && r.content_warnings@.len() == 0,
            r.metadata is None,
    {
        Post {
            adult_content: false,
            headline: String::new(),
            attachments: Vec::new(),
            markdown: String::new(),
            tags: Vec::new(),
            content_warnings: Vec::new(),
            draft: false,
            metadata: None,
        }
    }
}

impl Attachment {
    /// The attachment that the server's description of an uploaded attachment stands for.
    pub fn from_api(api: de::Attachment) -> (r: Attachment)
        ensures
            r == attachment_from_api(api),
    {
        Attachment {
            state: AttachmentState::Uploaded(Finished { attachment_id: api.attachment_id, url: api.file_url }),
            alt_text: api.alt_text,
        }
    }

    fn from_api_ref(api: &de::Attachment) -> (r: Attachment)
        ensures
            r == attachment_from_api(*api),
    {
        let alt_text = match &api.alt_text {
            Some(t) => Some(t.clone()),
            None => None,
        };
        Attachment {
            state: AttachmentState::Uploaded(
                Finished { attachment_id: api.attachment_id, url: api.file_url.clone() },
            ),
            alt_text,
        }
    }
}

impl Post {
    /// The post that the server's description stands for, with its metadata and share tree.
    /// Only the attachment blocks are kept; the markdown comes from the plain-text body.
    pub fn from_api(api: de::Post) -> (r: Post)
        ensures
            converted(api, r),
    {
        Post::from_api_ref(&api)
    }

    fn from_api_ref(api: &de::Post) -> (r: Post)
        ensures
            converted(*api, r),
        decreases api,
    {
        let mut attachments: Vec<Attachment> = Vec::new();
        for i in 0..api.blocks.len()
            invariant
                attachments@ == attachments_of(api.blocks@.subrange(0, i as int)),
        {
            assert(api.blocks@.subrange(0, i + 1).drop_last() == api.blocks@.subrange(0, i as int));
            match &api.blocks[i] {
                de::Block::Attachment { attachment } => {
                    attachments.push(Attachment::from_api_ref(attachment));
                },
                de::Block::Markdown { .. } => {},
            }
            assert(attachments@ == attachments_of(api.blocks@.subrange(0, i + 1)));
        }
        assert(api.blocks@.subrange(0, api.blocks@.len() as int) == api.blocks@);

        let mut related: Vec<String> = Vec::new();
        let n = api.related_projects.len();
        for i in 0..n
            invariant
                n == api.related_projects@.len(),
                related@ == api.related_projects@.subrange(0, i as int).map_values(
                    |p: de::PostingProject| p.handle,
                ),
        {
            related.push(api.related_projects[i].handle.clone());
            assert(related@ == api.related_projects@.subrange(0, i + 1).map_values(
                |p: de::PostingProject| p.handle,
            ));
        }
        assert(api.related_projects@.subrange(0, n as int) == api.related_projects@);
        if n == 0 {
            related.push(api.posting_project.handle.clone());
            assert(related@ == seq![api.posting_project.handle]);
        }

        let mut tree: Vec<Post> = Vec::new();
        for i in 0..api.share_tree.len()
            invariant
                tree@.len() == i,
                forall|k: int| 0 <= k < i ==> converted(#[trigger] api.share_tree@[k], tree@[k]),
        {
            proof {
                assert(decreases_to!(api.share_tree => api.share_tree@));
            }
            tree.push(Post::from_api_ref(&api.share_tree[i]));
        }

        let metadata = PostMetadata {
            locations: PostLocations {
                id: api.post_id,
                filename: api.filename.clone(),
                url: api.single_post_page_url.clone(),
                edit_url: api.post_edit_url.clone(),
            },
            can_share: api.can_share,
            comments_locked: api.comments_locked,
            has_any_contributor_muted: api.has_any_contributor_muted,
            has_cohost_plus: api.has_cohost_plus,
            liked: api.is_liked,
            num_comments: api.num_comments,
            num_shared_comments: api.num_shared_comments,
            pinned: api.pinned,
            posting_project_id: api.posting_project.handle.clone(),
            publication_date: api.published_at,
            related_projects: related,
            share_tree: tree,
        };
        Post {
            metadata: Some(metadata),
            adult_content: api.effective_adult_content,
            headline: api.headline.clone(),
            markdown: api.plain_text_body.clone(),
            tags: copy_strings(&api.tags),
            content_warnings: copy_strings(&api.cws),
            draft: api.state == 0,
            attachments,
        }
    }

    /// Returns true if the post has no content (no headline, attachments, or markdown content).
    pub fn is_empty(&self) -> (r: bool)
        ensures
            r == is_empty_post(*self),
    {
        self.attachments.len() == 0 && self.headline.as_str().unicode_len() == 0
            && self.markdown.as_str().unicode_len() == 0
    }

    /// Checks that the post may be sent, sharing `shared_post` if that is present, and tells
    /// whether it has attachments to upload.
    pub fn validate(&self, shared_post: Option<PostId>) -> (r: Result<bool, Error>)
        ensures
            r == validate(*self, shared_post),
    {
        if self.is_empty() && shared_post.is_none() {
            return Err(Error::EmptyPost);
        }
        let mut need_upload = false;
        for i in 0..self.attachments.len()
            invariant
                forall|k: int| 0 <= k < i ==> !((#[trigger] self.attachments@[k]).state is Failed),
                need_upload == exists|k: int| 0 <= k < i && (#[trigger] self.attachments@[k]).state is New,
        {
            if self.attachments[i].is_failed() {
                return Err(Error::FailedAttachment);
            }
            if self.attachments[i].is_new() {
                need_upload = true;
            }
        }
        Ok(need_upload)
    }

    /// The request body for this post: as a draft if `force_draft` is set or the post is a
    /// draft, sharing `shared_post` if that is present.
    pub fn as_api(&self, force_draft: bool, shared_post: Option<PostId>) -> (r: ser::Post)
        ensures
            renders(r, *self, force_draft, shared_post),
    {
        let n = self.attachments.len();
        let mut blocks: Vec<ser::Block> = Vec::new();
        for i in 0..n
            invariant
                n == self.attachments@.len(),
                blocks@.len() == i,
                forall|k: int| 0 <= k < i ==> refers_to(
                    ser::Post { blocks, ..arbitrary() },
                    k,
                    #[trigger] self.attachments@[k],
                ),
        {
            let a = &self.attachments[i];
            let alt_text = match &a.alt_text {
                Some(t) => Some(t.clone()),
                None => None,
            };
            blocks.push(ser::Block::Attachment {
                attachment: ser::Attachment { alt_text, attachment_id: a.id_text() },
            });
        }
        let ghost md = markdown_blocks(self.markdown@);
        if self.markdown.as_str().unicode_len() > 0 {
            let pieces = split_paragraphs(self.markdown.as_str());
            for j in 0..pieces.len()
                invariant
                    n == self.attachments@.len(),
                    views(pieces@) == md,
                    blocks@.len() == n + j,
                    forall|k: int| 0 <= k < n ==> refers_to(
                        ser::Post { blocks, ..arbitrary() },
                        k,
                        #[trigger] self.attachments@[k],
                    ),
                    forall|k: int| 0 <= k < j ==> holds_markdown(
                        ser::Post { blocks, ..arbitrary() },
                        n + k,
                        #[trigger] md[k],
                    ),
            {
                assert(views(pieces@)[j as int] == pieces@[j as int]@);
                blocks.push(ser::Block::Markdown {
                    markdown: ser::Markdown { content: pieces[j].clone() },
                });
            }
        }
        ser::Post {
            adult_content: self.adult_content,
            blocks,
            cws: copy_strings(&self.content_warnings),
            headline: self.headline.clone(),
            post_state: if force_draft || self.draft { 0 } else { 1 },
            share_of_post_id: shared_post,
            tags: copy_strings(&self.tags),
        }
    }
}

} // verus!
