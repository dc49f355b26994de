//! The create-or-edit protocol for a post, as a state machine.
//!
//! A publish runs in up to two requests. The first creates or edits the post, as a draft while
//! attachments are still pending and with empty IDs for them. The attachments are then
//! uploaded against the post ID from its response, and a second request (an edit) finalizes
//! the post with the assigned IDs and its real draft state. The caller performs each request
//! and upload and feeds the outcome back as an [`Event`]; a failed request or upload ends the
//! publish with that failure, without a retry.
use crate::attachment::{uuid_text, AttachmentId};
use crate::error::Error;
use crate::post::{renders, validate, Post, PostId};
use crate::ser;
use crate::text::{decimal, push_decimal};
use vstd::prelude::*;

verus! {

/// The path of a project's post collection: `project/{project}/posts`.
pub open spec fn posts_path(project: Seq<char>) -> Seq<char> {
    "project/"@ + project + "/posts"@
}

/// The path of one post: `project/{project}/posts/{id}`.
pub open spec fn post_path(project: Seq<char>, id: PostId) -> Seq<char> {
    posts_path(project) + "/"@ + decimal(id.0 as nat)
}

/// The path that finishes an attachment upload:
/// `project/{project}/posts/{id}/attach/finish/{attachment}`.
pub open spec fn finish_path(project: Seq<char>, id: PostId, attachment: AttachmentId) -> Seq<char> {
    post_path(project, id) + "/attach/finish/"@ + uuid_text(attachment.0)
}

/// The path of a project's post collection, where posts are created.
pub fn posts_path_of(project: &str) -> (r: String)
    ensures
        r@ == posts_path(project@),
{
    let mut r = String::from_str("project/");
    r.append(project);
    r.append("/posts");
    r
}

/// The path of one post, where it is edited or deleted.
pub fn post_path_of(project: &str, id: PostId) -> (r: String)
    ensures
        r@ == post_path(project@, id),
{
    let mut r = posts_path_of(project);
    r.append("/");
    push_decimal(&mut r, id.0);
    r
}

/// The path that finishes the upload of an attachment to a post.
pub fn finish_path_of(project: &str, id: PostId, attachment: AttachmentId) -> (r: String)
    ensures
        r@ == finish_path(project@, id, attachment),
{
    let mut r = post_path_of(project, id);
    r.append("/attach/finish/");
    let t = attachment.to_text();
    r.append(t.as_str());
    r
}

/// The HTTP method of a request.
#[derive(Clone, Copy, Debug, PartialEq, Eq, Structural)]
pub enum Method {
    /// Creates a resource.
    Post,
    /// Replaces a resource.
    Put,
}

/// A request to perform against the service.
#[derive(Debug)]
pub struct Request {
    /// The method.
    pub method: Method,
    /// The path below the service's base URL.
    pub path: String,
    /// The JSON body.
    pub body: ser::Post,
}

/// Where a publish stands.
#[derive(Clone, Copy, Debug, PartialEq, Eq, Structural)]
pub enum Phase {
    /// Nothing sent yet.
    Idle,
    /// The create or edit request is out.
    Creating,
    /// The post exists under this ID; its pending attachments are being uploaded.
    Uploading(PostId),
    /// The attachments are uploaded; the finalizing edit of this post is out.
    Finalizing(PostId),
    /// The post was published under this ID.
    Done(PostId),
    /// The post was refused before any request.
    Rejected,
}

/// What happened since the last step.
#[derive(Clone, Copy, Debug, PartialEq, Eq, Structural)]
pub enum Event {
    /// The caller asks for the post to be published.
    Start,
    /// The create or edit request succeeded and returned this post ID.
    Created(PostId),
    /// Every pending attachment was uploaded.
    Uploaded,
    /// The finalizing edit succeeded.
    Finalized,
}

/// What the caller is to do next.
#[derive(Debug)]
pub enum Action {
    /// Perform this request and report [`Event::Created`] or [`Event::Finalized`].
    Send(Request),
    /// Upload every pending attachment of the post to this post, concurrently, then report
    /// [`Event::Uploaded`].
    Upload(PostId),
    /// The post was published under this ID.
    Finish(PostId),
    /// The post cannot be sent.
    Fail(Error),
}

/// One create-or-edit of a post.
#[derive(Debug)]
pub struct Publish {
    /// The method of the first request.
    pub method: Method,
    /// The path of the first request.
    pub path: String,
    /// The handle of the project that the post belongs to.
    pub project: String,
    /// The post that this one shares, if any.
    pub shared_post: Option<PostId>,
    /// Whether the post had attachments to upload when it was started.
    pub need_upload: bool,
    /// Where the publish stands.
    pub phase: Phase,
}

impl Publish {
    /// Whether `event` can come next: each phase waits for one kind of event.
    pub open spec fn accepts(self, event: Event) -> bool {
        match self.phase {
            Phase::Idle => event is Start,
            Phase::Creating => event is Created,
            Phase::Uploading(_) => event is Uploaded,
            Phase::Finalizing(_) => event is Finalized,
            _ => false,
        }
    }

    /// A publish that creates a post in `project`, sharing `shared_post` if that is present.
    pub fn create(project: &str, shared_post: Option<PostId>) -> (r: Publish)
        ensures
            r.method == Method::Post,
            r.path@ == posts_path(project@),
            r.project@ == project@,
            r.shared_post == shared_post,
            r.phase == Phase::Idle,
    {
        Publish {
            method: Method::Post,
            path: posts_path_of(project),
            project: String::from_str(project),
            shared_post,
            need_upload: false,
            phase: Phase::Idle,
        }
    }

    /// A publish that edits post `id` of `project`.
    pub fn edit(project: &str, id: PostId) -> (r: Publish)
        ensures
            r.method == Method::Put,
            r.path@ == post_path(project@, id),
            r.project@ == project@,
            r.shared_post is None,
            r.phase == Phase::Idle,
    {
        Publish {
            method: Method::Put,
            path: post_path_of(project, id),
            project: String::from_str(project),
            shared_post: None,
            need_upload: false,
            phase: Phase::Idle,
        }
    }

    /// Whether `event` can come next.
    pub fn is_accepted(&self, event: &Event) -> (r: bool)
        ensures
            r == self.accepts(*event),
    {
        match (self.phase, event) {
            (Phase::Idle, Event::Start) => true,
            (Phase::Creating, Event::Created(_)) => true,
            (Phase::Uploading(_), Event::Uploaded) => true,
            (Phase::Finalizing(_), Event::Finalized) => true,
            _ => false,
        }
    }

    /// Takes one step of the protocol for `post`.
    ///
    /// - `Start`: a post that [`Post::validate`] refuses fails with that error. Otherwise the
    ///   first request goes out with the publish's method and path, as a draft if any
    ///   attachment is pending (its ID empty).
    /// - `Created(id)`: the pending attachments are uploaded to post `id`; without any, the
    ///   post is published under `id`.
    /// - `Uploaded`: the finalizing edit of post `id` goes out, with the real draft state.
    /// - `Finalized`: the post is published under the `id` that the first request returned.
    pub fn step(&mut self, post: &Post, event: Event) -> (a: Action)
        requires
            old(self).accepts(event),
        ensures
            final(self).method == old(self).method,
            final(self).path == old(self).path,
            final(self).project == old(self).project,
            final(self).shared_post == old(self).shared_post,
            event is Start ==> match validate(*post, old(self).shared_post) {
                Err(e) => a == Action::Fail(e) && final(self).phase == Phase::Rejected,
                Ok(need_upload) => {
                    &&& final(self).need_upload == need_upload
                    &&& final(self).phase == Phase::Creating
                    &&& a matches Action::Send(r)
                    &&& r.method == old(self).method
                    &&& r.path@ == old(self).path@
                    &&& renders(r.body, *post, need_upload, old(self).shared_post)
                },
            },
            event matches Event::Created(id) ==> {
                &&& final(self).need_upload == old(self).need_upload
                &&& old(self).need_upload ==> a == Action::Upload(id) && final(self).phase == Phase::Uploading(id)
                &&& !old(self).need_upload ==> a == Action::Finish(id) && final(self).phase == Phase::Done(id)
            },
            old(self).phase matches Phase::Uploading(id) ==> {
                &&& final(self).need_upload == old(self).need_upload
                &&& final(self).phase == Phase::Finalizing(id)
                &&& a matches Action::Send(r)
                &&& r.method == Method::Put
                &&& r.path@ == post_path(old(self).project@, id)
                &&& renders(r.body, *post, false, old(self).shared_post)
            },
            old(self).phase matches Phase::Finalizing(id) ==> {
                &&& final(self).need_upload == old(self).need_upload
                &&& a == Action::Finish(id)
                &&& final(self).phase == Phase::Done(id)
            },
    {
        match event {
            Event::Start => match post.validate(self.shared_post) {
                Err(e) => {
                    self.phase = Phase::Rejected;
                    Action::Fail(e)
                },
                Ok(need_upload) => {
                    self.need_upload = need_upload;
                    self.phase = Phase::Creating;
                    Action::Send(Request {
                        method: self.method,
                        path: self.path.clone(),
                        body: post.as_api(need_upload, self.shared_post),
                    })
                },
            },
            Event::Created(id) => {
                if self.need_upload {
                    self.phase = Phase::Uploading(id);
                    Action::Upload(id)
                } else {
                    self.phase = Phase::Done(id);
                    Action::Finish(id)
                }
            },
            Event::Uploaded => {
                let id = match self.phase {
                    Phase::Uploading(id) => id,
                    _ => PostId(0),
                };
                self.phase = Phase::Finalizing(id);
                Action::Send(Request {
                    method: Method::Put,
                    path: post_path_of(self.project.as_str(), id),
                    body: post.as_api(false, self.shared_post),
                })
            },
            Event::Finalized => {
                let id = match self.phase {
                    Phase::Finalizing(id) => id,
                    _ => PostId(0),
                };
                self.phase = Phase::Done(id);
                Action::Finish(id)
            },
        }
    }
}

} // verus!
