use crate::error::Error;
use crate::text::{has_prefix, starts_with};
use vstd::prelude::*;

verus! {

/// An attachment ID, a server-assigned UUID held as its 128-bit value.
#[derive(Clone, Copy, Debug, Default, PartialEq, Eq, Structural, Hash, PartialOrd, Ord)]
pub struct AttachmentId(pub u128);

/// The lower-case hexadecimal digit of a value below 16.
pub open spec fn hex_digit(n: u128) -> char {
    seq!['0', '1', '2', '3', '4', '5', '6', '7', '8', '9', 'a', 'b', 'c', 'd', 'e', 'f'][n as int]
}

/// The `k`-th of the 32 hexadecimal digits of `v`, most significant first.
pub open spec fn nibble(v: u128, k: int) -> u128 {
    (v >> ((4 * (31 - k)) as u128)) & 15
}

/// Where the characters of the canonical form take their digits from: position `i` of the
/// 36 characters, skipping the hyphens before it.
pub open spec fn digit_index(i: int) -> int {
    if i < 8 {
        i
    } else if i < 13 {
        i - 1
    } else if i < 18 {
        i - 2
    } else if i < 23 {
        i - 3
    } else {
        i - 4
    }
}

/// The canonical (hyphenated, lower-case) text of a UUID with value `v`:
/// `xxxxxxxx-xxxx-xxxx-xxxx-xxxxxxxxxxxx`, most significant digit first.
pub open spec fn uuid_text(v: u128) -> Seq<char> {
    Seq::new(
        36,
        |i: int|
            if i == 8 || i == 13 || i == 18 || i == 23 {
                '-'
            } else {
                hex_digit(nibble(v, digit_index(i)))
            },
    )
}

/// Relies on `uuid::Uuid::from_u128`, which reads the value big-endian, and on the UUID's
/// `Display`, which writes the hyphenated lower-case form.
#[verifier::external_body]
fn uuid_to_text(v: u128) -> (r: String)
    ensures
        r@ == uuid_text(v),
{
    uuid::Uuid::from_u128(v).to_string()
}

impl AttachmentId {
    /// The canonical string form of this ID.
    pub fn to_text(&self) -> (r: String)
        ensures
            r@ == uuid_text(self.0),
    {
        uuid_to_text(self.0)
    }
}

/// Attachment metadata specific to a supported type of media.
#[derive(Debug, PartialEq, Eq)]
pub enum MediaMetadata {
    /// Image attachments
    Image {
        /// Image width
        width: Option<u32>,
        /// Image height
        height: Option<u32>,
    },
    /// Audio attachments
    Audio {
        /// Audio artist
        artist: String,
        /// Audio title
        title: String,
    },
}

/// Where the bytes of a pending attachment come from.
#[derive(Debug)]
pub enum Content {
    /// The bytes themselves, held in memory.
    Bytes(Vec<u8>),
    /// A file on disk, streamed when the attachment is uploaded.
    File(String),
}

/// What an attachment that has not been uploaded yet carries.
#[derive(Debug)]
pub struct Pending {
    /// The bytes to upload.
    pub content: Content,
    /// The file name reported to the server.
    pub filename: String,
    /// The MIME type reported to the server.
    pub content_type: String,
    /// The number of bytes to upload.
    pub content_length: u64,
    /// Image dimensions or audio tags, if known.
    pub metadata: Option<MediaMetadata>,
}

/// What the server reports for an uploaded attachment.
#[derive(Debug)]
pub struct Finished {
    /// The server-assigned ID.
    pub attachment_id: AttachmentId,
    /// The CDN URL.
    pub url: String,
}

/// The lifecycle of an attachment: pending, then uploaded or failed, once.
#[derive(Debug)]
pub enum AttachmentState {
    /// Not uploaded yet.
    New(Pending),
    /// Uploaded, with the ID and URL the server assigned.
    Uploaded(Finished),
    /// An upload was attempted and did not complete; the content is gone.
    Failed,
}

/// Describes an attachment.
///
/// Attachments are created in the "new" state. When part of a post that is created or edited,
/// the attachment is uploaded. If that succeeds, the attachment becomes "uploaded"; if not, it
/// becomes "failed", which it stays.
#[derive(Debug)]
pub struct Attachment {
    /// Where the attachment is in its lifecycle.
    pub state: AttachmentState,
    /// Alt text associated with this attachment.
    pub alt_text: Option<String>,
}

/// The attachment and the outcome after an upload is started on `a`: a pending attachment hands
/// out its content and is marked failed until the upload completes; an uploaded one needs no
/// transfer; a failed one cannot be uploaded.
pub open spec fn start_upload(a: Attachment) -> (Attachment, Result<Option<Pending>, Error>) {
    match a.state {
        AttachmentState::New(p) => (
            Attachment { state: AttachmentState::Failed, alt_text: a.alt_text },
            Ok(Some(p)),
        ),
        AttachmentState::Uploaded(_) => (a, Ok(None)),
        AttachmentState::Failed => (a, Err(Error::FailedAttachment)),
    }
}

/// The text sent as the attachment ID of `a`: the canonical form once uploaded, empty before.
pub open spec fn id_text(a: Attachment) -> Seq<char> {
    match a.state {
        AttachmentState::Uploaded(f) => uuid_text(f.attachment_id.0),
        _ => Seq::empty(),
    }
}

/// Starting an upload of an uploaded attachment leaves it unchanged and asks for no transfer,
/// however many times it is repeated; starting one of a failed attachment always fails and
/// leaves it unchanged. After any start the attachment is no longer pending, so its content is
/// transferred at most once.
pub proof fn upload_start_is_idempotent(a: Attachment)
    ensures
        a.state is Uploaded ==> start_upload(a) == (a, Ok::<Option<Pending>, Error>(None)),
        a.state is Uploaded ==> start_upload(start_upload(a).0) == start_upload(a),
        a.state is Failed ==> start_upload(a).1 matches Err(Error::FailedAttachment),
        a.state is Failed ==> start_upload(a).0 == a,
        !(start_upload(a).0.state is New),
{
}

/// Whether the dimensions of a file attachment's image are wanted: no metadata was given and
/// the type is an `image/` type.
pub fn wants_dimensions(content_type: &str, given: &Option<MediaMetadata>) -> (r: bool)
    ensures
        r == (given is None && has_prefix(content_type@, "image/"@)),
{
    given.is_none() && starts_with(content_type, "image/")
}

/// The metadata of a file attachment: the one given, if any; else for an `image/` type the
/// dimensions read from the file (unknown if they could not be read), for an `audio/` type
/// empty tags, and none for other types.
pub fn file_metadata(
    content_type: &str,
    given: Option<MediaMetadata>,
    dimensions: Option<(u32, u32)>,
) -> (r: Option<MediaMetadata>)
    ensures
        given is Some ==> r == given,
        given is None && has_prefix(content_type@, "image/"@) ==> r == Some(
            MediaMetadata::Image {
                width: match dimensions {
                    Some((w, _)) => Some(w),
                    None => None,
                },
                height: match dimensions {
                    Some((_, h)) => Some(h),
                    None => None,
                },
            },
        ),
        given is None && !has_prefix(content_type@, "image/"@) && has_prefix(
            content_type@,
            "audio/"@,
        ) ==> (r matches Some(MediaMetadata::Audio { artist, title }) && artist@.len() == 0
            && title@.len() == 0),
        given is None && !has_prefix(content_type@, "image/"@) && !has_prefix(
            content_type@,
            "audio/"@,
        ) ==> r is None,
{
    if given.is_some() {
        given
    } else if starts_with(content_type, "image/") {
        match dimensions {
            Some((w, h)) => Some(MediaMetadata::Image { width: Some(w), height: Some(h) }),
            None => Some(MediaMetadata::Image { width: None, height: None }),
        }
    } else if starts_with(content_type, "audio/") {
        Some(MediaMetadata::Audio { artist: String::new(), title: String::new() })
    } else {
        None
    }
}

impl Attachment {
    /// Create a pending `Attachment` whose content is `content_length` bytes long. Image
    /// attachments start with empty alt text; others have none.
    pub fn new_pending(
        content: Content,
        filename: String,
        content_type: String,
        content_length: u64,
        metadata: Option<MediaMetadata>,
    ) -> (r: Attachment)
        ensures
            r.state matches AttachmentState::New(p) && p.content == content && p.filename == filename
                && p.content_type == content_type && p.content_length == content_length
                && p.metadata == metadata,
            metadata matches Some(MediaMetadata::Image { .. }) ==> (r.alt_text matches Some(t)
                && t@.len() == 0),
            !(metadata matches Some(MediaMetadata::Image { .. })) ==> r.alt_text is None,
    {
        let alt_text = match &metadata {
            Some(MediaMetadata::Image { .. }) => Some(String::new()),
            _ => None,
        };
        Attachment {
            state: AttachmentState::New(
                Pending { content, filename, content_type, content_length, metadata },
            ),
            alt_text,
        }
    }

    /// Create an `Attachment` from a buffer.
    ///
    /// Image attachments start with empty alt text; others have none.
    pub fn new(content: Vec<u8>, filename: String, content_type: String, metadata: MediaMetadata) -> (r: Attachment)
        ensures
            r.state matches AttachmentState::New(p) && p.content_length == content@.len()
                && p.content == Content::Bytes(content) && p.filename == filename
                && p.content_type == content_type && p.metadata == Some(metadata),
            metadata is Image ==> (r.alt_text matches Some(t) && t@.len() == 0),
            metadata is Audio ==> r.alt_text is None,
    {
        let alt_text = match metadata {
            MediaMetadata::Image { .. } => Some(String::new()),
            MediaMetadata::Audio { .. } => None,
        };
        let content_length = content.len() as u64;
        Attachment {
            state: AttachmentState::New(Pending {
                content: Content::Bytes(content),
                filename,
                content_type,
                content_length,
                metadata: Some(metadata),
            }),
            alt_text,
        }
    }

    /// Sets new alt text in a builder-style function.
    pub fn with_alt_text(self, alt_text: String) -> (r: Attachment)
        ensures
            r.state == self.state,
            r.alt_text == Some(alt_text),
    {
        Attachment { state: self.state, alt_text: Some(alt_text) }
    }

    /// Returns true if the attachment has not yet been uploaded.
    pub fn is_new(&self) -> (r: bool)
        ensures
            r == self.state is New,
    {
        matches!(self.state, AttachmentState::New(_))
    }

    /// Returns true if the attachment is uploaded.
    pub fn is_uploaded(&self) -> (r: bool)
        ensures
            r == self.state is Uploaded,
    {
        matches!(self.state, AttachmentState::Uploaded(_))
    }

    /// Returns true if the attachment failed to upload. Failed attachments cannot be recovered.
    pub fn is_failed(&self) -> (r: bool)
        ensures
            r == self.state is Failed,
    {
        matches!(self.state, AttachmentState::Failed)
    }

    /// If the attachment is uploaded, returns the CDN URL.
    pub fn url(&self) -> (r: Option<&str>)
        ensures
            self.state matches AttachmentState::Uploaded(f) ==> (r matches Some(u) && u@ == f.url@),
            !(self.state is Uploaded) ==> r is None,
    {
        match &self.state {
            AttachmentState::Uploaded(f) => Some(f.url.as_str()),
            _ => None,
        }
    }

    /// If the attachment is uploaded, returns its ID.
    pub fn id(&self) -> (r: Option<AttachmentId>)
        ensures
            self.state matches AttachmentState::Uploaded(f) ==> r == Some(f.attachment_id),
            !(self.state is Uploaded) ==> r is None,
    {
        match &self.state {
            AttachmentState::Uploaded(f) => Some(f.attachment_id),
            _ => None,
        }
    }

    /// The text sent as this attachment's ID in a post: the canonical form of the ID once
    /// uploaded, and the empty string before.
    pub fn id_text(&self) -> (r: String)
        ensures
            r@ == id_text(*self),
    {
        match &self.state {
            AttachmentState::Uploaded(f) => f.attachment_id.to_text(),
            _ => String::new(),
        }
    }

    /// Starts an upload. A pending attachment hands out its content and is marked failed
    /// until [`Attachment::finish_upload`] records the result, so an upload that does not
    /// complete leaves it failed for good. An uploaded attachment returns `Ok(None)`: there is
    /// nothing to transfer. A failed one returns [`Error::FailedAttachment`].
    pub fn begin_upload(&mut self) -> (r: Result<Option<Pending>, Error>)
        ensures
            (*final(self), r) == start_upload(*old(self)),
    {
        match self.state {
            AttachmentState::Uploaded(_) => return Ok(None),
            AttachmentState::Failed => return Err(Error::FailedAttachment),
            AttachmentState::New(_) => {},
        }
        let mut state = AttachmentState::Failed;
        core::mem::swap(&mut self.state, &mut state);
        match state {
            AttachmentState::New(p) => Ok(Some(p)),
            _ => Ok(None),
        }
    }

    /// Records a completed upload: the attachment is uploaded, with the ID and URL that the
    /// server reported.
    pub fn finish_upload(&mut self, finished: Finished)
        ensures
            final(self).state == AttachmentState::Uploaded(finished),
            final(self).alt_text == old(self).alt_text,
    {
        self.state = AttachmentState::Uploaded(finished);
    }
}

} // verus!
