use vstd::prelude::*;

verus! {

/// The outside error that Base64 decoding reports.
#[verifier::external_type_specification]
#[verifier::external_body]
pub struct ExDecodeError(base64::DecodeError);

/// Errors that the library's own checks report.
///
/// Transport failures (connection errors, non-2xx responses) and local I/O failures are raised
/// by the code that performs the I/O; they never originate here.
#[derive(Debug)]
#[non_exhaustive]
pub enum Error {
    /// Attempted to create or edit a post with no headline, attachments, or markdown content.
    EmptyPost,
    /// Attempted to create or edit a post with an attachment marked as failed.
    FailedAttachment,
    /// A Base64 string could not be decoded.
    Base64Decode(base64::DecodeError),
}

impl Error {
    /// A human-readable description of the error.
    pub fn message(&self) -> (r: String)
        ensures
            self is EmptyPost ==> r@ == "post is empty (no headline, attachments, or markdown)"@,
            self is FailedAttachment ==> r@ == "attempted to use post with failed attachment"@,
    {
        match self {
            Error::EmptyPost => String::from_str("post is empty (no headline, attachments, or markdown)"),
            Error::FailedAttachment => String::from_str("attempted to use post with failed attachment"),
            Error::Base64Decode(_) => String::from_str("base64 decode error"),
        }
    }
}

} // verus!
