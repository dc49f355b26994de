use crate::time::Timestamp;
use vstd::prelude::*;

verus! {

/// An ask ID.
#[derive(Clone, Debug, Default, PartialEq, Eq, Hash, PartialOrd, Ord)]
pub struct AskId(pub String);

/// Describes the contents of an ask. Asks are not created by clients, only read from the
/// server's content.
#[derive(Debug)]
pub struct Ask {
    /// The ask's ID.
    pub ask_id: AskId,
    /// Information about the account that sent this ask, if it wasn't sent anonymously.
    pub asker: Option<Asker>,
    /// Markdown content for the ask, displayed after the asker's name.
    pub content: String,
    /// The date and time this ask was sent.
    pub sent_at: Timestamp,
}

impl Ask {
    /// Get the ID of the ask represented by this struct.
    pub fn id(&self) -> (r: &str)
        ensures
            r@ == self.ask_id.0@,
    {
        self.ask_id.0.as_str()
    }
}

/// Describes the project that sent an ask.
#[derive(Clone, Debug)]
pub struct Asker {
    /// The unique handle of the asker.
    pub handle: String,
    /// The display name of the asker, which may be different from the handle.
    pub display_name: String,
}

} // verus!
