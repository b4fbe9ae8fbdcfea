//! Session records and their identifiers.

use vstd::prelude::*;

verus! {

/// A session identifier.
#[derive(Clone, Copy, Debug, PartialEq, Eq, Structural, Hash)]
pub struct Id(pub i128);

/// The text that stands for a session id in the `id` column: what
/// `tower_sessions_core::session::Id` displays for the number.
pub uninterp spec fn id_text(id: i128) -> Seq<char>;

/// `tower_sessions_core::session::Id` as `Display` writes it. The text is
/// the same whenever the number is the same.
#[verifier::external_body]
fn session_id_text(id: i128) -> (text: String)
    ensures
        text@ == id_text(id),
{
    tower_sessions_core::session::Id(id).to_string()
}

/// `tower_sessions_core::session::Id::default()`: a number drawn from the
/// thread's random number generator. Nothing is known of it.
#[verifier::external_body]
fn random_session_id() -> (id: i128) {
    tower_sessions_core::session::Id::default().0
}

impl Id {
    /// The text under which the session is stored and looked up.
    pub fn text(&self) -> (text: String)
        ensures
            text@ == id_text(self.0),
    {
        session_id_text(self.0)
    }

    /// A new identifier, drawn at random.
    pub fn random() -> Id {
        Id(random_session_id())
    }
}

impl Default for Id {
    /// A new identifier, drawn at random.
    fn default() -> Id {
        Id::random()
    }
}

/// A session record: its identifier, the payload that belongs to the
/// session's owner, and the Unix time in seconds after which it is no longer
/// served.
#[derive(Clone, Debug, PartialEq, Eq)]
pub struct Record {
    pub id: Id,
    pub data: Vec<u8>,
    pub expiry_date: i64,
}

/// What a record is, as mathematics.
pub struct RecordView {
    pub id: i128,
    pub data: Seq<u8>,
    pub expiry_date: i64,
}

impl RecordView {
    /// The same record under another id.
    pub open spec fn with_id(self, id: i128) -> RecordView {
        RecordView { id, data: self.data, expiry_date: self.expiry_date }
    }
}

impl View for Record {
    type V = RecordView;

    open spec fn view(&self) -> RecordView {
        RecordView { id: self.id.0, data: self.data@, expiry_date: self.expiry_date }
    }
}

} // verus!
