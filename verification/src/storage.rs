//! What a store of records has to offer, and how it can fail.

use vstd::prelude::*;
use crate::models::MediaItem;
use crate::text::join2;

verus! {

#[verifier::external_type_specification]
#[verifier::external_body]
pub struct ExIoError(std::io::Error);

#[verifier::external_type_specification]
#[verifier::external_body]
pub struct ExJsonError(serde_json::Error);

/// Why a store failed.
#[derive(Debug)]
pub enum StorageError {
    /// The medium could not be read or written.
    Io(std::io::Error),
    /// A value could not be put into, or taken out of, its written form.
    Serialization(serde_json::Error),
    /// What is stored is not what this library stores: an unknown media type,
    /// or an identifier that is none. Holds the finding, in words.
    Corruption(String),
    /// The database refused or failed. Holds its message.
    Database(String),
}

/// The message of a `std::io::Error`, as its `Display` writes it. Nothing is
/// claimed of the text.
#[verifier::external_body]
pub(crate) fn io_error_text(e: &std::io::Error) -> (r: String) {
    e.to_string()
}

/// The message of a `serde_json::Error`, as its `Display` writes it. Nothing
/// is claimed of the text.
#[verifier::external_body]
fn json_error_text(e: &serde_json::Error) -> (r: String) {
    e.to_string()
}

impl StorageError {
    /// The heading under which an error of this sort is reported.
    pub open spec fn heading(&self) -> Seq<char> {
        match *self {
            StorageError::Io(_) => "Storage I/O failure: "@,
            StorageError::Serialization(_) => "Data serialization failure: "@,
            StorageError::Corruption(_) => "Data file corruption: "@,
            StorageError::Database(_) => "Database error: "@,
        }
    }

    /// The error in words: its heading, then the detail. For `Corruption` and
    /// `Database` the detail is the text they hold; for the other two it is
    /// the message of the error they hold.
    pub fn message(&self) -> (r: String)
        ensures
            r@.len() >= self.heading().len(),
            r@.subrange(0, self.heading().len() as int) == self.heading(),
            match *self {
                StorageError::Corruption(detail) => r@ == self.heading() + detail@,
                StorageError::Database(detail) => r@ == self.heading() + detail@,
                _ => true,
            },
    {
        let r = match self {
            StorageError::Io(e) => {
                let detail = io_error_text(e);
                join2("Storage I/O failure: ", detail.as_str())
            },
            StorageError::Serialization(e) => {
                let detail = json_error_text(e);
                join2("Data serialization failure: ", detail.as_str())
            },
            StorageError::Corruption(detail) => join2("Data file corruption: ", detail.as_str()),
            StorageError::Database(detail) => join2("Database error: ", detail.as_str()),
        };
        assert(r@.subrange(0, self.heading().len() as int) =~= self.heading());
        r
    }
}

/// A store that holds the whole archive.
///
/// `save_all` replaces what is stored by the given records, all of them or
/// none. What `load_all` returns need not come in the order in which it was
/// saved.
pub trait StorageProvider {
    fn load_all(&self) -> Result<Vec<MediaItem>, StorageError>;

    fn save_all(&self, items: &[MediaItem]) -> Result<(), StorageError>;
}

} // verus!
