//! Types shared by the tagged and the untagged registry.

pub mod unknown_entries;
pub mod unknown_type_error;

pub use self::unknown_entries::{UnknownEntries, UnknownEntriesNone, UnknownEntriesSome};
pub use self::unknown_type_error::UnknownTypeError;
