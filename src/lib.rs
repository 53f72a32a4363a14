//! Plain-value core of a binding to a native game-archive library: the game
//! kinds a collection is opened for, the option sets handed to the library,
//! four-byte record type signatures, the reading of the library's status codes
//! and the arrays that a form-ID remapping is passed in.

pub mod collection_type;
pub mod flags;
pub mod record_type;
pub mod references;
pub mod status;

pub use collection_type::CollectionType;
pub use flags::{CreateOption, ModFlags, ModOption, RecordFlags};
pub use record_type::{code_signature, record_type_name, signature_code, signature_from_name, signature_text};
pub use references::{formid_pairs, lookup_key, FormIdPairs, RecordOption};
pub use status::{made_formid, status_ok, status_count, status_flag};
