//! A per-application key/value store that keeps each value as one JSON
//! document, `<key>.json`, in a directory resolved for the application.
//!
//! The library decides where things go and what each outcome means; the
//! file system work itself is done by the caller.
pub mod error;
pub mod layout;
pub mod model;
pub mod store;

pub use error::{io_outcome, json_outcome, ConfigstoreError};
pub use layout::{entry_file_name, entry_file_name_spec, json_extension};
pub use store::{Configstore, EntryLocation, EntryWrite, StoreModel, PRODUCT_NAMESPACE};
/// The kind of user interface an application has; it selects the
/// platform's directory convention.
pub use platform_dirs::AppUI;
