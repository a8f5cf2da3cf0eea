//! The store: one application's directory and the entries kept in it.
use vstd::prelude::*;

use crate::error::{io_outcome, json_outcome, ConfigstoreError};
use crate::layout::{entry_file_name, entry_file_name_spec, entry_path, relative_path};
use crate::model::after_set;
use platform_dirs::AppUI;
use std::path::PathBuf;

verus! {

#[verifier::external_type_specification]
#[verifier::external_body]
pub struct ExPathBuf(PathBuf);

#[verifier::external_type_specification]
#[verifier::external_body]
pub struct ExAppUI(AppUI);

/// The product identifier under which every application's store is
/// namespaced.
pub const PRODUCT_NAMESPACE: &'static str = "configstore-rs";

/// Relies on platform_dirs::AppDirs::new: the platform's configuration
/// directory for the UI type, with `prefix` appended, or `None` where the
/// platform has none. It reads the environment, so nothing is stated of it.
#[verifier::external_body]
fn resolve_config_dir(prefix: &str, app_ui: AppUI) -> (r: Option<PathBuf>) {
    platform_dirs::AppDirs::new(Some(prefix), app_ui).map(|dirs| dirs.config_dir)
}

/// Stores configuration values for one application below the platform's
/// configuration directory, at `<config dir>/<app name>/<key>.json`.
#[derive(Debug)]
pub struct Configstore {
    config_dir: PathBuf,
    app_name: String,
}

/// What a store is: the product's configuration directory it was resolved
/// in, and the application's name, which names its own directory there.
pub struct StoreModel {
    pub config_dir: PathBuf,
    pub app_name: Seq<char>,
}

impl View for Configstore {
    type V = StoreModel;

    closed spec fn view(&self) -> StoreModel {
        StoreModel { config_dir: self.config_dir, app_name: self.app_name@ }
    }
}

/// Where one entry lives: its application's directory and its file name.
#[derive(Debug, Clone)]
pub struct EntryLocation {
    pub dir: String,
    pub file_name: String,
}

impl EntryLocation {
    /// The entry's path below the product's configuration root.
    pub open spec fn path(&self) -> Seq<char> {
        relative_path(self.dir@, self.file_name@)
    }
}

/// A write the caller is to carry out: replace the whole file at `location`
/// (creating it if absent) with `contents`.
#[derive(Debug)]
pub struct EntryWrite {
    pub location: EntryLocation,
    pub contents: Vec<u8>,
}

impl EntryWrite {
    /// The files below the product's configuration root once this write was
    /// carried out.
    pub open spec fn apply(&self, files: Map<Seq<char>, Seq<u8>>) -> Map<Seq<char>, Seq<u8>> {
        files.insert(self.location.path(), self.contents@)
    }
}

impl Configstore {
    /// Builds the store of `app_name` from the outcome of resolving the
    /// product's configuration directory. Fails exactly when nothing was
    /// resolved; otherwise the store depends on its two inputs alone, so two
    /// stores built alike share one base directory.
    pub fn from_config_dir(config_dir: Option<PathBuf>, app_name: &str) -> (r: Result<
        Configstore,
        ConfigstoreError,
    >)
        ensures
            match config_dir {
                None => r matches Err(ConfigstoreError::DirectoryResolution),
                Some(d) => r matches Ok(s) && s@ == (StoreModel { config_dir: d, app_name: app_name@ }),
            },
    {
        match config_dir {
            None => Err(ConfigstoreError::DirectoryResolution),
            Some(d) => Ok(Configstore { config_dir: d, app_name: String::from_str(app_name) }),
        }
    }

    /// Resolves the product's configuration directory for `app_ui` and builds
    /// the store of `app_name` in it. Whatever the platform answers, a store
    /// that comes back belongs to `app_name`, and a failure is the one of
    /// directory resolution. The base directory is not created here.
    pub fn locate(app_name: &str, app_ui: AppUI) -> (r: Result<Configstore, ConfigstoreError>)
        ensures
            r matches Ok(s) ==> s@.app_name == app_name@,
            r matches Err(e) ==> e matches ConfigstoreError::DirectoryResolution,
    {
        let config_dir = resolve_config_dir(PRODUCT_NAMESPACE, app_ui);
        Configstore::from_config_dir(config_dir, app_name)
    }

    /// The product's configuration directory the store was resolved in.
    pub fn config_dir(&self) -> (r: &PathBuf)
        ensures
            *r == self@.config_dir,
    {
        &self.config_dir
    }

    /// The application's name, which is also the name of its directory.
    pub fn app_name(&self) -> (r: &str)
        ensures
            r@ == self@.app_name,
    {
        self.app_name.as_str()
    }

    /// Where the entry for `key` lives: `<app name>/<key>.json`.
    pub fn entry_location(&self, key: &str) -> (r: EntryLocation)
        ensures
            r.dir@ == self@.app_name,
            r.file_name@ == entry_file_name_spec(key@),
            r.path() == entry_path(self@.app_name, key@),
    {
        EntryLocation { dir: self.app_name.clone(), file_name: entry_file_name(key) }
    }

    /// The write that sets `key` to the encoded document `contents`.
    pub fn write_request(&self, key: &str, contents: Vec<u8>) -> (r: EntryWrite)
        ensures
            r.location.path() == entry_path(self@.app_name, key@),
            r.contents@ == contents@,
            forall|files: Map<Seq<char>, Seq<u8>>|
                #[trigger] r.apply(files) == after_set(files, self@, key@, contents@),
    {
        EntryWrite { location: self.entry_location(key), contents }
    }

    /// The write that sets `key`, from the outcome of encoding its value:
    /// the encoded document where encoding succeeded, else the encoder's
    /// failure as a serialization error, with nothing to write.
    pub fn set_request(&self, key: &str, encoded: Result<Vec<u8>, serde_json::Error>) -> (r: Result<
        EntryWrite,
        ConfigstoreError,
    >)
        ensures
            match encoded {
                Ok(doc) => r matches Ok(w) && w.location.path() == entry_path(self@.app_name, key@)
                    && w.contents@ == doc@
                    && forall|files: Map<Seq<char>, Seq<u8>>|
                        #[trigger] w.apply(files) == after_set(files, self@, key@, doc@),
                Err(e) => r matches Err(ConfigstoreError::Serialization(c)) && c == e,
            },
    {
        match json_outcome(encoded) {
            Ok(doc) => Ok(self.write_request(key, doc)),
            Err(e) => Err(e),
        }
    }

    /// The document of an entry, from the outcome of reading its file: the
    /// bytes read, or the read's failure as an I/O error. An entry that was
    /// never set has no file, so getting it fails; no default stands in.
    pub fn get_document(read: Result<Vec<u8>, std::io::Error>) -> (r: Result<Vec<u8>, ConfigstoreError>)
        ensures
            match read {
                Ok(doc) => r matches Ok(d) && d@ == doc@,
                Err(e) => r matches Err(ConfigstoreError::Io(c)) && c == e,
            },
    {
        io_outcome(read)
    }
}

} // verus!
