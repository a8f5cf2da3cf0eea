//! What the entry files hold, and the laws of setting and reading entries.
//!
//! The files below one product configuration root are modelled as a map from
//! each file's relative path to its bytes.
use vstd::prelude::*;

use crate::layout::{
    entry_file_name_spec, entry_path, is_path_component, lemma_entry_file_name_injective,
    lemma_entry_path_injective,
};
use crate::store::StoreModel;

verus! {

/// The files after the entry for `key` in `store` was set to `doc`: the
/// file is replaced whole, whatever it held before.
pub open spec fn after_set(
    files: Map<Seq<char>, Seq<u8>>,
    store: StoreModel,
    key: Seq<char>,
    doc: Seq<u8>,
) -> Map<Seq<char>, Seq<u8>> {
    files.insert(entry_path(store.app_name, key), doc)
}

/// The files after each `(key, document)` of `writes` was set in `store`, in
/// order.
pub open spec fn after_sets(
    files: Map<Seq<char>, Seq<u8>>,
    store: StoreModel,
    writes: Seq<(Seq<char>, Seq<u8>)>,
) -> Map<Seq<char>, Seq<u8>>
    decreases writes.len(),
{
    if writes.len() == 0 {
        files
    } else {
        let last = writes.last();
        after_set(after_sets(files, store, writes.drop_last()), store, last.0, last.1)
    }
}

/// What reading the entry for `key` in `store` finds: the file's bytes, or
/// nothing where there is no such file.
pub open spec fn read_entry(files: Map<Seq<char>, Seq<u8>>, store: StoreModel, key: Seq<char>) -> Option<Seq<u8>> {
    let path = entry_path(store.app_name, key);
    if files.contains_key(path) {
        Some(files[path])
    } else {
        None
    }
}

/// Reading an entry right after setting it finds exactly what was set.
pub proof fn lemma_get_after_set(files: Map<Seq<char>, Seq<u8>>, store: StoreModel, key: Seq<char>, doc: Seq<u8>)
    ensures
        read_entry(after_set(files, store, key, doc), store, key) == Some(doc),
{
}

/// Setting an entry twice leaves only the second document: the files are as
/// if the first set had never happened.
pub proof fn lemma_overwrite(
    files: Map<Seq<char>, Seq<u8>>,
    store: StoreModel,
    key: Seq<char>,
    first: Seq<u8>,
    second: Seq<u8>,
)
    ensures
        after_set(after_set(files, store, key, first), store, key, second) == after_set(files, store, key, second),
        read_entry(after_set(after_set(files, store, key, first), store, key, second), store, key) == Some(second),
{
    assert(after_set(after_set(files, store, key, first), store, key, second) =~= after_set(files, store, key, second));
}

/// Setting one key leaves every other key of the same store as it was.
pub proof fn lemma_other_key_untouched(
    files: Map<Seq<char>, Seq<u8>>,
    store: StoreModel,
    written: Seq<char>,
    doc: Seq<u8>,
    key: Seq<char>,
)
    requires
        written != key,
    ensures
        read_entry(after_set(files, store, written, doc), store, key) == read_entry(files, store, key),
{
    if entry_path(store.app_name, written) == entry_path(store.app_name, key) {
        let a = store.app_name;
        assert(entry_path(a, written).subrange(a.len() as int + 1, entry_path(a, written).len() as int)
            =~= entry_file_name_spec(written));
        assert(entry_path(a, key).subrange(a.len() as int + 1, entry_path(a, key).len() as int)
            =~= entry_file_name_spec(key));
        lemma_entry_file_name_injective(written, key);
    }
}

/// A key that was never set in a store that started with no entry files is
/// not found: reading it gives nothing, never a default.
pub proof fn lemma_never_set_is_missing(store: StoreModel, writes: Seq<(Seq<char>, Seq<u8>)>, key: Seq<char>)
    requires
        forall|i: int| 0 <= i < writes.len() ==> (#[trigger] writes[i]).0 != key,
    ensures
        read_entry(after_sets(Map::empty(), store, writes), store, key) is None,
    decreases writes.len(),
{
    if writes.len() > 0 {
        let rest = writes.drop_last();
        assert forall|i: int| 0 <= i < rest.len() implies (#[trigger] rest[i]).0 != key by {
            assert(rest[i] == writes[i]);
        }
        lemma_never_set_is_missing(store, rest, key);
        let last = writes.last();
        assert(last == writes[writes.len() - 1]);
        lemma_other_key_untouched(after_sets(Map::empty(), store, rest), store, last.0, last.1, key);
    }
}

/// Stores of two different applications, each named by a single path
/// component, never see each other's entries, whatever the keys.
pub proof fn lemma_namespace_isolation(
    files: Map<Seq<char>, Seq<u8>>,
    store: StoreModel,
    other: StoreModel,
    written: Seq<char>,
    doc: Seq<u8>,
    key: Seq<char>,
)
    requires
        store.app_name != other.app_name,
        is_path_component(store.app_name),
        is_path_component(other.app_name),
    ensures
        read_entry(after_set(files, store, written, doc), other, key) == read_entry(files, other, key),
{
    if entry_path(store.app_name, written) == entry_path(other.app_name, key) {
        lemma_entry_path_injective(store.app_name, written, other.app_name, key);
    }
}

/// Two stores of the same application resolved in one configuration root
/// share one directory: a value set through one is read through the other.
pub proof fn lemma_same_application_shares_entries(
    files: Map<Seq<char>, Seq<u8>>,
    store: StoreModel,
    other: StoreModel,
    key: Seq<char>,
    doc: Seq<u8>,
)
    requires
        store.config_dir == other.config_dir,
        store.app_name == other.app_name,
    ensures
        read_entry(files, store, key) == read_entry(files, other, key),
        read_entry(after_set(files, store, key, doc), other, key) == Some(doc),
{
}

} // verus!
