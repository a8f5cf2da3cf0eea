//! Where an entry lives: the file-name convention and the path model.
use vstd::prelude::*;

verus! {

/// The extension every entry file carries: `.json`.
pub open spec fn json_extension() -> Seq<char> {
    seq!['.', 'j', 's', 'o', 'n']
}

/// The file name under which the value of `key` is kept: the key itself
/// followed by `.json`. The key is not sanitized.
pub open spec fn entry_file_name_spec(key: Seq<char>) -> Seq<char> {
    key + json_extension()
}

/// Builds the file name of the entry for `key`.
pub fn entry_file_name(key: &str) -> (r: String)
    ensures
        r@ == entry_file_name_spec(key@),
{
    let mut name = String::from_str(key);
    name.append(".json");
    proof {
        reveal_strlit(".json");
        assert(".json"@ =~= json_extension());
    }
    name
}

} // verus!

verus! {

/// The characters that separate path components on the supported platforms.
pub open spec fn is_separator(c: char) -> bool {
    c == '/' || c == '\\'
}

/// A name that stands for exactly one path component.
pub open spec fn is_path_component(s: Seq<char>) -> bool {
    forall|i: int| 0 <= i < s.len() ==> !is_separator(#[trigger] s[i])
}

/// The path of a file `file` in directory `dir`, below the product's
/// configuration root.
pub open spec fn relative_path(dir: Seq<char>, file: Seq<char>) -> Seq<char> {
    dir + seq!['/'] + file
}

/// The path of the entry for `key` in the store of application `app`, below
/// the product's configuration root: `<app>/<key>.json`.
pub open spec fn entry_path(app: Seq<char>, key: Seq<char>) -> Seq<char> {
    relative_path(app, entry_file_name_spec(key))
}

/// Distinct keys have distinct file names.
pub proof fn lemma_entry_file_name_injective(k1: Seq<char>, k2: Seq<char>)
    requires
        entry_file_name_spec(k1) == entry_file_name_spec(k2),
    ensures
        k1 == k2,
{
    let n1 = entry_file_name_spec(k1);
    assert(k1 =~= n1.subrange(0, k1.len() as int));
    assert(k2 =~= n1.subrange(0, k2.len() as int));
}

/// Where application names are single path components, two entries share a
/// path only when they share both the application and the key.
pub proof fn lemma_entry_path_injective(a1: Seq<char>, k1: Seq<char>, a2: Seq<char>, k2: Seq<char>)
    requires
        is_path_component(a1),
        is_path_component(a2),
        entry_path(a1, k1) == entry_path(a2, k2),
    ensures
        a1 == a2,
        k1 == k2,
{
    let p = entry_path(a1, k1);
    let f1 = entry_file_name_spec(k1);
    let f2 = entry_file_name_spec(k2);
    if a1.len() < a2.len() {
        assert(p[a1.len() as int] == '/');
        assert(p[a1.len() as int] == a2[a1.len() as int]);
        assert(false);
    }
    if a2.len() < a1.len() {
        assert(p[a2.len() as int] == '/');
        assert(p[a2.len() as int] == a1[a2.len() as int]);
        assert(false);
    }
    assert(a1 =~= p.subrange(0, a1.len() as int));
    assert(a2 =~= p.subrange(0, a2.len() as int));
    assert(f1 =~= p.subrange(a1.len() as int + 1, p.len() as int));
    assert(f2 =~= p.subrange(a2.len() as int + 1, p.len() as int));
    lemma_entry_file_name_injective(k1, k2);
}

} // verus!
