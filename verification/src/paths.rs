//! Paths as strings: the final component of a path, replacing it, its parent, stem
//! and extension. The names below stand for what `std::path` does on Unix, where `/`
//! is the only separator and there are no prefixes; Windows paths parse otherwise.

use vstd::prelude::*;
use vstd::string::{StrSliceExecFns, StringExecFns};

verus! {

/// What `Path::file_name` gives for a path: its final component, or `None` when the
/// path ends in `..` or has no component (such as `/`).
pub uninterp spec fn file_name_of(path: Seq<char>) -> Option<Seq<char>>;

/// What `PathBuf::set_file_name` makes of a path and a file name.
pub uninterp spec fn with_file_name_of(path: Seq<char>, name: Seq<char>) -> Seq<char>;

/// A file name that `set_file_name` puts in place as the final component: not empty,
/// no separator, and neither `.` nor `..`.
pub open spec fn is_plain_file_name(name: Seq<char>) -> bool {
    &&& name.len() > 0
    &&& forall|i: int| 0 <= i < name.len() ==> name[i] != '/'
    &&& name != seq!['.']
    &&& name != seq!['.', '.']
}

/// `Path::file_name` of a UTF-8 path, as a `String`. The final component it returns
/// is a normal one: not empty, without separator, neither `.` nor `..`.
/// What is stated holds of `std::path` on Unix, where `/` is the only separator.
#[verifier::external_body]
pub(crate) fn path_file_name(path: &str) -> (name: Option<String>)
    ensures
        name matches Some(n) ==> file_name_of(path@) == Some(n@) && is_plain_file_name(n@),
        name is None ==> file_name_of(path@) is None,
{
    std::path::Path::new(path).file_name().map(|n| n.to_string_lossy().into_owned())
}

/// `PathBuf::set_file_name` on a UTF-8 path. Its documentation says that it updates
/// the file name of the path to `name`, so that for a plain file name `Path::file_name`
/// then gives it back, and that where the path had a file name the new path is a
/// sibling of it: it has the same parent.
/// What is stated holds of `std::path` on Unix, where `/` is the only separator.
#[verifier::external_body]
pub(crate) fn path_with_file_name(path: &str, name: &str) -> (res: String)
    ensures
        res@ == with_file_name_of(path@, name@),
        is_plain_file_name(name@) ==> file_name_of(res@) == Some(name@),
        file_name_of(path@) is Some && is_plain_file_name(name@) ==> parent_of(res@) == parent_of(path@),
{
    let mut p = std::path::PathBuf::from(path);
    p.set_file_name(name);
    p.to_string_lossy().into_owned()
}

/// `i` is the position of the last `.` of the name.
pub open spec fn is_last_dot(name: Seq<char>, i: int) -> bool {
    &&& 0 <= i < name.len()
    &&& name[i] == '.'
    &&& forall|j: int| i < j < name.len() ==> name[j] != '.'
}

/// What `Path::extension` gives for a path whose file name is `name`: the part after
/// the last `.`, unless the name has no `.` past its first character.
pub open spec fn extension_of_name(name: Seq<char>) -> Option<Seq<char>> {
    if exists|i: int| 1 <= i < name.len() && name[i] == '.' {
        let i = choose|i: int| is_last_dot(name, i);
        Some(name.subrange(i + 1, name.len() as int))
    } else {
        None
    }
}

/// The position of the last `.` of a file name, `None` when the name has no `.` past
/// its first character.
fn last_inner_dot(name: &str) -> (dot: Option<usize>)
    ensures
        match dot {
            Some(i) => 1 <= i && is_last_dot(name@, i as int),
            None => !exists|i: int| 1 <= i < name@.len() && name@[i] == '.',
        },
{
    let len = name.unicode_len();
    let mut i: usize = len;
    while i > 0
        invariant
            i <= len,
            len == name@.len(),
            forall|j: int| i <= j < len ==> name@[j] != '.',
        decreases i,
    {
        if name.get_char(i - 1) == '.' {
            let dot = i - 1;
            if dot == 0 {
                proof {
                    assert forall|k: int| 1 <= k < name@.len() implies name@[k] != '.' by {
                        assert(k >= i);
                    }
                }
                return None;
            }
            return Some(dot);
        }
        i = i - 1;
    }
    None
}

/// Any two last dots of a name are the same position.
proof fn lemma_last_dot_unique(name: Seq<char>, i: int)
    requires
        is_last_dot(name, i),
    ensures
        (choose|c: int| is_last_dot(name, c)) == i,
{
    let c = choose|c: int| is_last_dot(name, c);
    if c < i {
        assert(name[i] != '.');
    }
    if c > i {
        assert(name[c] != '.');
    }
}

/// The extension of a path, as `Path::extension` gives it: taken from its file name,
/// `None` when it has none.
pub fn path_extension(path: &str) -> (ext: Option<String>)
    ensures
        ext matches Some(e) ==> file_name_of(path@) matches Some(n) && extension_of_name(n) == Some(e@),
        ext is None ==> match file_name_of(path@) {
            None => true,
            Some(n) => extension_of_name(n) is None,
        },
{
    let name = match path_file_name(path) {
        None => {
            return None;
        },
        Some(n) => n,
    };
    let s = name.as_str();
    match last_inner_dot(s) {
        None => None,
        Some(dot) => {
            proof {
                lemma_last_dot_unique(s@, dot as int);
            }
            let len = s.unicode_len();
            let e = s.substring_char(dot + 1, len);
            Some(String::from_str(e))
        },
    }
}

/// What `Path::file_stem` gives for a path whose file name is `name`: the part before
/// the last `.`, or the whole name when it has no `.` past its first character.
pub open spec fn stem_of_name(name: Seq<char>) -> Seq<char> {
    if exists|i: int| 1 <= i < name.len() && name[i] == '.' {
        let i = choose|i: int| is_last_dot(name, i);
        name.subrange(0, i)
    } else {
        name
    }
}

/// The file stem of a path, as `Path::file_stem` gives it: taken from its file name,
/// `None` when it has none.
pub fn path_file_stem(path: &str) -> (stem: Option<String>)
    ensures
        match file_name_of(path@) {
            None => stem is None,
            Some(n) => stem matches Some(t) && t@ == stem_of_name(n),
        },
{
    let name = match path_file_name(path) {
        None => {
            return None;
        },
        Some(n) => n,
    };
    let s = name.as_str();
    match last_inner_dot(s) {
        None => Some(name),
        Some(dot) => {
            proof {
                lemma_last_dot_unique(s@, dot as int);
            }
            let t = s.substring_char(0, dot);
            Some(String::from_str(t))
        },
    }
}

/// What `Path::parent` gives for a path: the path without its final component, or
/// `None` when the path ends in a root or a prefix, or is empty.
pub uninterp spec fn parent_of(path: Seq<char>) -> Option<Seq<char>>;

/// `Path::parent` of a UTF-8 path, as a `String`.
/// What is stated holds of `std::path` on Unix, where `/` is the only separator.
#[verifier::external_body]
pub(crate) fn path_parent(path: &str) -> (parent: Option<String>)
    ensures
        match parent {
            Some(p) => parent_of(path@) == Some(p@),
            None => parent_of(path@) is None,
        },
{
    std::path::Path::new(path).parent().map(|p| p.to_string_lossy().into_owned())
}

/// The text the rename entry starts with: the file name of the path, or nothing when
/// it has none.
pub fn rename_entry_text(path: &str) -> (text: String)
    ensures
        text@ == match file_name_of(path@) {
            Some(n) => n,
            None => Seq::<char>::empty(),
        },
{
    match path_file_name(path) {
        Some(n) => n,
        None => String::new(),
    }
}

} // verus!
