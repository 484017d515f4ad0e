//! Naming the copy of a file or a folder that the workspace browser duplicates.
//!
//! The copy takes the source's file name with `.dup` appended, as many times as it
//! takes to reach a path that does not exist yet. The caller hands in the paths that
//! exist in the source's folder.

use vstd::prelude::*;
use vstd::string::StringExecFns;
use crate::paths::{file_name_of, is_plain_file_name, parent_of, path_file_name, path_with_file_name, with_file_name_of};

verus! {

/// The suffix appended to the name of a duplicate.
pub open spec fn duplicate_suffix() -> Seq<char> {
    seq!['.', 'd', 'u', 'p']
}

/// The file name with the duplicate suffix appended `n` times.
pub open spec fn duplicate_name(name: Seq<char>, n: nat) -> Seq<char>
    decreases n,
{
    if n == 0 {
        name
    } else {
        duplicate_name(name, (n - 1) as nat) + duplicate_suffix()
    }
}

/// The `n`-th candidate path for the duplicate of `source`, whose file name is `name`.
pub open spec fn duplicate_candidate(source: Seq<char>, name: Seq<char>, n: nat) -> Seq<char> {
    with_file_name_of(source, duplicate_name(name, n))
}

/// The paths that exist, as character sequences.
pub open spec fn taken_paths(existing: Seq<String>) -> Seq<Seq<char>> {
    existing.map_values(|s: String| s@)
}

/// `path` is one of `existing`.
pub open spec fn path_taken(existing: Seq<String>, path: Seq<char>) -> bool {
    taken_paths(existing).contains(path)
}

/// The destination is the first candidate, counting from one suffix up, that is not
/// taken; its file name is the source's with the suffix appended that many times.
pub open spec fn is_first_free_candidate(source: Seq<char>, name: Seq<char>, existing: Seq<String>, dest: Seq<char>) -> bool {
    exists|n: nat| {
        &&& n >= 1
        &&& dest == #[trigger] duplicate_candidate(source, name, n)
        &&& file_name_of(dest) == Some(duplicate_name(name, n))
        &&& !path_taken(existing, dest)
        &&& forall|m: nat| 1 <= m < n ==> path_taken(existing, #[trigger] duplicate_candidate(source, name, m))
    }
}

proof fn lemma_duplicate_name_len(name: Seq<char>, n: nat)
    ensures
        duplicate_name(name, n).len() == name.len() + 4 * n,
    decreases n,
{
    if n > 0 {
        lemma_duplicate_name_len(name, (n - 1) as nat);
    }
}

proof fn lemma_duplicate_name_plain(name: Seq<char>, n: nat)
    requires
        is_plain_file_name(name),
    ensures
        is_plain_file_name(duplicate_name(name, n)),
    decreases n,
{
    if n > 0 {
        lemma_duplicate_name_plain(name, (n - 1) as nat);
        let prev = duplicate_name(name, (n - 1) as nat);
        let d = duplicate_name(name, n);
        assert(d == prev + duplicate_suffix());
        lemma_duplicate_name_len(name, n);
        assert forall|i: int| 0 <= i < d.len() implies d[i] != '/' by {
            if i < prev.len() {
                assert(d[i] == prev[i]);
            } else {
                assert(d[i] == duplicate_suffix()[i - prev.len()]);
            }
        }
        assert(d.len() >= 5);
        assert(d != seq!['.']);
        assert(d != seq!['.', '.']);
    }
}

/// Whether `path` is one of `existing`.
fn is_taken(existing: &Vec<String>, path: &String) -> (taken: bool)
    ensures
        taken == path_taken(existing@, path@),
{
    let mut i: usize = 0;
    while i < existing.len()
        invariant
            i <= existing.len(),
            forall|j: int| 0 <= j < i ==> existing@[j]@ != path@,
        decreases existing.len() - i,
    {
        if existing[i] == *path {
            assert(taken_paths(existing@)[i as int] == path@);
            return true;
        }
        i = i + 1;
    }
    proof {
        if path_taken(existing@, path@) {
            let j = choose|j: int| 0 <= j < taken_paths(existing@).len() && taken_paths(existing@)[j] == path@;
            assert(existing@[j]@ == path@);
        }
    }
    false
}

/// The path of the duplicate of a file or folder, in the same folder: its file name
/// with `.dup` appended once, or as many more times as it takes to reach a path that is
/// not among the paths that exist. `None` when the source path has no file name.
pub fn get_destination_path(source_path: &str, existing: &Vec<String>) -> (dest: Option<String>)
    ensures
        match file_name_of(source_path@) {
            None => dest is None,
            Some(name) => dest matches Some(d) && is_first_free_candidate(source_path@, name, existing@, d@)
                && parent_of(d@) == parent_of(source_path@)
                && d@ != source_path@,
        },
{
    let name = match path_file_name(source_path) {
        None => {
            return None;
        },
        Some(n) => n,
    };
    let ghost base = name@;
    let suffix = ".dup";
    proof {
        reveal_strlit(".dup");
        assert(suffix@ == duplicate_suffix());
        assert(duplicate_name(base, 0) == base);
        lemma_duplicate_name_plain(base, 1);
    }
    let mut file_name = name.clone();
    file_name.append(suffix);
    assert(file_name@ == duplicate_name(base, 1));
    let mut dest = path_with_file_name(source_path, file_name.as_str());
    let ghost mut n: nat = 1;
    let ghost mut tried: Seq<Seq<char>> = Seq::empty();
    while is_taken(existing, &dest)
        invariant
            n >= 1,
            is_plain_file_name(base),
            file_name@ == duplicate_name(base, n),
            dest@ == duplicate_candidate(source_path@, base, n),
            file_name_of(dest@) == Some(duplicate_name(base, n)),
            file_name_of(source_path@) == Some(base),
            parent_of(dest@) == parent_of(source_path@),
            tried.len() == n - 1,
            forall|j: int| 0 <= j < tried.len() ==> tried[j] == duplicate_candidate(source_path@, base, (j + 1) as nat),
            forall|j: int| 0 <= j < tried.len() ==> file_name_of(#[trigger] tried[j]) == Some(duplicate_name(base, (j + 1) as nat)),
            forall|j: int| 0 <= j < tried.len() ==> path_taken(existing@, #[trigger] tried[j]),
            tried.len() <= existing.len(),
            suffix@ == duplicate_suffix(),
        decreases existing.len() - tried.len(),
    {
        let ghost next = tried.push(dest@);
        proof {
            // the candidates tried so far, with this one, are distinct paths that all exist
            assert forall|a: int, b: int| 0 <= a < b < next.len() implies next[a] != next[b] by {
                assert(file_name_of(next[a]) == Some(duplicate_name(base, (a + 1) as nat)));
                assert(file_name_of(next[b]) == Some(duplicate_name(base, (b + 1) as nat)));
                lemma_duplicate_name_len(base, (a + 1) as nat);
                lemma_duplicate_name_len(base, (b + 1) as nat);
            }
            let ev = taken_paths(existing@);
            assert(next.to_set().subset_of(ev.to_set())) by {
                assert forall|p: Seq<char>| next.to_set().contains(p) implies ev.to_set().contains(p) by {
                    let a = choose|a: int| 0 <= a < next.len() && next[a] == p;
                    assert(path_taken(existing@, next[a]));
                }
            }
            next.unique_seq_to_set();
            ev.lemma_cardinality_of_set();
            vstd::set_lib::lemma_len_subset(next.to_set(), ev.to_set());
            assert(next.len() <= existing.len());
        }
        proof {
            tried = next;
            n = n + 1;
            lemma_duplicate_name_plain(base, n);
        }
        file_name.append(suffix);
        dest = path_with_file_name(source_path, file_name.as_str());
    }
    proof {
        assert forall|m: nat| 1 <= m < n implies path_taken(existing@, #[trigger] duplicate_candidate(source_path@, base, m)) by {
            assert(tried[m - 1] == duplicate_candidate(source_path@, base, m));
        }
        // the destination's file name is longer than the source's, so they differ
        lemma_duplicate_name_len(base, n);
        assert(dest@ != source_path@);
    }
    Some(dest)
}

} // verus!
