use vstd::prelude::*;
use vstd::string::{StrSliceExecFns, StringExecFns};
use crate::report::texts;

verus! {

/// A directory tree as read from disk, entries in the order of the listing.
#[derive(Debug)]
pub enum DirEntry {
    /// A regular file: its full path and its file name.
    File { path: String, name: String },
    /// A directory: its full path and its entries.
    Dir { path: String, entries: Vec<DirEntry> },
    /// Anything that is neither a file nor a directory.
    Other,
}

/// Why no test case can run at all.
#[derive(Clone, Copy, Debug, PartialEq, Eq, Structural)]
pub enum DiscoveryError {
    /// The test root does not exist.
    DirectoryNotFound,
    /// The test root holds no test input.
    NoInputsFound,
}

/// The index of the last `.` in a file name, or -1 where it has none.
pub open spec fn last_dot(name: Seq<char>) -> int
    decreases name.len(),
{
    if name.len() == 0 {
        -1
    } else if name.last() == '.' {
        name.len() - 1
    } else {
        last_dot(name.drop_last())
    }
}

proof fn lemma_last_dot_bounds(name: Seq<char>)
    ensures
        -1 <= last_dot(name) < name.len(),
    decreases name.len(),
{
    if name.len() > 0 {
        lemma_last_dot_bounds(name.drop_last());
    }
}

/// The extension of a file name: what follows its last `.`, where that dot
/// is not the name's first character (and the name is not `..`).
pub open spec fn extension_of(name: Seq<char>) -> Option<Seq<char>> {
    if name == ".."@ || last_dot(name) <= 0 {
        None
    } else {
        Some(name.subrange(last_dot(name) + 1, name.len() as int))
    }
}

/// Whether a file name marks a test input.
pub open spec fn is_input_name(name: Seq<char>) -> bool {
    extension_of(name) == Some("essence"@) || extension_of(name) == Some("eprime"@)
}

/// The paths of the test inputs in a tree, in the order of a depth-first walk.
pub open spec fn input_files(e: DirEntry) -> Seq<Seq<char>>
    decreases e,
{
    match e {
        DirEntry::File { path, name } => if is_input_name(name@) {
            seq![path@]
        } else {
            seq![]
        },
        DirEntry::Dir { path, entries } => input_files_in(entries@),
        DirEntry::Other => seq![],
    }
}

/// The paths of the test inputs in a sequence of entries, entry by entry.
pub open spec fn input_files_in(es: Seq<DirEntry>) -> Seq<Seq<char>>
    decreases es,
{
    if es.len() == 0 {
        seq![]
    } else {
        input_files_in(es.drop_last()) + input_files(es.last())
    }
}

/// The position of the last `.` in a file name, if any.
fn find_last_dot(name: &str) -> (r: Option<usize>)
    ensures
        match r {
            Some(i) => i as int == last_dot(name@),
            None => last_dot(name@) == -1,
        },
{
    let n = name.unicode_len();
    let mut i: usize = n;
    assert(name@.take(n as int) =~= name@);
    while i > 0
        invariant
            i <= n,
            n == name@.len(),
            last_dot(name@) == last_dot(name@.take(i as int)),
        decreases i,
    {
        let ghost pre = name@.take(i as int);
        assert(pre.drop_last() =~= name@.take(i - 1));
        if name.get_char(i - 1) == '.' {
            return Some(i - 1);
        }
        i -= 1;
    }
    assert(name@.take(0) =~= Seq::<char>::empty());
    None
}

/// Whether a file name has one of the two test input extensions.
pub fn is_input_file_name(name: &str) -> (r: bool)
    ensures
        r == is_input_name(name@),
{
    proof {
        reveal_strlit("..");
        reveal_strlit("essence");
        reveal_strlit("eprime");
    }
    assert(name@.take(name@.len() as int) =~= name@);
    let dots = String::from_str("..");
    let owned = String::from_str(name);
    if owned == dots {
        return false;
    }
    match find_last_dot(name) {
        None => false,
        Some(i) => {
            proof {
                lemma_last_dot_bounds(name@);
            }
            if i == 0 {
                return false;
            }
            let n = name.unicode_len();
            let ext = String::from_str(name.substring_char(i + 1, n));
            let essence = String::from_str("essence");
            let eprime = String::from_str("eprime");
            ext == essence || ext == eprime
        },
    }
}

/// Appends to `files` the test inputs of the tree rooted at `dir`.
fn find_essence_files_recursive_helper(dir: &DirEntry, files: &mut Vec<String>)
    ensures
        texts(final(files)@) == texts(old(files)@) + input_files(*dir),
    decreases dir,
{
    match dir {
        DirEntry::File { path, name } => {
            if is_input_file_name(name.as_str()) {
                let ghost before = files@;
                files.push(path.clone());
                assert(texts(files@) =~= texts(before) + seq![path@]);
            } else {
                assert(texts(files@) =~= texts(files@) + Seq::<Seq<char>>::empty());
            }
        },
        DirEntry::Dir { path, entries } => {
            let ghost start = files@;
            let mut i: usize = 0;
            assert(entries@.take(0) =~= Seq::<DirEntry>::empty());
            assert(texts(start) =~= texts(start) + input_files_in(entries@.take(0)));
            assert(decreases_to!(*dir => entries@));
            while i < entries.len()
                invariant
                    i <= entries.len(),
                    decreases_to!(*dir => entries@),
                    texts(files@) == texts(start) + input_files_in(entries@.take(i as int)),
                decreases entries.len() - i,
            {
                let ghost before = files@;
                proof {
                    assert(decreases_to!(entries@ => entries@[i as int]));
                }
                find_essence_files_recursive_helper(&entries[i], files);
                assert(entries@.take(i + 1).drop_last() =~= entries@.take(i as int));
                assert(texts(files@) =~= texts(start) + input_files_in(entries@.take(i + 1)));
                i += 1;
            }
            assert(entries@.take(i as int) =~= entries@);
        },
        DirEntry::Other => {
            assert(texts(files@) =~= texts(files@) + Seq::<Seq<char>>::empty());
        },
    }
}

/// The paths of all test inputs under `dir`, in the order of a depth-first
/// walk of its listing.
pub fn find_essence_files_recursive(dir: &DirEntry) -> (r: Vec<String>)
    ensures
        texts(r@) == input_files(*dir),
{
    let mut files: Vec<String> = Vec::new();
    assert(texts(files@) =~= Seq::<Seq<char>>::empty());
    find_essence_files_recursive_helper(dir, &mut files);
    assert(texts(files@) =~= input_files(*dir));
    files
}

/// The test inputs of a run: the root must exist and hold at least one.
pub fn discover_inputs(root: Option<&DirEntry>) -> (r: Result<Vec<String>, DiscoveryError>)
    ensures
        match root {
            None => r == Err::<Vec<String>, DiscoveryError>(DiscoveryError::DirectoryNotFound),
            Some(d) => if input_files(*d).len() == 0 {
                r == Err::<Vec<String>, DiscoveryError>(DiscoveryError::NoInputsFound)
            } else {
                r is Ok && texts(r->Ok_0@) == input_files(*d)
            },
        },
{
    match root {
        None => Err(DiscoveryError::DirectoryNotFound),
        Some(d) => {
            let files = find_essence_files_recursive(d);
            if files.len() == 0 {
                Err(DiscoveryError::NoInputsFound)
            } else {
                Ok(files)
            }
        },
    }
}

} // verus!
