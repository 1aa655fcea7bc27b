//! Fixture sources: a directory on disk or an in-memory tree of files baked
//! into the program. Every source exposes its regular files, skipping hidden
//! ones (names that start with a dot), and a way to read a file's contents.
//!
//! Enumerating an on-disk directory takes file-system access, so the walk
//! itself lives outside the library; each entry it meets is judged by
//! [`include_directory_entry`]. An in-memory tree is enumerated and read
//! here, in full.

use vstd::prelude::*;

verus! {

use crate::strutil::str_eq;
use vstd::string::StrSliceExecFns;

/// One file of an in-memory tree: a relative path with `/` separators and
/// the file's bytes.
pub struct EmbeddedFile {
    /// Path relative to the tree's root.
    pub path: String,
    /// The file's contents.
    pub contents: Vec<u8>,
}

/// Where a registration's fixture files come from: a directory walked at run
/// time, or a tree of files held in memory.
pub enum FixtureSource {
    /// A directory on disk; `root` is its path.
    Directory { root: String },
    /// An in-memory tree; `root` only labels it in names and messages.
    EmbeddedTree { root: String, files: Vec<EmbeddedFile> },
}

/// A file or directory name marks its owner hidden when it starts with a
/// dot.
pub open spec fn is_hidden_name(name: Seq<char>) -> bool {
    name.len() > 0 && name[0] == '.'
}

/// The last component of a path: everything after the last separator.
pub open spec fn file_name_of(p: Seq<char>) -> Seq<char>
    decreases p.len(),
{
    if p.len() == 0 {
        p
    } else if p[p.len() - 1] == '/' {
        Seq::<char>::empty()
    } else {
        file_name_of(p.take(p.len() - 1)) + seq![p[p.len() - 1]]
    }
}

/// A path is hidden when its file name starts with a dot.
pub open spec fn is_hidden_file(p: Seq<char>) -> bool {
    is_hidden_name(file_name_of(p))
}

/// When no separator occurs at or after position `i`, and `i` sits just
/// after a separator (or at the start), the file name is the suffix from
/// `i`.
proof fn lemma_file_name_suffix(p: Seq<char>, i: int)
    requires
        0 <= i <= p.len(),
        forall|j: int| i <= j < p.len() ==> p[j] != '/',
        i == 0 || p[i - 1] == '/',
    ensures
        file_name_of(p) == p.skip(i),
    decreases p.len(),
{
    if i == p.len() {
        if i == 0 {
            assert(file_name_of(p) =~= p.skip(i));
        } else {
            assert(p[p.len() - 1] == '/');
            assert(file_name_of(p) =~= p.skip(i));
        }
    } else {
        assert(p[p.len() - 1] != '/');
        lemma_file_name_suffix(p.take(p.len() - 1), i);
        assert(p.take(p.len() - 1).skip(i) + seq![p[p.len() - 1]] =~= p.skip(i));
    }
}

/// Decides whether a path's file name marks it hidden.
pub fn is_hidden_path(p: &str) -> (r: bool)
    ensures
        r == is_hidden_file(p@),
{
    let n: usize = p.unicode_len();
    let mut i: usize = n;
    loop
        invariant
            0 <= i <= n,
            n == p@.len(),
            forall|j: int| i <= j < n ==> p@[j] != '/',
        ensures
            0 <= i <= n,
            i == 0 || p@[i - 1] == '/',
            forall|j: int| i <= j < n ==> p@[j] != '/',
        decreases i,
    {
        if i == 0 {
            break;
        }
        let c = p.get_char(i - 1);
        if c == '/' {
            break;
        }
        i = i - 1;
    }
    proof {
        lemma_file_name_suffix(p@, i as int);
    }
    if i < n {
        let first = p.get_char(i);
        proof {
            assert(p@.skip(i as int)[0] == p@[i as int]);
        }
        first == '.'
    } else {
        proof {
            assert(p@.skip(i as int).len() == 0);
        }
        false
    }
}

/// The decision the directory walk applies to each entry it meets: regular
/// files only, and not hidden ones.
pub fn include_directory_entry(is_file: bool, file_name: &str) -> (r: bool)
    ensures
        r == (is_file && !is_hidden_name(file_name@)),
{
    if !is_file {
        return false;
    }
    if file_name.unicode_len() == 0 {
        return true;
    }
    file_name.get_char(0) != '.'
}

/// The relative paths of the visible files of a table, in table order.
pub open spec fn visible_paths(files: Seq<EmbeddedFile>) -> Seq<Seq<char>>
    decreases files.len(),
{
    if files.len() == 0 {
        Seq::<Seq<char>>::empty()
    } else {
        let rest = visible_paths(files.drop_last());
        if is_hidden_file(files.last().path@) {
            rest
        } else {
            rest.push(files.last().path@)
        }
    }
}

/// Enumeration yields the visible files and nothing else: every yielded
/// path is a table path that is not hidden, and every table path that is
/// not hidden is yielded.
pub proof fn lemma_visible_paths_exact(files: Seq<EmbeddedFile>)
    ensures
        forall|i: int|
            0 <= i < visible_paths(files).len() ==> !is_hidden_file(visible_paths(files)[i]),
        forall|i: int|
            #![trigger files[i]]
            0 <= i < files.len() && !is_hidden_file(files[i].path@) ==> visible_paths(
                files,
            ).contains(files[i].path@),
        forall|i: int|
            0 <= i < visible_paths(files).len() ==> exists|j: int|
                0 <= j < files.len() && #[trigger] files[j].path@ == #[trigger] visible_paths(
                    files,
                )[i],
    decreases files.len(),
{
    if files.len() > 0 {
        lemma_visible_paths_exact(files.drop_last());
        let rest = visible_paths(files.drop_last());
        let whole = visible_paths(files);
        assert forall|i: int|
            0 <= i < files.len() && !is_hidden_file(files[i].path@) implies whole.contains(
            files[i].path@,
        ) by {
            if i < files.len() - 1 {
                assert(files.drop_last()[i] == files[i]);
                let k = choose|k: int| 0 <= k < rest.len() && rest[k] == files[i].path@;
                assert(whole[k] == files[i].path@);
            } else {
                assert(whole.last() == files[i].path@);
            }
        }
        assert forall|i: int| #![trigger whole[i]] 0 <= i < whole.len() implies exists|j: int|
            0 <= j < files.len() && #[trigger] files[j].path@ == whole[i] by {
            if i < rest.len() {
                let j = choose|j: int|
                    0 <= j < files.drop_last().len() && files.drop_last()[j].path@ == rest[i];
                assert(files[j].path@ == whole[i]);
            } else {
                assert(files.last() == files[files.len() - 1]);
                assert(files[files.len() - 1].path@ == whole[i]);
            }
        }
    }
}

/// The contents filed under `rel`, when the table holds that path.
pub open spec fn table_lookup(files: Seq<EmbeddedFile>, rel: Seq<char>) -> Option<Seq<u8>>
    decreases files.len(),
{
    if files.len() == 0 {
        None
    } else if files[0].path@ == rel {
        Some(files[0].contents@)
    } else {
        table_lookup(files.skip(1), rel)
    }
}

impl FixtureSource {
    /// The root path of a directory source, or the label of an embedded
    /// tree.
    pub open spec fn spec_root(&self) -> Seq<char> {
        match self {
            FixtureSource::Directory { root } => root@,
            FixtureSource::EmbeddedTree { root, .. } => root@,
        }
    }

    /// Candidate paths are joined onto the root only for a directory source;
    /// an embedded tree hands its files out under their relative paths.
    pub open spec fn spec_case_path(&self, rel: Seq<char>) -> Seq<char> {
        match self {
            FixtureSource::Directory { root } => crate::codec::join_path_spec(root@, rel),
            FixtureSource::EmbeddedTree { .. } => rel,
        }
    }

    /// Returns the root path or label.
    pub fn root(&self) -> (r: &String)
        ensures
            r@ == self.spec_root(),
    {
        match self {
            FixtureSource::Directory { root } => root,
            FixtureSource::EmbeddedTree { root, .. } => root,
        }
    }

    /// Enumerates the visible files of an embedded tree: every file of the
    /// table whose name does not mark it hidden, in table order.
    pub fn enumerate_embedded(&self) -> (r: Vec<String>)
        requires
            self is EmbeddedTree,
        ensures
            r@.map_values(|s: String| s@) == visible_paths(self->files@),
    {
        match self {
            FixtureSource::EmbeddedTree { files, .. } => {
                let mut r: Vec<String> = Vec::new();
                let mut i: usize = 0;
                proof {
                    assert(files@.take(0) =~= Seq::<EmbeddedFile>::empty());
                    assert(r@.map_values(|s: String| s@) =~= visible_paths(files@.take(0)));
                }
                while i < files.len()
                    invariant
                        0 <= i <= files@.len(),
                        r@.map_values(|s: String| s@) == visible_paths(files@.take(i as int)),
                    decreases files@.len() - i,
                {
                    let hidden = is_hidden_path(files[i].path.as_str());
                    if !hidden {
                        let p = files[i].path.clone();
                        r.push(p);
                    }
                    proof {
                        assert(files@.take(i + 1).drop_last() =~= files@.take(i as int));
                        assert(files@.take(i + 1).last() == files@[i as int]);
                        if !is_hidden_file(files@[i as int].path@) {
                            assert(r@.map_values(|s: String| s@) =~= visible_paths(
                                files@.take(i as int),
                            ).push(files@[i as int].path@));
                        }
                    }
                    i = i + 1;
                }
                proof {
                    assert(files@.take(files@.len() as int) =~= files@);
                }
                r
            },
            FixtureSource::Directory { .. } => vstd::pervasive::unreached(),
        }
    }

    /// Looks a relative path up in an embedded tree's table.
    pub fn embedded_contents(&self, rel: &str) -> (r: Option<&Vec<u8>>)
        requires
            self is EmbeddedTree,
        ensures
            match r {
                Some(c) => table_lookup(self->files@, rel@) == Some(c@),
                None => table_lookup(self->files@, rel@) is None,
            },
    {
        match self {
            FixtureSource::EmbeddedTree { files, .. } => {
                let mut i: usize = 0;
                proof {
                    assert(files@.skip(0) =~= files@);
                }
                while i < files.len()
                    invariant
                        0 <= i <= files@.len(),
                        self is EmbeddedTree,
                        self->files@ == files@,
                        table_lookup(files@, rel@) == table_lookup(files@.skip(i as int), rel@),
                    decreases files@.len() - i,
                {
                    proof {
                        assert(files@.skip(i as int)[0] == files@[i as int]);
                    }
                    if str_eq(files[i].path.as_str(), rel) {
                        proof {
                            assert(files@.skip(i as int).len() > 0);
                            assert(files@.skip(i as int)[0].path@ == rel@);
                            assert(table_lookup(files@.skip(i as int), rel@) == Some(
                                files@[i as int].contents@,
                            ));
                        }
                        return Some(&files[i].contents);
                    }
                    proof {
                        assert(files@.skip(i as int).skip(1) =~= files@.skip(i + 1));
                    }
                    i = i + 1;
                }
                proof {
                    assert(files@.skip(i as int).len() == 0);
                }
                None
            },
            FixtureSource::Directory { .. } => vstd::pervasive::unreached(),
        }
    }
}

} // verus!
