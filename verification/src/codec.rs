//! The name codec: the bidirectional mapping between a (group name, relative
//! path) pair and the flat display name `"{group}::{relative}"` used for
//! reporting and for exact re-selection, together with the path join and
//! prefix-strip operations it rests on.
//!
//! Paths are plain strings with `/` as the separator.

use vstd::prelude::*;

verus! {

use crate::strutil::is_prefix_of;
use crate::strutil::strip_prefix_chars;
use crate::strutil::to_owned_string;
use vstd::string::StrSliceExecFns;
use vstd::string::StringExecFns;

/// The separator between the group name and the relative path in a display
/// name.
pub open spec fn name_sep() -> Seq<char> {
    seq![':', ':']
}

/// Joining a root and a relative path: a separator is inserted unless the
/// root is empty or already ends with one.
pub open spec fn join_path_spec(root: Seq<char>, rel: Seq<char>) -> Seq<char> {
    if root.len() == 0 {
        rel
    } else if root[root.len() - 1] == '/' {
        root + rel
    } else {
        root + seq!['/'] + rel
    }
}

/// The relative part of `path` under `root`: defined when `path` lies
/// strictly below `root` (an empty root is below everything).
pub open spec fn strip_path_prefix_spec(root: Seq<char>, path: Seq<char>) -> Option<Seq<char>> {
    if root.len() == 0 {
        Some(path)
    } else if root.len() < path.len() && path.subrange(0, root.len() as int) == root && (root[root.len()
        - 1] == '/' || path[root.len() as int] == '/') {
        if root[root.len() - 1] == '/' {
            Some(path.skip(root.len() as int))
        } else {
            Some(path.skip(root.len() as int + 1))
        }
    } else {
        None
    }
}

/// The display name of a relative path registered under a group.
pub open spec fn encode_name_spec(group: Seq<char>, rel: Seq<char>) -> Seq<char> {
    group + name_sep() + rel
}

/// Decoding a display name against a group and a root: strips the group,
/// then the separator, and joins what is left onto the root. `None` means
/// the name does not belong to this group.
pub open spec fn decode_name_spec(filter: Seq<char>, group: Seq<char>, root: Seq<char>) -> Option<
    Seq<char>,
> {
    if is_prefix_of(group, filter) && is_prefix_of(name_sep(), filter.skip(group.len() as int)) {
        Some(join_path_spec(root, filter.skip(group.len() as int).skip(2)))
    } else {
        None
    }
}

/// Joins a root and a relative path.
pub fn join_path(root: &str, rel: &str) -> (r: String)
    ensures
        r@ == join_path_spec(root@, rel@),
{
    let n: usize = root.unicode_len();
    if n == 0 {
        return to_owned_string(rel);
    }
    let last = root.get_char(n - 1);
    let mut r = to_owned_string(root);
    if last != '/' {
        proof {
            reveal_strlit("/");
            assert("/"@ =~= seq!['/']);
        }
        r.append("/");
    }
    r.append(rel);
    proof {
        assert(r@ =~= join_path_spec(root@, rel@));
    }
    r
}

/// Strips `root` from the front of `path`, path-aware: the remainder must
/// begin at a separator (or the root itself end with one).
pub fn strip_path_prefix(root: &str, path: &str) -> (r: Option<String>)
    ensures
        match r {
            Some(rel) => strip_path_prefix_spec(root@, path@) == Some(rel@),
            None => strip_path_prefix_spec(root@, path@) is None,
        },
{
    let n: usize = root.unicode_len();
    if n == 0 {
        return Some(to_owned_string(path));
    }
    match strip_prefix_chars(path, root) {
        None => None,
        Some(rest) => {
            let rest_len: usize = rest.unicode_len();
            if rest_len == 0 {
                return None;
            }
            let root_last = root.get_char(n - 1);
            if root_last == '/' {
                Some(to_owned_string(rest))
            } else if rest.get_char(0) == '/' {
                let rel = rest.substring_char(1, rest_len);
                proof {
                    assert(rest@.subrange(1, rest@.len() as int) =~= path@.skip(
                        root@.len() as int + 1,
                    ));
                }
                Some(to_owned_string(rel))
            } else {
                None
            }
        },
    }
}

/// Derives the display name of `path`, which must lie under `root`, for the
/// group `test_name`.
pub fn derive_test_name(root: &str, path: &str, test_name: &str) -> (r: String)
    requires
        strip_path_prefix_spec(root@, path@) is Some,
    ensures
        r@ == encode_name_spec(test_name@, strip_path_prefix_spec(root@, path@)->Some_0),
{
    match strip_path_prefix(root, path) {
        Some(rel) => encode_name(test_name, rel.as_str()),
        None => vstd::pervasive::unreached(),
    }
}

/// Builds the display name `"{group}::{rel}"`.
pub fn encode_name(group: &str, rel: &str) -> (r: String)
    ensures
        r@ == encode_name_spec(group@, rel@),
{
    let mut r = to_owned_string(group);
    proof {
        reveal_strlit("::");
        assert("::"@ =~= name_sep());
    }
    r.append("::");
    r.append(rel);
    proof {
        assert(r@ =~= encode_name_spec(group@, rel@));
    }
    r
}

/// Maps a display name back to the path it stands for under `root`, or
/// reports that the name does not belong to the group `test_name`.
pub fn derive_test_path(root: &str, filter: &str, test_name: &str) -> (r: Option<String>)
    ensures
        match r {
            Some(p) => decode_name_spec(filter@, test_name@, root@) == Some(p@),
            None => decode_name_spec(filter@, test_name@, root@) is None,
        },
{
    proof {
        reveal_strlit("::");
        assert("::"@ =~= name_sep());
    }
    match strip_prefix_chars(filter, test_name) {
        None => None,
        Some(rest) => match strip_prefix_chars(rest, "::") {
            None => None,
            Some(rel) => {
                proof {
                    assert(rest@.skip(2) =~= filter@.skip(test_name@.len() as int).skip(2));
                }
                Some(join_path(root, rel))
            },
        },
    }
}

/// Encoding then decoding gives back the path joined onto the root: the
/// display name of any registered file resolves to that file, whatever
/// characters its relative path holds.
pub proof fn lemma_name_roundtrip(group: Seq<char>, rel: Seq<char>, root: Seq<char>)
    ensures
        decode_name_spec(encode_name_spec(group, rel), group, root) == Some(
            join_path_spec(root, rel),
        ),
{
    let enc = encode_name_spec(group, rel);
    assert(enc.subrange(0, group.len() as int) =~= group);
    assert(enc.skip(group.len() as int) =~= name_sep() + rel);
    assert((name_sep() + rel).subrange(0, 2) =~= name_sep());
    assert(enc.skip(group.len() as int).skip(2) =~= rel);
}

/// Stripping a joined path gives back the relative part. (A root that ends
/// with a separator joined with an empty relative path gives the root
/// itself, which no longer lies strictly below it; that case is excluded.)
pub proof fn lemma_strip_join(root: Seq<char>, rel: Seq<char>)
    requires
        rel.len() > 0 || root.len() == 0 || root[root.len() - 1] != '/',
    ensures
        strip_path_prefix_spec(root, join_path_spec(root, rel)) == Some(rel),
{
    let path = join_path_spec(root, rel);
    if root.len() == 0 {
    } else if root[root.len() - 1] == '/' {
        assert(path.subrange(0, root.len() as int) =~= root);
        assert(path.skip(root.len() as int) =~= rel);
    } else {
        assert(path.subrange(0, root.len() as int) =~= root);
        assert(path[root.len() as int] == '/');
        assert(path.skip(root.len() as int + 1) =~= rel);
    }
}

/// Joining the stripped relative part back onto the root gives the original
/// path.
pub proof fn lemma_join_strip(root: Seq<char>, path: Seq<char>)
    requires
        strip_path_prefix_spec(root, path) is Some,
    ensures
        join_path_spec(root, strip_path_prefix_spec(root, path)->Some_0) == path,
{
    if root.len() == 0 {
    } else if root[root.len() - 1] == '/' {
        assert(root + path.skip(root.len() as int) =~= path);
    } else {
        assert(root + seq!['/'] + path.skip(root.len() as int + 1) =~= path);
    }
}

} // verus!
