//! Path handling for the transfer engine: the reserved remote scheme marker,
//! normalization of remote paths before they are handed to the endpoint
//! client, and resolution of a download's local destination.

use vstd::prelude::*;
use vstd::string::StrSliceExecFns;

use crate::strings::{
    spec_starts_with, spec_after_last, str_starts_with, substring, concat_str, suffix_after_last,
};

verus! {

/// A path names a resource in the remote content store exactly when it
/// carries the reserved scheme marker `data://`.
pub open spec fn spec_is_remote(s: Seq<char>) -> bool {
    spec_starts_with(s, "data://"@)
}

/// The remote path as the endpoint client receives it: the scheme marker is
/// stripped; otherwise a single leading `/` is dropped; all other paths pass
/// through unchanged.
pub open spec fn spec_normalized(s: Seq<char>) -> Seq<char> {
    if spec_is_remote(s) {
        s.skip("data://"@.len() as int)
    } else if s.len() >= 1 && s[0] == '/' {
        s.skip(1)
    } else {
        s
    }
}

/// The characters after the last `/` of `s`; all of `s` when it has none.
pub open spec fn spec_basename(s: Seq<char>) -> Seq<char> {
    spec_after_last(s, '/')
}

/// `dest` with `name` appended as one more path segment.
pub open spec fn spec_joined(dest: Seq<char>, name: Seq<char>) -> Seq<char> {
    if dest.len() >= 1 && dest.last() == '/' {
        dest + name
    } else {
        dest + seq!['/'] + name
    }
}

/// Where a download of remote item `remote` lands locally: inside `dest`
/// under the item's base name when `dest` names an existing directory, and at
/// `dest` verbatim otherwise.
pub open spec fn spec_resolved_dest(dest: Seq<char>, dest_is_dir: bool, remote: Seq<char>) -> Seq<
    char,
> {
    if dest_is_dir {
        spec_joined(dest, spec_basename(spec_normalized(remote)))
    } else {
        dest
    }
}

/// Does this path carry the reserved remote scheme marker?
pub fn is_remote_path(s: &str) -> (r: bool)
    ensures
        r == spec_is_remote(s@),
{
    str_starts_with(s, "data://")
}

/// Strip the scheme marker (or a single leading `/`) so the path can be
/// handed to the endpoint client.
pub fn normalize_data_path(s: &str) -> (r: String)
    ensures
        r@ == spec_normalized(s@),
{
    proof {
        reveal_strlit("data://");
    }
    if is_remote_path(s) {
        substring(s, 7, s.unicode_len())
    } else if s.unicode_len() >= 1 && s.get_char(0) == '/' {
        substring(s, 1, s.unicode_len())
    } else {
        s.to_owned()
    }
}

/// The base name of a path: everything after its last `/`.
pub fn basename(s: &str) -> (r: String)
    ensures
        r@ == spec_basename(s@),
{
    suffix_after_last(s, '/')
}

/// Append `name` to the directory path `dest` with exactly one separator.
pub fn join_path(dest: &str, name: &str) -> (r: String)
    ensures
        r@ == spec_joined(dest@, name@),
{
    let len = dest.unicode_len();
    if len >= 1 && dest.get_char(len - 1) == '/' {
        concat_str(dest, name)
    } else {
        let with_sep = concat_str(dest, "/");
        proof {
            reveal_strlit("/");
            assert(with_sep@ =~= dest@ + seq!['/']);
        }
        let r = concat_str(with_sep.as_str(), name);
        proof {
            assert(r@ =~= dest@ + seq!['/'] + name@);
        }
        r
    }
}

/// Resolve the local file a download writes to: the remote item's base name
/// inside `dest` when `dest` is an existing directory, `dest` itself
/// otherwise. The caller reports whether `dest` names a directory.
pub fn resolve_download_dest(dest: &str, dest_is_dir: bool, remote: &str) -> (r: String)
    ensures
        r@ == spec_resolved_dest(dest@, dest_is_dir, remote@),
{
    if dest_is_dir {
        let normalized = normalize_data_path(remote);
        let name = basename(normalized.as_str());
        join_path(dest, name.as_str())
    } else {
        dest.to_owned()
    }
}

} // verus!
