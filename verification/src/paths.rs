//! Paths: the folder a path is in and the name of the file without its
//! extension, through the standard library's `Path`; and a path joined to a
//! name, as `Path::join` does it on Unix.
use vstd::prelude::*;
use crate::text::chars_of;

verus! {

/// What `Path::parent` gives for a path.
pub uninterp spec fn path_parent(p: Seq<char>) -> Option<Seq<char>>;

/// What `Path::file_stem` gives for a path.
pub uninterp spec fn path_file_stem(p: Seq<char>) -> Option<Seq<char>>;

/// `base` joined to `name` as `Path::join` does it on Unix: an absolute
/// name replaces the base; else a `/` goes between them where the base is
/// not empty and does not end with one.
pub open spec fn path_join(base: Seq<char>, name: Seq<char>) -> Seq<char> {
    if name.len() > 0 && name[0] == '/' {
        name
    } else if base.len() > 0 && base.last() != '/' {
        base + seq!['/'] + name
    } else {
        base + name
    }
}

/// The folder that `p` is in (`Path::parent`): `None` for a path that ends
/// in a root or is empty. Claimed: the result is the one `path_parent`
/// names for `p`; nothing more is stated of it.
#[verifier::external_body]
pub(crate) fn parent(p: &str) -> (r: Option<String>)
    ensures
        r matches Some(s) ==> path_parent(p@) == Some(s@),
        r is None <==> path_parent(p@) is None,
{
    match std::path::Path::new(p).parent() {
        Some(q) => Some(q.to_string_lossy().into_owned()),
        None => None,
    }
}

/// The name of the file at `p` without its last extension
/// (`Path::file_stem`). Claimed: the result is the one `path_file_stem`
/// names for `p`; nothing more is stated of it.
#[verifier::external_body]
pub(crate) fn file_stem(p: &str) -> (r: Option<String>)
    ensures
        r matches Some(s) ==> path_file_stem(p@) == Some(s@),
        r is None <==> path_file_stem(p@) is None,
{
    match std::path::Path::new(p).file_stem() {
        Some(q) => Some(q.to_string_lossy().into_owned()),
        None => None,
    }
}

/// `base` joined to `name`.
pub fn join(base: &str, name: &str) -> (r: String)
    ensures
        r@ == path_join(base@, name@),
{
    let vn = chars_of(name);
    if vn.len() > 0 && vn[0] == '/' {
        return String::from_str(name);
    }
    let vb = chars_of(base);
    let mut r = String::from_str(base);
    if vb.len() > 0 && vb[vb.len() - 1] != '/' {
        proof {
            reveal_strlit("/");
        }
        r.append("/");
        assert("/"@ =~= seq!['/']);
    }
    r.append(name);
    r
}

} // verus!
