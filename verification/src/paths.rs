//! Paths, held as strings, and the outside functions that compute them.

use vstd::prelude::*;
use vstd::string::StringExecFns;

use crate::text::{chars_of, push_char, string_of};

verus! {

/// The path that `Path::join` makes of `base` with `comp` adjoined, on
/// Unix: an absolute `comp` (one that starts with `/`) replaces `base`;
/// otherwise `comp` follows `base`, with a `/` between them unless `base`
/// is empty or already ends in one.
pub open spec fn joined_path(base: Seq<char>, comp: Seq<char>) -> Seq<char> {
    if comp.len() > 0 && comp[0] == '/' {
        comp
    } else if base.len() == 0 || base.last() == '/' {
        base + comp
    } else {
        base + seq!['/'] + comp
    }
}

/// The path that `Path::parent` gives for `p`: `p` without its final
/// component, or `None` when `p` ends in a root or is empty. It is a
/// function of `p` alone.
pub uninterp spec fn parent_path(p: Seq<char>) -> Option<Seq<char>>;

/// The characters of an optional string.
pub open spec fn opt_chars(s: Option<String>) -> Option<Seq<char>> {
    match s {
        Some(t) => Some(t@),
        None => None,
    }
}

/// `base` with `comp` adjoined, as `std::path::Path::join` does on Unix
/// (see `joined_path`).
pub fn join_path(base: &str, comp: &str) -> (r: String)
    ensures
        r@ == joined_path(base@, comp@),
{
    let b = chars_of(base);
    let c = chars_of(comp);
    if c.len() > 0 && c[0] == '/' {
        let r = string_of(&c, 0, c.len());
        assert(c@.subrange(0, c@.len() as int) =~= c@);
        return r;
    }
    let mut r = string_of(&b, 0, b.len());
    assert(b@.subrange(0, b@.len() as int) =~= b@);
    if b.len() > 0 && b[b.len() - 1] != '/' {
        push_char(&mut r, '/');
    }
    r.append(comp);
    r
}

/// `std::path::Path::parent`: `p` without its final component, if it has
/// one. The parent of a UTF-8 path is UTF-8 too, so the conversion back to a
/// string loses nothing. The contract names the result and states nothing
/// more of it.
#[verifier::external_body]
pub(crate) fn parent_of(p: &str) -> (r: Option<String>)
    ensures
        opt_chars(r) == parent_path(p@),
{
    match std::path::Path::new(p).parent() {
        Some(q) => Some(q.to_string_lossy().into_owned()),
        None => None,
    }
}

/// `dirs::config_dir`: the user's configuration directory, which the
/// environment decides (`$XDG_CONFIG_HOME`, else `$HOME/.config`, on
/// Linux), or `None`. A path that is not UTF-8 is converted lossily. Nothing
/// is stated of the result: it depends on the environment.
#[verifier::external_body]
pub(crate) fn user_config_dir() -> (r: Option<String>) {
    match dirs::config_dir() {
        Some(p) => Some(p.to_string_lossy().into_owned()),
        None => None,
    }
}

} // verus!
