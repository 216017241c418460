//! Path codec: persisted paths name the user's home directory by a fixed
//! placeholder, so that a store written on one machine reads on another.

use vstd::prelude::*;
use crate::text::{has_prefix, starts_with};

verus! {

/// The placeholder that stands for the home directory in persisted paths.
pub const USER_HOME_AMBIGUATION: &'static str = "__user_home__";

/// The characters of [`USER_HOME_AMBIGUATION`].
pub open spec fn home_token() -> Seq<char> {
    "__user_home__"@
}

/// `path` lies under the non-empty directory `home`: it is `home` itself, or
/// `home` is followed in it by a separator (or ends in one).
pub open spec fn under_home(path: Seq<char>, home: Seq<char>) -> bool {
    home.len() > 0 && has_prefix(path, home) && (path.len() == home.len() || path[home.len() as int]
        == '/' || home.last() == '/')
}

/// `path` as persisted: a home directory that `path` lies under becomes the
/// placeholder; any other path is kept verbatim.
pub open spec fn encoded(path: Seq<char>, home: Seq<char>) -> Seq<char> {
    if under_home(path, home) {
        home_token() + path.subrange(home.len() as int, path.len() as int)
    } else {
        path
    }
}

/// A persisted path read back: a leading placeholder becomes `home`.
pub open spec fn decoded(s: Seq<char>, home: Seq<char>) -> Seq<char> {
    if has_prefix(s, home_token()) {
        home + s.subrange(home_token().len() as int, s.len() as int)
    } else {
        s
    }
}

/// Whether `path` lies under the home directory `home`.
pub fn is_under_home(path: &str, home: &str) -> (r: bool)
    ensures
        r == under_home(path@, home@),
{
    let h = home.unicode_len();
    if h == 0 || !starts_with(path, home) {
        return false;
    }
    path.unicode_len() == h || path.get_char(h) == '/' || home.get_char(h - 1) == '/'
}

/// Encodes `path` for persistence, replacing the home directory it lies under
/// by the placeholder.
pub fn encode_path(path: &str, home: &str) -> (r: String)
    ensures
        r@ == encoded(path@, home@),
{
    if is_under_home(path, home) {
        let rest = path.substring_char(home.unicode_len(), path.unicode_len());
        let mut r = String::from_str(USER_HOME_AMBIGUATION);
        r.append(rest);
        proof {
            reveal_strlit("__user_home__");
        }
        r
    } else {
        String::from_str(path)
    }
}

/// Decodes a persisted path, replacing a leading placeholder by `home`.
pub fn decode_path(s: &str, home: &str) -> (r: String)
    ensures
        r@ == decoded(s@, home@),
{
    proof {
        reveal_strlit("__user_home__");
    }
    if starts_with(s, USER_HOME_AMBIGUATION) {
        let rest = s.substring_char(USER_HOME_AMBIGUATION.unicode_len(), s.unicode_len());
        let mut r = String::from_str(home);
        r.append(rest);
        r
    } else {
        String::from_str(s)
    }
}

/// Decoding an encoded path gives the path back, whether it lies under the
/// home directory or not. The one exception is the documented ambiguity: a
/// path outside the home directory that itself begins with the placeholder.
pub proof fn law_path_round_trip(path: Seq<char>, home: Seq<char>)
    requires
        under_home(path, home) || !has_prefix(path, home_token()),
    ensures
        decoded(encoded(path, home), home) == path,
{
    if under_home(path, home) {
        let rest = path.subrange(home.len() as int, path.len() as int);
        let e = home_token() + rest;
        assert(e.subrange(0, home_token().len() as int) =~= home_token());
        assert(e.subrange(home_token().len() as int, e.len() as int) =~= rest);
        assert(home + rest =~= path);
    }
}

} // verus!
