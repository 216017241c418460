//! Where the manager keeps its files, and how a tracked file's mirror path is named.

use vstd::prelude::*;
use crate::text::{join, join_path, path_ends_with, path_ends_with_exec};

verus! {

pub const APPLICATION_NAME: &'static str = "conman";

pub const METADATA_FILE_NAME: &'static str = "_conman_internal_metadata.toml";

pub const METADATA_CACHE_FILE_NAME: &'static str = "_metadata_cache.toml";

pub const REPO_DIRECTORY: &'static str = "_conman_repo";

pub const CONFIG_FILE_NAME: &'static str = "config.toml";

/// The character of a decimal digit.
pub open spec fn digit_char(d: nat) -> char {
    if d == 0 {
        '0'
    } else if d == 1 {
        '1'
    } else if d == 2 {
        '2'
    } else if d == 3 {
        '3'
    } else if d == 4 {
        '4'
    } else if d == 5 {
        '5'
    } else if d == 6 {
        '6'
    } else if d == 7 {
        '7'
    } else if d == 8 {
        '8'
    } else {
        '9'
    }
}

/// The decimal numeral of `n`, without leading zeros.
pub open spec fn decimal(n: nat) -> Seq<char>
    decreases n,
{
    if n < 10 {
        seq![digit_char(n)]
    } else {
        decimal(n / 10) + seq![digit_char(n % 10)]
    }
}

/// `p` without its trailing separators.
pub open spec fn trimmed(p: Seq<char>) -> Seq<char>
    decreases p.len(),
{
    if p.len() > 0 && p.last() == '/' {
        trimmed(p.drop_last())
    } else {
        p
    }
}

/// What follows the last separator of `p`.
pub open spec fn last_segment(p: Seq<char>) -> Seq<char>
    decreases p.len(),
{
    if p.len() == 0 || p.last() == '/' {
        Seq::empty()
    } else {
        last_segment(p.drop_last()).push(p.last())
    }
}

/// The final component of `p`, trailing separators ignored; none where it
/// is empty, `.` or `..`.
pub open spec fn file_name(p: Seq<char>) -> Option<Seq<char>> {
    let n = last_segment(trimmed(p));
    if n.len() == 0 || n == "."@ || n == ".."@ {
        None
    } else {
        Some(n)
    }
}

fn digit_str(d: u64) -> (r: &'static str)
    requires
        d < 10,
    ensures
        r@ == seq![digit_char(d as nat)],
{
    proof {
        reveal_strlit("0");
        reveal_strlit("1");
        reveal_strlit("2");
        reveal_strlit("3");
        reveal_strlit("4");
        reveal_strlit("5");
        reveal_strlit("6");
        reveal_strlit("7");
        reveal_strlit("8");
        reveal_strlit("9");
    }
    if d == 0 {
        "0"
    } else if d == 1 {
        "1"
    } else if d == 2 {
        "2"
    } else if d == 3 {
        "3"
    } else if d == 4 {
        "4"
    } else if d == 5 {
        "5"
    } else if d == 6 {
        "6"
    } else if d == 7 {
        "7"
    } else if d == 8 {
        "8"
    } else {
        assert("9"@ =~= seq![digit_char(d as nat)]);
        "9"
    }
}

/// The decimal numeral of `n`.
pub fn decimal_string(n: u64) -> (r: String)
    ensures
        r@ == decimal(n as nat),
    decreases n,
{
    if n < 10 {
        String::from_str(digit_str(n))
    } else {
        let mut r = decimal_string(n / 10);
        r.append(digit_str(n % 10));
        r
    }
}

/// The final component of `path`, trailing separators ignored.
pub fn path_file_name(path: &str) -> (r: Option<String>)
    ensures
        match r {
            Some(n) => file_name(path@) == Some(n@),
            None => file_name(path@) is None,
        },
{
    let ghost p = path@;
    let mut i = path.unicode_len();
    assert(p.subrange(0, i as int) =~= p);
    while i > 0 && path.get_char(i - 1) == '/'
        invariant
            i <= p.len(),
            p == path@,
            trimmed(p) == trimmed(p.subrange(0, i as int)),
        decreases i,
    {
        assert(p.subrange(0, i as int).drop_last() =~= p.subrange(0, i - 1));
        i = i - 1;
    }
    let ghost q = p.subrange(0, i as int);
    assert(trimmed(q) == q);
    let mut j = i;
    assert(q.subrange(0, j as int) =~= q);
    assert(last_segment(q) + p.subrange(j as int, i as int) =~= last_segment(q));
    while j > 0 && path.get_char(j - 1) != '/'
        invariant
            j <= i <= p.len(),
            p == path@,
            q == p.subrange(0, i as int),
            last_segment(q) == last_segment(q.subrange(0, j as int)) + p.subrange(j as int, i as int),
        decreases j,
    {
        let ghost s = q.subrange(0, j as int);
        assert(s.drop_last() =~= q.subrange(0, j - 1));
        assert(s.last() == p[j - 1]);
        assert(last_segment(s) == last_segment(q.subrange(0, j - 1)).push(p[j - 1]));
        assert(last_segment(q.subrange(0, j - 1)).push(p[j - 1]) + p.subrange(j as int, i as int)
            =~= last_segment(q.subrange(0, j - 1)) + p.subrange(j - 1, i as int));
        j = j - 1;
    }
    assert(last_segment(q.subrange(0, j as int)) =~= Seq::<char>::empty());
    assert(last_segment(q) =~= p.subrange(j as int, i as int));
    let name = path.substring_char(j, i);
    proof {
        reveal_strlit(".");
        reveal_strlit("..");
    }
    let len = i - j;
    if len == 0 || (len == 1 && name.get_char(0) == '.') || (len == 2 && name.get_char(0) == '.'
        && name.get_char(1) == '.') {
        proof {
            if len == 1 {
                assert(name@ =~= "."@);
            }
            if len == 2 {
                assert(name@ =~= ".."@);
            }
        }
        None
    } else {
        proof {
            if len == 1 {
                assert(name@[0] != "."@[0]);
            }
            if len == 2 {
                assert(name@[0] != "."@[0] || name@[1] != ".."@[1]);
            }
        }
        Some(String::from_str(name))
    }
}

/// The mirror path given to a newly tracked file: `<timestamp>-<file name>`
/// inside the mirror repository `repo`.
pub open spec fn mirror_path_for(repo: Seq<char>, timestamp: nat, name: Seq<char>) -> Seq<char> {
    join_path(repo, decimal(timestamp) + "-"@ + name)
}

/// The locations the manager works with.
pub struct Paths {
    /// The mirror repository.
    pub repo: String,
    /// The store document, inside the mirror repository.
    pub metadata: String,
    /// The cache snapshot, outside the mirror repository.
    pub metadata_cache: String,
}

impl Paths {
    /// The locations under the user's data directory `data_dir`.
    pub fn new(data_dir: &str) -> (r: Self)
        ensures
            r.repo@ == join_path(join_path(data_dir@, "conman"@), "_conman_repo"@),
            r.metadata@ == join_path(r.repo@, "_conman_internal_metadata.toml"@),
            r.metadata_cache@ == join_path(join_path(data_dir@, "conman"@), "_metadata_cache.toml"@),
    {
        proof {
            reveal_strlit("conman");
            reveal_strlit("_conman_repo");
            reveal_strlit("_conman_internal_metadata.toml");
            reveal_strlit("_metadata_cache.toml");
        }
        let cache = join(data_dir, APPLICATION_NAME);
        let repo = join(cache.as_str(), REPO_DIRECTORY);
        let metadata_cache = join(cache.as_str(), METADATA_CACHE_FILE_NAME);
        let metadata = join(repo.as_str(), METADATA_FILE_NAME);
        Paths { repo, metadata, metadata_cache }
    }

    /// The mirror path for the system file `on_disk_path`, tracked at
    /// `timestamp` (seconds since the Unix epoch); none where the path has no
    /// file name.
    pub fn repo_local_file_path(&self, on_disk_path: &str, timestamp: u64) -> (r: Option<String>)
        ensures
            match r {
                Some(m) => exists|name: Seq<char>|
                    file_name(on_disk_path@) == Some(name) && m@ == mirror_path_for(
                        self.repo@,
                        timestamp as nat,
                        name,
                    ),
                None => file_name(on_disk_path@) is None,
            },
    {
        match path_file_name(on_disk_path) {
            Some(fname) => {
                let mut name = decimal_string(timestamp);
                name.append("-");
                name.append(fname.as_str());
                proof {
                    reveal_strlit("-");
                }
                let r = join(self.repo.as_str(), name.as_str());
                assert(file_name(on_disk_path@) == Some(fname@) && r@ == mirror_path_for(
                    self.repo@,
                    timestamp as nat,
                    fname@,
                ));
                Some(r)
            },
            None => None,
        }
    }
}

/// Whether the status path `path` is the store document itself, which is never
/// reported as a change of a tracked file.
pub fn is_store_document(path: &str) -> (r: bool)
    ensures
        r == path_ends_with(path@, "_conman_internal_metadata.toml"@),
{
    proof {
        reveal_strlit("_conman_internal_metadata.toml");
    }
    path_ends_with_exec(path, METADATA_FILE_NAME)
}

} // verus!
