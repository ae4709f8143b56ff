//! Where the target store lives.
use vstd::prelude::*;
use vstd::string::*;
use crate::text::{contains, has_infix, has_prefix, starts_with};

verus! {

/// The store used when none is configured: an in-memory SQLite database.
pub open spec fn default_database_url() -> Seq<char> {
    "sqlite::memory:"@
}

/// The store's URL from the value of `DATABASE_URL` (`None` when unset).
pub fn database_url(configured: Option<String>) -> (r: String)
    ensures
        match configured {
            Some(u) => r@ == u@,
            None => r@ == default_database_url(),
        },
{
    match configured {
        Some(u) => u,
        None => String::from_str("sqlite::memory:"),
    }
}

/// The file behind a SQLite URL, if it names one: `sqlite://` or
/// `sqlite:` is stripped; in-memory and non-SQLite URLs name no file.
pub open spec fn sqlite_file_spec(url: Seq<char>) -> Option<Seq<char>> {
    if !has_prefix(url, "sqlite:"@) || has_infix(url, ":memory:"@) {
        None
    } else if has_prefix(url, "sqlite://"@) {
        Some(url.subrange(9, url.len() as int))
    } else {
        Some(url.subrange(7, url.len() as int))
    }
}

/// The path of the database file that a SQLite URL names, so that its
/// directory and the file can be created before connecting.
pub fn sqlite_file_path(url: &str) -> (r: Option<String>)
    ensures
        match r {
            Some(p) => sqlite_file_spec(url@) == Some(p@),
            None => sqlite_file_spec(url@) is None,
        },
{
    proof {
        reveal_strlit("sqlite:");
        reveal_strlit("sqlite://");
    }
    if !starts_with(url, "sqlite:") || contains(url, ":memory:") {
        return None;
    }
    let n = url.unicode_len();
    if starts_with(url, "sqlite://") {
        Some(String::from_str(url.substring_char(9, n)))
    } else {
        Some(String::from_str(url.substring_char(7, n)))
    }
}

} // verus!
