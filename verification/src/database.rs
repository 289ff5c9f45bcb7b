//! What is decided about the database file before the service starts.

use vstd::prelude::*;

verus! {

/// Whether a database URL names an SQLite database: it begins with
/// `sqlite://`.
pub open spec fn names_sqlite(url: Seq<char>) -> bool {
    "sqlite://"@.is_prefix_of(url)
}

/// Whether `database_url` names an SQLite database. Only such a database is
/// created when it is missing.
pub fn is_sqlite(database_url: &str) -> (yes: bool)
    ensures
        yes == names_sqlite(database_url@),
{
    let scheme = "sqlite://";
    proof {
        reveal_strlit("sqlite://");
    }
    if database_url.unicode_len() < 9 {
        return false;
    }
    let mut i: usize = 0;
    while i < 9
        invariant
            i <= 9,
            scheme@ == "sqlite://"@,
            scheme@.len() == 9,
            database_url@.len() >= 9,
            forall|j: int| 0 <= j < i ==> database_url@[j] == scheme@[j],
        decreases 9 - i,
    {
        if database_url.get_char(i) != scheme.get_char(i) {
            assert(database_url@.subrange(0, 9)[i as int] != scheme@[i as int]);
            return false;
        }
        i += 1;
    }
    assert(database_url@.subrange(0, 9) =~= scheme@);
    true
}

/// Whether the database is to be created, given what the look for it said:
/// it is, unless the look found it. A look that failed counts as not found.
pub fn is_missing(exists: Option<bool>) -> (missing: bool)
    ensures
        missing == (exists != Some(true)),
{
    match exists {
        Some(found) => !found,
        None => true,
    }
}

} // verus!
