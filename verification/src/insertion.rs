//! How a failed insertion is classified: a violated uniqueness constraint (with its
//! name) or a technical failure.
use vstd::prelude::*;
use vstd::string::*;
use crate::errors::DbError;

verus! {

/// The Postgres error code of a unique constraint violation.
pub open spec fn unique_violation_code() -> Seq<char> {
    "23505"@
}

/// The name given to a violated unique constraint that the server did not name.
pub open spec fn unnamed_constraint() -> Seq<char> {
    "<unnamed unique constraint>"@
}

/// Whether a database failure was a violation of a unique constraint.
pub open spec fn spec_is_unique_violation(e: DbError) -> bool {
    e.code matches Some(c) && c@ == unique_violation_code()
}

/// Why an insertion failed.
#[derive(Clone, Debug)]
pub enum InsertionError {
    /// The database failed for another reason.
    Technical(DbError),
    /// A unique constraint, with the given name, would have been violated.
    UniqueViolation(String),
}

/// Whether two strings are the same text.
pub fn same_text(a: &str, b: &str) -> (r: bool)
    ensures
        r == (a@ == b@),
{
    let n = a.unicode_len();
    if n != b.unicode_len() {
        return false;
    }
    let mut i: usize = 0;
    while i < n
        invariant
            n == a@.len(),
            n == b@.len(),
            i <= n,
            forall|k: int| 0 <= k < i ==> a@[k] == b@[k],
        decreases n - i,
    {
        if a.get_char(i) != b.get_char(i) {
            return false;
        }
        i = i + 1;
    }
    assert(a@ =~= b@);
    true
}

/// Checks whether a database failure was due to a violation of a UNIQUE constraint.
pub trait SqlxErrExt {
    fn is_unique_violation(&self) -> bool;
}

impl SqlxErrExt for DbError {
    fn is_unique_violation(&self) -> (r: bool)
        ensures
            r == spec_is_unique_violation(*self),
    {
        match &self.code {
            Some(c) => same_text(c.as_str(), "23505"),
            None => false,
        }
    }
}

impl InsertionError {
    /// Classifies a database failure during an insertion: a unique violation carries
    /// the constraint's name, or "<unnamed unique constraint>"; anything else is technical.
    pub fn from_db(e: DbError) -> (r: InsertionError)
        ensures
            spec_is_unique_violation(e) ==> (r matches InsertionError::UniqueViolation(name) && name@ == (
                match e.constraint {
                    Some(c) => c@,
                    None => unnamed_constraint(),
                })),
            !spec_is_unique_violation(e) ==> r == InsertionError::Technical(e),
    {
        if e.is_unique_violation() {
            match e.constraint {
                Some(c) => InsertionError::UniqueViolation(c),
                None => InsertionError::UniqueViolation(String::from_str("<unnamed unique constraint>")),
            }
        } else {
            InsertionError::Technical(e)
        }
    }
}

} // verus!
