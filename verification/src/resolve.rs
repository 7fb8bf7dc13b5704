//! Selecting the target account among the directory's candidates.

use vstd::prelude::*;

use crate::model::Account;

verus! {

/// Why resolving the target username failed.
#[derive(Clone, Copy, PartialEq, Eq, Structural, Debug)]
pub enum ResolveError {
    /// No candidate's username equals the target exactly.
    NotFound,
}

impl ResolveError {
    /// The diagnostic text for this error.
    pub open spec fn message_spec(&self) -> Seq<char> {
        "Account not found"@
    }

    /// Renders the diagnostic named by `message_spec`.
    pub fn message(&self) -> (r: String)
        ensures
            r@ == self.message_spec(),
    {
        "Account not found".to_owned()
    }
}

/// Selects the first candidate whose username equals `username` exactly
/// (case-sensitive, no partial match); when no candidate matches, resolution
/// fails.
pub fn find_account(candidates: &Vec<Account>, username: &String) -> (r: Result<
    Account,
    ResolveError,
>)
    ensures
        match r {
            Ok(a) => exists|i: int|
                {
                    &&& 0 <= i < candidates@.len()
                    &&& a == candidates@[i]
                    &&& a.username@ == username@
                    &&& forall|j: int| 0 <= j < i ==> #[trigger] candidates@[j].username@
                        != username@
                },
            Err(e) => e == ResolveError::NotFound && forall|i: int|
                0 <= i < candidates@.len() ==> #[trigger] candidates@[i].username@ != username@,
        },
{
    let n = candidates.len();
    let mut i: usize = 0;
    while i < n
        invariant
            n == candidates@.len(),
            0 <= i <= n,
            forall|j: int| 0 <= j < i ==> #[trigger] candidates@[j].username@ != username@,
        decreases n - i,
    {
        let candidate = &candidates[i];
        if candidate.username == *username {
            let found = candidate.clone();
            assert(found == candidates@[i as int]);
            return Ok(found);
        }
        i = i + 1;
    }
    Err(ResolveError::NotFound)
}

} // verus!
