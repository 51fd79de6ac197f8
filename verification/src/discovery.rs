use vstd::prelude::*;

use crate::wallet::WalletError;

verus! {

/// How many directories the automatic signer search inspects: the
/// starting directory and at most five parents.
pub const SIGNER_SEARCH_LIMIT: usize = 6;

/// Picks the directory that the automatic signer search settles on.
/// `found` holds, innermost first, whether each directory on the walk
/// from the starting directory towards the root carries the signer file;
/// the walk ends early where the root is reached. The search takes the
/// closest hit within the budget and fails past it.
pub fn find_signer_index(found: &Vec<bool>) -> (r: Option<usize>)
    ensures
        match r {
            Some(i) => i < found@.len() && i < SIGNER_SEARCH_LIMIT && found@[i as int]
                && (forall|j: int| 0 <= j < i ==> !found@[j]),
            None => forall|j: int|
                0 <= j < found@.len() && j < SIGNER_SEARCH_LIMIT ==> !found@[j],
        },
{
    let mut i: usize = 0;
    while i < found.len() && i < SIGNER_SEARCH_LIMIT
        invariant
            i <= found@.len(),
            forall|j: int| 0 <= j < i ==> !found@[j],
        decreases found@.len() - i,
    {
        if found[i] {
            return Some(i);
        }
        i = i + 1;
    }
    None
}

/// Picks the signer source: an explicit path wins unconditionally, a
/// discovered path is used only in its absence, and with neither the
/// resolution fails as not found.
pub fn resolve_signer_path(explicit: Option<String>, discovered: Option<String>) -> (r: Result<
    String,
    WalletError,
>)
    ensures
        explicit is Some ==> r == Ok::<String, WalletError>(explicit->0),
        explicit is None && discovered is Some ==> r == Ok::<String, WalletError>(
            discovered->0,
        ),
        explicit is None && discovered is None ==> r == Err::<String, WalletError>(
            WalletError::SignerNotFound,
        ),
{
    match explicit {
        Some(p) => Ok(p),
        None => match discovered {
            Some(p) => Ok(p),
            None => Err(WalletError::SignerNotFound),
        },
    }
}

} // verus!
