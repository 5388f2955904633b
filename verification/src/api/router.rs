use vstd::prelude::*;
use crate::storage::Storage;

verus! {

/// What every HTTP handler shares.
pub struct RouterState {
    pub storage: Storage,
}

impl RouterState {
    pub fn new(storage: Storage) -> (r: RouterState)
        ensures
            r.storage == storage,
    {
        RouterState { storage }
    }
}

} // verus!
