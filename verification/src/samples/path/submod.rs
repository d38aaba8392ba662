//! A module below a module.

use vstd::prelude::*;

verus! {

/// A record two modules deep.
pub struct SubModInModFile {
    pub field: String,
}

} // verus!
