//! Data that is read from asset files.

use vstd::prelude::*;

verus! {

/// A list of display names.
#[derive(Debug, PartialEq, Eq)]
pub struct Names {
    pub names: Vec<String>,
}

} // verus!
