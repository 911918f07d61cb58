//! The record of a holiday as the persisted store keeps it.

use vstd::prelude::*;

verus! {

/// A holiday of one country, with the row number the store gave it, if it
/// has been stored.
#[derive(Debug)]
pub struct Holiday {
    pub id: Option<i32>,
    pub date: String,
    pub description: String,
    pub country: String,
}

} // verus!
