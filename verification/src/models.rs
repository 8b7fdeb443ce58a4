//! The records of the clipboard history.

use vstd::prelude::*;

verus! {

/// One entry of the clipboard history, as the record store holds it.
#[derive(Clone, Debug, PartialEq, Eq)]
pub struct Item {
    pub id: u16,
    pub content: String,
    pub created_at: String,
    pub updated_at: String,
    pub bumped_at: String,
    pub item_type: String,
    pub file_path: Option<String>,
    pub metadata: Option<String>,
}

} // verus!
