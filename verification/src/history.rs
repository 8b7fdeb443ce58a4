//! The rules for adding to the clipboard history: known content is moved to
//! the top, new content is inserted while there is room.

use crate::models::Item;
use vstd::prelude::*;
use vstd::string::*;

verus! {

/// The most items the history holds.
pub const MAX_ITEMS: i64 = 100;

/// What to do with content that is to be added.
#[derive(Clone, Copy, Debug, PartialEq, Eq, Structural)]
pub enum AddPlan {
    /// The content is already there: move the item with this id to the top.
    Bump(u16),
    /// Insert a new item.
    Insert,
}

/// The plan for adding content, given the id of the item that already holds
/// it, if there is one, and the number of items in the history.
pub open spec fn spec_plan_add(existing: Option<u16>, count: i64) -> Result<AddPlan, Seq<char>> {
    match existing {
        Some(id) => Ok(AddPlan::Bump(id)),
        None => if count >= MAX_ITEMS {
            Err("Maximum number of items (100) reached"@)
        } else {
            Ok(AddPlan::Insert)
        },
    }
}

/// Decides how content is added. `existing` is the item that already holds
/// the content, if any; `count` is the number of items in the history.
pub fn plan_add(existing: Option<&Item>, count: i64) -> (r: Result<AddPlan, String>)
    ensures
        match r {
            Ok(plan) => spec_plan_add(
                match existing {
                    Some(item) => Some(item.id),
                    None => None,
                },
                count,
            ) == Ok::<AddPlan, Seq<char>>(plan),
            Err(e) => spec_plan_add(
                match existing {
                    Some(item) => Some(item.id),
                    None => None,
                },
                count,
            ) == Err::<AddPlan, Seq<char>>(e@),
        },
{
    match existing {
        Some(item) => Ok(AddPlan::Bump(item.id)),
        None => {
            if count >= MAX_ITEMS {
                Err(String::from_str("Maximum number of items (100) reached"))
            } else {
                Ok(AddPlan::Insert)
            }
        },
    }
}

} // verus!
