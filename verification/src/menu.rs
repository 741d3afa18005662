//! Reading the menu.

use vstd::prelude::*;
use crate::model::Menu;
use crate::store::{all_rows, first_row, Reading};

verus! {

/// Answers the listing of the menu from what the store gave: `None` stands
/// for a store that failed.
pub fn get_menus(rows: Option<Vec<Menu>>) -> (reading: Reading<Vec<Menu>>)
    ensures
        reading == match rows {
            Some(rows) => Reading::Found(rows),
            None => Reading::Failed,
        },
{
    all_rows(rows)
}

/// Answers the lookup of one menu item from the rows that the store gave for
/// its id: the first row, or a blank where there is none.
pub fn get_menu(rows: Option<Vec<Menu>>) -> (reading: Reading<Menu>)
    ensures
        reading == match rows {
            Some(rows) => if rows.len() == 0 {
                Reading::Blank
            } else {
                Reading::Found(rows[0])
            },
            None => Reading::Failed,
        },
{
    first_row(rows)
}

} // verus!
