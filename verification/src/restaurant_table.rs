//! Operations on a table as a whole.

use vstd::prelude::*;
use crate::model::{all_shown, show_all, OrderLine, RestaurantTable, RestaurantTableOrder};
use crate::order::{opening, Request, RequestView, Transaction};
use crate::order_service::Progress;
use crate::store::{all_rows, Command, Reading};

verus! {

/// The body of a request to clear a table: to cancel all of its active
/// orders when its session ends.
#[derive(Clone, Copy, Debug)]
pub struct DeleteOrderRequest {
    pub restaurant_table_id: i32,
}

/// Starts cancelling every active order of the table that the request names.
/// The table itself is not looked up: a table without orders, or an id that
/// no table has, leaves the store as it is.
pub fn delete_orders(order_req: &DeleteOrderRequest) -> (start: (Transaction, Command))
    ensures
        (start.0@, start.1@) == opening(
            RequestView::ClearTable { table_id: order_req.restaurant_table_id },
        ),
{
    (
        Transaction {
            request: Request::ClearTable { table_id: order_req.restaurant_table_id },
            progress: Progress::Opening,
        },
        Command::Begin,
    )
}

/// Answers the listing of tables from what the store gave: `None` stands
/// for a store that failed.
pub fn get_tables(rows: Option<Vec<RestaurantTable>>) -> (reading: Reading<Vec<RestaurantTable>>)
    ensures
        reading == match rows {
            Some(rows) => Reading::Found(rows),
            None => Reading::Failed,
        },
{
    all_rows(rows)
}

/// What the listing of a table's active orders comes to.
pub open spec fn table_orders_shown(
    reading: Reading<Vec<RestaurantTableOrder>>,
    lines: Option<Vec<OrderLine>>,
) -> bool {
    match lines {
        Some(lines) => reading matches Reading::Found(views) && views@ == all_shown(lines@),
        None => reading is Failed,
    }
}

/// Answers the listing of a table's active orders from the lines that the
/// store gave for the table: each line as it is shown, in the order given.
/// Orders that are marked deleted are not among the lines; the store leaves
/// them out. `None` stands for a store that failed.
pub fn get_table_orders(lines: Option<Vec<OrderLine>>) -> (reading: Reading<
    Vec<RestaurantTableOrder>,
>)
    ensures
        table_orders_shown(reading, lines),
{
    match lines {
        Some(lines) => Reading::Found(show_all(&lines)),
        None => Reading::Failed,
    }
}

} // verus!
