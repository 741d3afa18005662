//! What passes between a transaction and the relational store.
//!
//! A transaction never touches the store itself. It hands out one `Command` at
//! a time; whoever holds the connection carries the command out and hands the
//! `Reply` back. Lookups and writes of one transaction all travel this way, so
//! they go through one transactional context.

use vstd::prelude::*;
use crate::clock::Timestamp;
use crate::token::AuthError;

verus! {

/// The most menu items that one batch may name.
pub const MAX_BATCH: usize = 100;

/// An order that is about to be written. It is written unserved and not
/// deleted.
#[derive(Clone, Copy, Debug, PartialEq, Eq, Structural)]
pub struct NewOrder {
    pub restaurant_table_id: i32,
    pub menu_id: i32,
    pub checked_by_user_id: i32,
    pub expected_cook_finish_time: Timestamp,
}

/// What a menu lookup brings back of one menu item: its id and the seconds it
/// takes to prepare.
#[derive(Clone, Copy, Debug, PartialEq, Eq, Structural)]
pub struct CookTime {
    pub menu_id: i32,
    pub seconds: i32,
}

/// Which referenced entity the store does not hold.
#[derive(Clone, Copy, Debug, PartialEq, Eq, Structural)]
pub enum Missing {
    Menu,
    User,
    Table,
}

/// Why a batch of menu ids is refused before the store is asked anything.
#[derive(Clone, Copy, Debug, PartialEq, Eq, Structural)]
pub enum ValidationError {
    /// The batch names no menu item.
    Empty,
    /// The batch names more than `MAX_BATCH` menu items.
    TooMany,
    /// The batch names a menu item twice.
    Duplicate,
}

/// Why an operation on orders did not go through.
#[derive(Clone, Copy, Debug, PartialEq, Eq, Structural)]
pub enum OrderError {
    /// The request carries no valid identity.
    Unauthorized(AuthError),
    /// The request itself is unacceptable.
    Validation(ValidationError),
    /// The request refers to something the store does not hold.
    NotFound(Missing),
    /// The store failed; nothing of the operation was kept.
    Persistence,
}

/// What an operation on orders achieved.
#[derive(Clone, Copy, Debug, PartialEq, Eq, Structural)]
pub enum Success {
    /// One order was created, with this id.
    Order(i64),
    /// This many orders were created.
    Rows(u64),
    /// The change was made.
    Ack,
}

/// How an operation on orders ended.
pub type Outcome = Result<Success, OrderError>;

/// What a transaction asks for next.
#[derive(Debug)]
pub enum Command {
    /// Open a transaction.
    Begin,
    /// Look up the menu items with these ids.
    FindMenus { menu_ids: Vec<i32> },
    /// Look up the user with this name.
    FindUser { name: String },
    /// Look up the table with this id.
    FindTable { table_id: i32 },
    /// Write these orders, all of them at once.
    InsertOrders { rows: Vec<NewOrder> },
    /// Mark the order with this id as deleted, whether or not it already is.
    CancelOrder { order_id: i64 },
    /// Mark the order with this id as deleted and as served by this user.
    CompleteOrder { order_id: i64, user_id: i32 },
    /// Mark every active order of this table as deleted.
    CancelTableOrders { table_id: i32 },
    /// Make the transaction's writes permanent and close it.
    Commit,
    /// Drop the transaction's writes and close it.
    Rollback,
    /// Nothing more: the operation ended this way.
    Finish { outcome: Outcome },
}

/// A command as a mathematical value.
pub ghost enum CommandView {
    Begin,
    FindMenus { menu_ids: Seq<i32> },
    FindUser { name: Seq<char> },
    FindTable { table_id: i32 },
    InsertOrders { rows: Seq<NewOrder> },
    CancelOrder { order_id: i64 },
    CompleteOrder { order_id: i64, user_id: i32 },
    CancelTableOrders { table_id: i32 },
    Commit,
    Rollback,
    Finish { outcome: Outcome },
}

impl View for Command {
    type V = CommandView;

    open spec fn view(&self) -> CommandView {
        match *self {
            Command::Begin => CommandView::Begin,
            Command::FindMenus { menu_ids } => CommandView::FindMenus { menu_ids: menu_ids@ },
            Command::FindUser { name } => CommandView::FindUser { name: name@ },
            Command::FindTable { table_id } => CommandView::FindTable { table_id },
            Command::InsertOrders { rows } => CommandView::InsertOrders { rows: rows@ },
            Command::CancelOrder { order_id } => CommandView::CancelOrder { order_id },
            Command::CompleteOrder { order_id, user_id } => CommandView::CompleteOrder {
                order_id,
                user_id,
            },
            Command::CancelTableOrders { table_id } => CommandView::CancelTableOrders { table_id },
            Command::Commit => CommandView::Commit,
            Command::Rollback => CommandView::Rollback,
            Command::Finish { outcome } => CommandView::Finish { outcome },
        }
    }
}

/// What the store answered to the last command.
#[derive(Debug)]
pub enum Reply {
    /// The transaction was opened, committed or rolled back.
    Done,
    /// The menu items that a lookup found, in any order.
    Menus { rows: Vec<CookTime> },
    /// The id of the user that a lookup found, if it found one.
    User { id: Option<i32> },
    /// Whether a lookup found the table.
    Table { exists: bool },
    /// The ids of the orders that were written.
    Inserted { order_ids: Vec<i64> },
    /// How many orders an update changed.
    Affected { count: u64 },
    /// The store reported an error.
    Failed,
}

/// A reply as a mathematical value.
pub ghost enum ReplyView {
    Done,
    Menus { rows: Seq<CookTime> },
    User { id: Option<i32> },
    Table { exists: bool },
    Inserted { order_ids: Seq<i64> },
    Affected { count: u64 },
    Failed,
}

impl View for Reply {
    type V = ReplyView;

    open spec fn view(&self) -> ReplyView {
        match *self {
            Reply::Done => ReplyView::Done,
            Reply::Menus { rows } => ReplyView::Menus { rows: rows@ },
            Reply::User { id } => ReplyView::User { id },
            Reply::Table { exists } => ReplyView::Table { exists },
            Reply::Inserted { order_ids } => ReplyView::Inserted { order_ids: order_ids@ },
            Reply::Affected { count } => ReplyView::Affected { count },
            Reply::Failed => ReplyView::Failed,
        }
    }
}

/// The status that the service answers an outcome with.
pub open spec fn status_of(outcome: Outcome) -> u16 {
    match outcome {
        Ok(_) => 200,
        Err(OrderError::Unauthorized(_)) => 401,
        Err(OrderError::Validation(_)) => 400,
        Err(OrderError::NotFound(_)) => 400,
        Err(OrderError::Persistence) => 500,
    }
}

/// The HTTP status for an outcome: 200 for success, 401 without identity, 400
/// where the request was at fault, 500 where the store was.
pub fn status_code(outcome: &Outcome) -> (status: u16)
    ensures
        status == status_of(*outcome),
{
    match outcome {
        Ok(_) => 200,
        Err(OrderError::Unauthorized(_)) => 401,
        Err(OrderError::Validation(_)) => 400,
        Err(OrderError::NotFound(_)) => 400,
        Err(OrderError::Persistence) => 500,
    }
}

/// What a read of the store comes to.
#[derive(Debug)]
pub enum Reading<T> {
    /// The store held this.
    Found(T),
    /// The store holds nothing under the id asked for; the body is blank.
    Blank,
    /// The store failed.
    Failed,
}

/// The status that a read is answered with.
pub open spec fn reading_status<T>(reading: Reading<T>) -> u16 {
    match reading {
        Reading::Failed => 500,
        _ => 200,
    }
}

impl<T> Reading<T> {
    /// The HTTP status for the read: 200 unless the store failed, also where
    /// nothing was found.
    pub fn status(&self) -> (status: u16)
        ensures
            status == reading_status(*self),
    {
        match self {
            Reading::Failed => 500,
            _ => 200,
        }
    }
}

/// All the rows of a listing, in the order in which the store gave them: an
/// empty listing is a listing too.
pub fn all_rows<T>(rows: Option<Vec<T>>) -> (reading: Reading<Vec<T>>)
    ensures
        reading == match rows {
            Some(rows) => Reading::Found(rows),
            None => Reading::Failed,
        },
{
    match rows {
        Some(rows) => Reading::Found(rows),
        None => Reading::Failed,
    }
}

/// The first of the rows that a lookup by id gave, or a blank where it gave
/// none.
pub fn first_row<T>(rows: Option<Vec<T>>) -> (reading: Reading<T>)
    ensures
        reading == match rows {
            Some(rows) => if rows.len() == 0 {
                Reading::Blank
            } else {
                Reading::Found(rows[0])
            },
            None => Reading::Failed,
        },
{
    match rows {
        Some(mut rows) => if rows.len() == 0 {
            Reading::Blank
        } else {
            Reading::Found(rows.swap_remove(0))
        },
        None => Reading::Failed,
    }
}

} // verus!
