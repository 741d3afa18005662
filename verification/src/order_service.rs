//! Placing orders inside an open transaction: the checks, then the insert.
//!
//! Every order that is written refers to a menu item, a user and a table that
//! the store was seen to hold, through the same transaction that writes the
//! order. The checks run in a fixed sequence (menu items, user, table); the
//! first that fails ends the placement with a rollback. The finish time of
//! each order is the instant of placement plus the preparation time of its
//! own menu item.

use std::collections::HashSet;
use vstd::prelude::*;
use vstd::string::*;
use crate::clock::Timestamp;
use crate::store::{
    Command,
    CommandView,
    CookTime,
    Missing,
    NewOrder,
    OrderError,
    Outcome,
    Reply,
    ReplyView,
    Success,
    ValidationError,
    MAX_BATCH,
};

verus! {

/// Where a transaction stands: what it asked for last.
#[derive(Debug)]
pub enum Progress {
    /// It asked to open the transaction.
    Opening,
    /// It asked for the menu items.
    FindingMenus,
    /// It asked for the user. `cook_times` holds the preparation time of each
    /// menu item of the request, in the order of the request.
    FindingUser { cook_times: Vec<i32> },
    /// It asked for the table.
    FindingTable { cook_times: Vec<i32>, user_id: i32 },
    /// It asked to write this many orders.
    Inserting { rows: usize },
    /// It asked for an update of orders.
    Updating,
    /// It asked to commit; on success the operation ends with `success`.
    Committing { success: Success },
    /// It asked to roll back; the operation ends with `error`.
    Aborting { error: OrderError },
    /// It has ended.
    Finished { outcome: Outcome },
}

/// The progress of a transaction as a mathematical value.
pub ghost enum ProgressView {
    Opening,
    FindingMenus,
    FindingUser { cook_times: Seq<i32> },
    FindingTable { cook_times: Seq<i32>, user_id: i32 },
    Inserting { rows: nat },
    Updating,
    Committing { success: Success },
    Aborting { error: OrderError },
    Finished { outcome: Outcome },
}

impl View for Progress {
    type V = ProgressView;

    open spec fn view(&self) -> ProgressView {
        match *self {
            Progress::Opening => ProgressView::Opening,
            Progress::FindingMenus => ProgressView::FindingMenus,
            Progress::FindingUser { cook_times } => ProgressView::FindingUser {
                cook_times: cook_times@,
            },
            Progress::FindingTable { cook_times, user_id } => ProgressView::FindingTable {
                cook_times: cook_times@,
                user_id,
            },
            Progress::Inserting { rows } => ProgressView::Inserting { rows: rows as nat },
            Progress::Updating => ProgressView::Updating,
            Progress::Committing { success } => ProgressView::Committing { success },
            Progress::Aborting { error } => ProgressView::Aborting { error },
            Progress::Finished { outcome } => ProgressView::Finished { outcome },
        }
    }
}

/// Giving up: roll back, then end with `error`.
pub open spec fn abort(error: OrderError) -> (ProgressView, CommandView) {
    (ProgressView::Aborting { error }, CommandView::Rollback)
}

/// What is wrong with a batch of menu ids, if anything: it is empty, it is
/// longer than `MAX_BATCH`, or it names an id twice.
pub open spec fn batch_fault(menu_ids: Seq<i32>) -> Option<ValidationError> {
    if menu_ids.len() == 0 {
        Some(ValidationError::Empty)
    } else if menu_ids.len() > MAX_BATCH {
        Some(ValidationError::TooMany)
    } else if !menu_ids.no_duplicates() {
        Some(ValidationError::Duplicate)
    } else {
        None
    }
}

/// Checks a batch of menu ids: it must name at least one menu item, at most
/// `MAX_BATCH`, and none twice.
pub fn validate_batch(menu_ids: &Vec<i32>) -> (result: Result<(), ValidationError>)
    ensures
        match result {
            Ok(_) => batch_fault(menu_ids@) is None,
            Err(e) => batch_fault(menu_ids@) == Some(e),
        },
{
    broadcast use vstd::std_specs::hash::group_hash_axioms;

    let n = menu_ids.len();
    if n == 0 {
        return Err(ValidationError::Empty);
    }
    if n > MAX_BATCH {
        return Err(ValidationError::TooMany);
    }
    let mut seen: HashSet<i32> = HashSet::new();
    let mut i: usize = 0;
    while i < n
        invariant
            n == menu_ids.len(),
            0 < n <= MAX_BATCH,
            i <= n,
            forall|k: int| 0 <= k < i ==> seen@.contains(#[trigger] menu_ids@[k]),
            forall|x: i32|
                seen@.contains(x) ==> exists|k: int| 0 <= k < i && #[trigger] menu_ids@[k] == x,
            forall|a: int, b: int| 0 <= a < b < i ==> menu_ids@[a] != menu_ids@[b],
        decreases n - i,
    {
        let id = menu_ids[i];
        let fresh = seen.insert(id);
        if !fresh {
            proof {
                let k = choose|k: int| 0 <= k < i && #[trigger] menu_ids@[k] == id;
                assert(menu_ids@[k] == menu_ids@[i as int] && k != i);
            }
            return Err(ValidationError::Duplicate);
        }
        i += 1;
    }
    Ok(())
}

/// The preparation time that `rows` gives for the menu item `id`: that of the
/// first row at or after `from` with this id.
pub open spec fn cook_time_from(rows: Seq<CookTime>, id: i32, from: int) -> Option<i32>
    decreases rows.len() - from,
{
    if from < 0 || from >= rows.len() {
        None
    } else if rows[from].menu_id == id {
        Some(rows[from].seconds)
    } else {
        cook_time_from(rows, id, from + 1)
    }
}

/// The preparation time that `rows` gives for the menu item `id`.
pub open spec fn cook_time_of(rows: Seq<CookTime>, id: i32) -> Option<i32> {
    cook_time_from(rows, id, 0)
}

/// Whether a lookup resolved a request: it found as many menu items as the
/// request names, and one for each id.
pub open spec fn resolves(menu_ids: Seq<i32>, rows: Seq<CookTime>) -> bool {
    &&& rows.len() == menu_ids.len()
    &&& forall|i: int| 0 <= i < menu_ids.len() ==> cook_time_of(rows, #[trigger] menu_ids[i]) is Some
}

/// The preparation time of each requested menu item, in the order of the
/// request.
pub open spec fn cook_times(menu_ids: Seq<i32>, rows: Seq<CookTime>) -> Seq<i32> {
    Seq::new(
        menu_ids.len(),
        |i: int|
            match cook_time_of(rows, menu_ids[i]) {
                Some(seconds) => seconds,
                None => 0,
            },
    )
}

/// The first row with a given id decides the preparation time.
pub proof fn first_row_decides(rows: Seq<CookTime>, id: i32, from: int, k: int)
    requires
        0 <= from <= k < rows.len(),
        rows[k].menu_id == id,
        forall|j: int| from <= j < k ==> rows[j].menu_id != id,
    ensures
        cook_time_from(rows, id, from) == Some(rows[k].seconds),
    decreases k - from,
{
    if from < k {
        first_row_decides(rows, id, from + 1, k);
    }
}

/// Without a row of a given id there is no preparation time for it.
pub proof fn no_row_no_time(rows: Seq<CookTime>, id: i32, from: int)
    requires
        0 <= from,
        forall|j: int| from <= j < rows.len() ==> rows[j].menu_id != id,
    ensures
        cook_time_from(rows, id, from) is None,
    decreases rows.len() - from,
{
    if from < rows.len() {
        no_row_no_time(rows, id, from + 1);
    }
}

/// A preparation time was found only where a row has the id.
pub proof fn time_means_row(rows: Seq<CookTime>, id: i32)
    requires
        cook_time_of(rows, id) is Some,
    ensures
        exists|j: int| 0 <= j < rows.len() && (#[trigger] rows[j]).menu_id == id,
{
    if !exists|j: int| 0 <= j < rows.len() && (#[trigger] rows[j]).menu_id == id {
        no_row_no_time(rows, id, 0);
    }
}

/// Looks one menu item up in what a lookup found.
pub fn find_cook_time(rows: &Vec<CookTime>, id: i32) -> (seconds: Option<i32>)
    ensures
        seconds == cook_time_of(rows@, id),
{
    let mut j: usize = 0;
    while j < rows.len()
        invariant
            j <= rows.len(),
            cook_time_of(rows@, id) == cook_time_from(rows@, id, j as int),
        decreases rows.len() - j,
    {
        if rows[j].menu_id == id {
            return Some(rows[j].seconds);
        }
        j += 1;
    }
    None
}

/// Matches what a menu lookup found against the request. Gives the
/// preparation time of each requested item, each taken from the row of that
/// very item, or `None` where the lookup did not resolve the request.
pub fn resolve_menus(menu_ids: &Vec<i32>, rows: &Vec<CookTime>) -> (times: Option<Vec<i32>>)
    ensures
        times is Some <==> resolves(menu_ids@, rows@),
        times matches Some(t) ==> t@ == cook_times(menu_ids@, rows@),
{
    if rows.len() != menu_ids.len() {
        return None;
    }
    let mut times: Vec<i32> = Vec::new();
    let mut i: usize = 0;
    while i < menu_ids.len()
        invariant
            i <= menu_ids.len(),
            times@.len() == i,
            forall|k: int| 0 <= k < i ==> cook_time_of(rows@, #[trigger] menu_ids@[k]) == Some(times@[k]),
        decreases menu_ids.len() - i,
    {
        match find_cook_time(rows, menu_ids[i]) {
            Some(seconds) => {
                times.push(seconds);
            },
            None => {
                return None;
            },
        }
        i += 1;
    }
    assert(times@ =~= cook_times(menu_ids@, rows@));
    Some(times)
}

/// Whether the finish time of every order can be written as a `Timestamp`.
pub open spec fn finish_times_fit(times: Seq<i32>, now: Timestamp) -> bool {
    forall|i: int| 0 <= i < times.len() ==> now.can_add(#[trigger] times[i] as int)
}

/// The order for the `i`-th menu item of a request: placed at `now`, it is
/// expected to be ready `seconds` later.
pub open spec fn planned_row(
    table_id: i32,
    menu_id: i32,
    seconds: i32,
    user_id: i32,
    now: Timestamp,
) -> NewOrder {
    NewOrder {
        restaurant_table_id: table_id,
        menu_id,
        checked_by_user_id: user_id,
        expected_cook_finish_time: Timestamp {
            secs: (now.secs + seconds) as i64,
            nanos: now.nanos,
        },
    }
}

/// The orders to write for a request: one for each menu item, in the order of
/// the request.
pub open spec fn planned_rows(
    table_id: i32,
    menu_ids: Seq<i32>,
    times: Seq<i32>,
    user_id: i32,
    now: Timestamp,
) -> Seq<NewOrder> {
    Seq::new(menu_ids.len(), |i: int| planned_row(table_id, menu_ids[i], times[i], user_id, now))
}

/// Whether the orders for a request can be drawn up.
pub open spec fn can_plan(menu_ids: Seq<i32>, times: Seq<i32>, now: Timestamp) -> bool {
    times.len() == menu_ids.len() && finish_times_fit(times, now)
}

/// Draws up the orders for a request whose menu items, user and table were
/// found. `None` where a finish time cannot be written.
pub fn plan_orders(
    table_id: i32,
    menu_ids: &Vec<i32>,
    times: &Vec<i32>,
    user_id: i32,
    now: Timestamp,
) -> (rows: Option<Vec<NewOrder>>)
    ensures
        rows is Some <==> can_plan(menu_ids@, times@, now),
        rows matches Some(r) ==> r@ == planned_rows(table_id, menu_ids@, times@, user_id, now),
{
    if times.len() != menu_ids.len() {
        return None;
    }
    let mut rows: Vec<NewOrder> = Vec::new();
    let mut i: usize = 0;
    while i < menu_ids.len()
        invariant
            i <= menu_ids.len(),
            times.len() == menu_ids.len(),
            rows@.len() == i,
            forall|k: int| 0 <= k < i ==> now.can_add(#[trigger] times@[k] as int),
            forall|k: int|
                0 <= k < i ==> #[trigger] rows@[k] == planned_row(
                    table_id,
                    menu_ids@[k],
                    times@[k],
                    user_id,
                    now,
                ),
        decreases menu_ids.len() - i,
    {
        match now.plus_seconds(times[i]) {
            Some(finish) => {
                rows.push(
                    NewOrder {
                        restaurant_table_id: table_id,
                        menu_id: menu_ids[i],
                        checked_by_user_id: user_id,
                        expected_cook_finish_time: finish,
                    },
                );
            },
            None => {
                assert(!now.can_add(times@[i as int] as int));
                return None;
            },
        }
        i += 1;
    }
    assert(rows@ =~= planned_rows(table_id, menu_ids@, times@, user_id, now));
    Some(rows)
}

/// What a placement achieved once the store wrote its orders: the id of the
/// one order, or the number of orders of a batch.
pub open spec fn placed(single: bool, order_ids: Seq<i64>) -> Success {
    if single {
        Success::Order(order_ids[0])
    } else {
        Success::Rows(order_ids.len() as u64)
    }
}

/// One step of a placement inside its transaction: from where it stands and
/// what the store answered, to where it stands next and what it asks for.
///
/// - After the menu lookup: go on to the user if the lookup resolved the
///   request, else give up for want of a menu item.
/// - After the user lookup: go on to the table if the user was found.
/// - After the table lookup: write the orders if the table was found.
/// - After the insert: commit if the store wrote every order, else roll back
///   as a failure of the store.
///
/// Any answer other than the awaited one counts as the lookup or the write
/// having failed. A placement that stands anywhere else is rolled back.
///
/// Before anything else the request itself is judged: a placement that
/// names no menu item, more than `MAX_BATCH`, or one twice, is given up at
/// once as a fault of the request, wherever it stands and whatever the store
/// answered.
pub open spec fn placement_step(
    table_id: i32,
    menu_ids: Seq<i32>,
    user_name: Seq<char>,
    single: bool,
    progress: ProgressView,
    reply: ReplyView,
    now: Timestamp,
) -> (ProgressView, CommandView) {
    match batch_fault(menu_ids) {
        Some(fault) => abort(OrderError::Validation(fault)),
        None => sound_placement_step(table_id, menu_ids, user_name, single, progress, reply, now),
    }
}

/// One step of a placement whose request is sound.
pub open spec fn sound_placement_step(
    table_id: i32,
    menu_ids: Seq<i32>,
    user_name: Seq<char>,
    single: bool,
    progress: ProgressView,
    reply: ReplyView,
    now: Timestamp,
) -> (ProgressView, CommandView) {
    match progress {
        ProgressView::FindingMenus => match reply {
            ReplyView::Menus { rows } => if resolves(menu_ids, rows) {
                (
                    ProgressView::FindingUser { cook_times: cook_times(menu_ids, rows) },
                    CommandView::FindUser { name: user_name },
                )
            } else {
                abort(OrderError::NotFound(Missing::Menu))
            },
            _ => abort(OrderError::NotFound(Missing::Menu)),
        },
        ProgressView::FindingUser { cook_times } => match reply {
            ReplyView::User { id: Some(user_id) } => (
                ProgressView::FindingTable { cook_times, user_id },
                CommandView::FindTable { table_id },
            ),
            _ => abort(OrderError::NotFound(Missing::User)),
        },
        ProgressView::FindingTable { cook_times, user_id } => match reply {
            ReplyView::Table { exists: true } => if can_plan(menu_ids, cook_times, now) {
                (
                    ProgressView::Inserting { rows: menu_ids.len() },
                    CommandView::InsertOrders {
                        rows: planned_rows(table_id, menu_ids, cook_times, user_id, now),
                    },
                )
            } else {
                abort(OrderError::Persistence)
            },
            _ => abort(OrderError::NotFound(Missing::Table)),
        },
        ProgressView::Inserting { rows } => match reply {
            ReplyView::Inserted { order_ids } => if order_ids.len() == rows && rows > 0 {
                (
                    ProgressView::Committing { success: placed(single, order_ids) },
                    CommandView::Commit,
                )
            } else {
                abort(OrderError::Persistence)
            },
            _ => abort(OrderError::Persistence),
        },
        _ => abort(OrderError::Persistence),
    }
}

/// Rolls back, then ends with `error`.
pub fn give_up(error: OrderError) -> (next: (Progress, Command))
    ensures
        (next.0@, next.1@) == abort(error),
{
    (Progress::Aborting { error }, Command::Rollback)
}

fn place(
    table_id: i32,
    menu_ids: &Vec<i32>,
    user_name: &str,
    single: bool,
    progress: Progress,
    reply: Reply,
    now: Timestamp,
) -> (next: (Progress, Command))
    ensures
        (next.0@, next.1@) == placement_step(
            table_id,
            menu_ids@,
            user_name@,
            single,
            progress@,
            reply@,
            now,
        ),
{
    match validate_batch(menu_ids) {
        Err(fault) => {
            return give_up(OrderError::Validation(fault));
        },
        Ok(_) => {},
    }
    match progress {
        Progress::FindingMenus => match reply {
            Reply::Menus { rows } => match resolve_menus(menu_ids, &rows) {
                Some(cook_times) => (
                    Progress::FindingUser { cook_times },
                    Command::FindUser { name: user_name.to_owned() },
                ),
                None => give_up(OrderError::NotFound(Missing::Menu)),
            },
            _ => give_up(OrderError::NotFound(Missing::Menu)),
        },
        Progress::FindingUser { cook_times } => match reply {
            Reply::User { id: Some(user_id) } => (
                Progress::FindingTable { cook_times, user_id },
                Command::FindTable { table_id },
            ),
            _ => give_up(OrderError::NotFound(Missing::User)),
        },
        Progress::FindingTable { cook_times, user_id } => match reply {
            Reply::Table { exists: true } => match plan_orders(
                table_id,
                menu_ids,
                &cook_times,
                user_id,
                now,
            ) {
                Some(rows) => (
                    Progress::Inserting { rows: menu_ids.len() },
                    Command::InsertOrders { rows },
                ),
                None => give_up(OrderError::Persistence),
            },
            _ => give_up(OrderError::NotFound(Missing::Table)),
        },
        Progress::Inserting { rows } => match reply {
            Reply::Inserted { order_ids } => if order_ids.len() == rows && rows > 0 {
                let success = if single {
                    Success::Order(order_ids[0])
                } else {
                    Success::Rows(order_ids.len() as u64)
                };
                (Progress::Committing { success }, Command::Commit)
            } else {
                give_up(OrderError::Persistence)
            },
            _ => give_up(OrderError::Persistence),
        },
        _ => give_up(OrderError::Persistence),
    }
}

/// One step of placing a single order on table `restaurant_table_id`, for the
/// menu item `menu_id`, in the name of `user_name`. It ends in a commit that
/// yields the id of the new order, or in a rollback.
pub fn check_existence_and_insert_order(
    restaurant_table_id: i32,
    menu_id: i32,
    user_name: &str,
    progress: Progress,
    reply: Reply,
    now: Timestamp,
) -> (next: (Progress, Command))
    ensures
        (next.0@, next.1@) == placement_step(
            restaurant_table_id,
            seq![menu_id],
            user_name@,
            true,
            progress@,
            reply@,
            now,
        ),
{
    let mut menu_ids: Vec<i32> = Vec::new();
    menu_ids.push(menu_id);
    assert(menu_ids@ =~= seq![menu_id]);
    place(restaurant_table_id, &menu_ids, user_name, true, progress, reply, now)
}

/// One step of placing a batch of orders on table `restaurant_table_id`, one
/// for each of `menu_ids`, in the name of `user_name`. It ends in a commit
/// that yields the number of new orders, or in a rollback. A batch that is
/// empty, longer than `MAX_BATCH` or names an item twice is rolled back at
/// the first step, as a fault of the request: nothing is asked of the store
/// for it.
pub fn check_existence_and_insert_orders(
    restaurant_table_id: i32,
    menu_ids: &Vec<i32>,
    user_name: &str,
    progress: Progress,
    reply: Reply,
    now: Timestamp,
) -> (next: (Progress, Command))
    ensures
        (next.0@, next.1@) == placement_step(
            restaurant_table_id,
            menu_ids@,
            user_name@,
            false,
            progress@,
            reply@,
            now,
        ),
{
    place(restaurant_table_id, menu_ids, user_name, false, progress, reply, now)
}

} // verus!
