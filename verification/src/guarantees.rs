//! What the operations guarantee when they run against an orderly store.
//!
//! Each statement here follows an operation from its start through every
//! exchange with the model of the store, and says what the store holds in
//! the end and what the operation reports.

use vstd::prelude::*;
use crate::clock::Timestamp;
use crate::ideal_store::{
    after,
    cancelled,
    completed,
    ended_run_stays,
    exchange,
    found_menus,
    fresh_ids,
    held_menus_resolve,
    missing_menu_does_not_resolve,
    run_of,
    with_orders,
    OrderRecord,
    Store,
    Tables,
};
use crate::order::{add_order_start, add_orders_start, complete_order_start, opening, RequestView};
use crate::order_service::{batch_fault, can_plan, cook_times, planned_row, planned_rows};
use crate::store::{CommandView, Missing, OrderError, Success, ValidationError, MAX_BATCH};
use crate::token::ClaimsView;

verus! {

/// The order that placing `menu_id` on `table_id` for `user_id` at `now`
/// leaves on record, under the id `id`.
pub open spec fn order_placed(
    tables: Tables,
    id: int,
    table_id: i32,
    menu_id: i32,
    user_id: i32,
    now: Timestamp,
) -> OrderRecord {
    OrderRecord {
        id: id as i64,
        restaurant_table_id: table_id,
        menu_id,
        checked_by_user_id: user_id,
        served_by_user_id: None,
        expected_cook_finish_time: Timestamp {
            secs: (now.secs + tables.menus[menu_id]) as i64,
            nanos: now.nanos,
        },
        created_at: now,
        is_served_by_staff: false,
        deleted_at: None,
    }
}

/// Placing one order for a menu item, a user and a table that the store
/// holds creates exactly one order: the committed orders are the earlier
/// ones followed by the new one, which is not deleted, not served, and
/// expected to be ready at its creation time plus the preparation time of
/// its menu item. The operation reports the id of the new order, and no
/// transaction is left open.
pub proof fn single_order_is_recorded(
    store: Store,
    claims: ClaimsView,
    table_id: i32,
    menu_id: i32,
    now: Timestamp,
    steps: nat,
)
    requires
        store.working is None,
        store.committed.has_room(1),
        store.committed.menus.dom().contains(menu_id),
        store.committed.users.dom().contains(claims.sub),
        store.committed.tables.contains(table_id),
        now.can_add(store.committed.menus[menu_id] as int),
        steps >= 6,
    ensures
        ({
            let end = after(
                run_of(add_order_start(Ok(claims), table_id, menu_id), store),
                now,
                steps,
            );
            let before = store.committed;
            let order = order_placed(
                before,
                before.next_order_id,
                table_id,
                menu_id,
                before.users[claims.sub],
                now,
            );
            &&& end.command == CommandView::Finish {
                outcome: Ok(Success::Order(before.next_order_id as i64)),
            }
            &&& end.store.working is None
            &&& end.store.committed == Tables {
                orders: before.orders.push(order),
                next_order_id: before.next_order_id + 1,
                ..before
            }
            &&& order.deleted_at is None
            &&& order.expected_cook_finish_time.secs == order.created_at.secs + before.menus[menu_id]
        }),
{
    let before = store.committed;
    let seconds = before.menus[menu_id];
    let user_id = before.users[claims.sub];
    let ids = seq![menu_id];
    let r0 = run_of(add_order_start(Ok(claims), table_id, menu_id), store);
    let r1 = exchange(r0, now);
    assert(r1.command == CommandView::FindMenus { menu_ids: ids });
    let r2 = exchange(r1, now);
    let rows = found_menus(before.menus, ids);
    held_menus_resolve(before.menus, ids);
    assert(cook_times(ids, rows) =~= seq![seconds]);
    assert(r2.command == CommandView::FindUser { name: claims.sub });
    let r3 = exchange(r2, now);
    assert(r3.command == CommandView::FindTable { table_id });
    let r4 = exchange(r3, now);
    let planned = planned_rows(table_id, ids, seq![seconds], user_id, now);
    assert(can_plan(ids, seq![seconds], now));
    assert(r4.command == CommandView::InsertOrders { rows: planned });
    let r5 = exchange(r4, now);
    assert(fresh_ids(before, 1) =~= seq![before.next_order_id as i64]);
    assert(r5.command == CommandView::Commit);
    let r6 = exchange(r5, now);
    let order = order_placed(before, before.next_order_id, table_id, menu_id, user_id, now);
    assert(with_orders(before, planned, now).orders =~= before.orders.push(order));
    assert(r6.command is Finish);
    ended_run_stays(r6, now, (steps - 6) as nat);
    assert(after(r0, now, steps) == after(r6, now, (steps - 6) as nat)) by {
        reveal_with_fuel(after, 7);
    }
}

/// The orders that placing `menu_ids` on `table_id` for `user_id` at `now`
/// leaves on record, numbered from the store's next id on.
pub open spec fn orders_placed(
    tables: Tables,
    table_id: i32,
    menu_ids: Seq<i32>,
    user_id: i32,
    now: Timestamp,
) -> Seq<OrderRecord> {
    Seq::new(
        menu_ids.len(),
        |i: int| order_placed(tables, tables.next_order_id + i, table_id, menu_ids[i], user_id, now),
    )
}

/// Placing a batch of distinct menu items that the store holds, for a user
/// and a table that it holds, creates one order for each item, in the order
/// of the request, each expected to be ready at the creation time plus the
/// preparation time of its own item. The operation reports the number of
/// orders, and no transaction is left open.
pub proof fn batch_is_recorded_whole(
    store: Store,
    claims: ClaimsView,
    table_id: i32,
    menu_ids: Seq<i32>,
    now: Timestamp,
    steps: nat,
)
    requires
        store.working is None,
        batch_fault(menu_ids) is None,
        store.committed.has_room(menu_ids.len() as int),
        forall|i: int| 0 <= i < menu_ids.len() ==> store.committed.menus.dom().contains(menu_ids[i]),
        store.committed.users.dom().contains(claims.sub),
        store.committed.tables.contains(table_id),
        forall|i: int|
            0 <= i < menu_ids.len() ==> now.can_add(store.committed.menus[menu_ids[i]] as int),
        steps >= 6,
    ensures
        ({
            let end = after(
                run_of(add_orders_start(Ok(claims), table_id, menu_ids), store),
                now,
                steps,
            );
            let before = store.committed;
            &&& end.command == CommandView::Finish {
                outcome: Ok(Success::Rows(menu_ids.len() as u64)),
            }
            &&& end.store.working is None
            &&& end.store.committed == Tables {
                orders: before.orders + orders_placed(
                    before,
                    table_id,
                    menu_ids,
                    before.users[claims.sub],
                    now,
                ),
                next_order_id: before.next_order_id + menu_ids.len(),
                ..before
            }
        }),
{
    let before = store.committed;
    let user_id = before.users[claims.sub];
    let times = Seq::new(menu_ids.len(), |i: int| before.menus[menu_ids[i]]);
    let r0 = run_of(add_orders_start(Ok(claims), table_id, menu_ids), store);
    let r1 = exchange(r0, now);
    assert(r1.command == CommandView::FindMenus { menu_ids });
    let r2 = exchange(r1, now);
    held_menus_resolve(before.menus, menu_ids);
    assert(r2.command == CommandView::FindUser { name: claims.sub });
    let r3 = exchange(r2, now);
    assert(r3.command == CommandView::FindTable { table_id });
    let r4 = exchange(r3, now);
    let planned = planned_rows(table_id, menu_ids, times, user_id, now);
    assert(can_plan(menu_ids, times, now));
    assert(r4.command == CommandView::InsertOrders { rows: planned });
    let r5 = exchange(r4, now);
    assert(fresh_ids(before, menu_ids.len()).len() == menu_ids.len());
    assert(r5.command == CommandView::Commit);
    let r6 = exchange(r5, now);
    assert(with_orders(before, planned, now).orders =~= before.orders + orders_placed(
        before,
        table_id,
        menu_ids,
        user_id,
        now,
    ));
    assert(r6.command is Finish);
    ended_run_stays(r6, now, (steps - 6) as nat);
    assert(after(r0, now, steps) == after(r6, now, (steps - 6) as nat)) by {
        reveal_with_fuel(after, 7);
    }
}

/// A batch that names a menu item twice is refused with a validation error
/// before the store is asked anything: whatever the store holds and however
/// long the run, the store stays as it was.
pub proof fn batch_with_duplicates_writes_nothing(
    store: Store,
    claims: ClaimsView,
    table_id: i32,
    menu_ids: Seq<i32>,
    now: Timestamp,
    steps: nat,
)
    requires
        !menu_ids.no_duplicates(),
    ensures
        ({
            let start = add_orders_start(Ok(claims), table_id, menu_ids);
            let end = after(run_of(start, store), now, steps);
            &&& start.1 matches CommandView::Finish { outcome: Err(OrderError::Validation(_)) }
            &&& menu_ids.len() <= MAX_BATCH ==> start.1 == CommandView::Finish {
                outcome: Err(OrderError::Validation(ValidationError::Duplicate)),
            }
            &&& end.command == start.1
            &&& end.store == store
        }),
{
    assert(menu_ids.len() > 0);
    ended_run_stays(run_of(add_orders_start(Ok(claims), table_id, menu_ids), store), now, steps);
}

/// A batch of more than a hundred menu items is refused before the store is
/// asked anything: the store stays as it was.
pub proof fn oversized_batch_writes_nothing(
    store: Store,
    claims: ClaimsView,
    table_id: i32,
    menu_ids: Seq<i32>,
    now: Timestamp,
    steps: nat,
)
    requires
        menu_ids.len() > MAX_BATCH,
    ensures
        ({
            let start = add_orders_start(Ok(claims), table_id, menu_ids);
            let end = after(run_of(start, store), now, steps);
            &&& start.1 == CommandView::Finish {
                outcome: Err(OrderError::Validation(ValidationError::TooMany)),
            }
            &&& end.command == start.1
            &&& end.store == store
        }),
{
    ended_run_stays(run_of(add_orders_start(Ok(claims), table_id, menu_ids), store), now, steps);
}

/// A batch that names a menu item which the store does not hold leaves no
/// order behind, not even for the items that exist: at every point of the
/// run the committed rows, which are all that a concurrent reader sees, are
/// what they were. The operation rolls back and reports the missing item.
pub proof fn unknown_menu_item_writes_nothing(
    store: Store,
    claims: ClaimsView,
    table_id: i32,
    menu_ids: Seq<i32>,
    missing: int,
    now: Timestamp,
    steps: nat,
)
    requires
        store.working is None,
        batch_fault(menu_ids) is None,
        0 <= missing < menu_ids.len(),
        !store.committed.menus.dom().contains(menu_ids[missing]),
    ensures
        ({
            let end = after(
                run_of(add_orders_start(Ok(claims), table_id, menu_ids), store),
                now,
                steps,
            );
            &&& end.store.committed == store.committed
            &&& steps >= 3 ==> end.store == store && end.command == CommandView::Finish {
                outcome: Err(OrderError::NotFound(Missing::Menu)),
            }
        }),
{
    let r0 = run_of(add_orders_start(Ok(claims), table_id, menu_ids), store);
    let r1 = exchange(r0, now);
    assert(r1.command == CommandView::FindMenus { menu_ids });
    let r2 = exchange(r1, now);
    missing_menu_does_not_resolve(store.committed.menus, menu_ids, missing);
    assert(r2.command == CommandView::Rollback);
    let r3 = exchange(r2, now);
    assert(r3.command is Finish);
    assert(r3.store == store);
    reveal_with_fuel(after, 4);
    if steps >= 3 {
        ended_run_stays(r3, now, (steps - 3) as nat);
        assert(after(r0, now, steps) == after(r3, now, (steps - 3) as nat));
    }
}

/// Two lists of orders show a reader the same when they agree wherever
/// either holds an order that the reader is shown.
proof fn same_where_shown(a: Seq<OrderRecord>, b: Seq<OrderRecord>, shown: spec_fn(OrderRecord) -> bool)
    requires
        a.len() == b.len(),
        forall|i: int| 0 <= i < a.len() && (shown(a[i]) || shown(b[i])) ==> a[i] == b[i],
    ensures
        a.filter(shown) == b.filter(shown),
    decreases a.len(),
{
    reveal(Seq::filter);
    if a.len() > 0 {
        same_where_shown(a.drop_last(), b.drop_last(), shown);
    }
}

/// A reader is shown nothing of a list in which no order qualifies.
proof fn nothing_shown(a: Seq<OrderRecord>, shown: spec_fn(OrderRecord) -> bool)
    requires
        forall|i: int| 0 <= i < a.len() ==> !shown(a[i]),
    ensures
        a.filter(shown) == Seq::<OrderRecord>::empty(),
    decreases a.len(),
{
    reveal(Seq::filter);
    if a.len() > 0 {
        nothing_shown(a.drop_last(), shown);
    }
}

/// The orders after the one with id `order_id` was cancelled at `now`.
pub open spec fn orders_after_cancel(orders: Seq<OrderRecord>, order_id: i64, now: Timestamp) -> Seq<
    OrderRecord,
> {
    Seq::new(
        orders.len(),
        |i: int|
            if orders[i].id == order_id {
                cancelled(orders[i], now)
            } else {
                orders[i]
            },
    )
}

/// Cancelling an order marks it deleted and changes nothing else, whether
/// or not it was deleted already, and succeeds even where no order has the
/// id. No transaction is left open.
pub proof fn cancelling_marks_deleted(store: Store, order_id: i64, now: Timestamp, steps: nat)
    requires
        store.working is None,
        steps >= 3,
    ensures
        ({
            let end = after(
                run_of(opening(RequestView::CancelOrder { order_id }), store),
                now,
                steps,
            );
            &&& end.command == CommandView::Finish { outcome: Ok(Success::Ack) }
            &&& end.store.working is None
            &&& end.store.committed == Tables {
                orders: orders_after_cancel(store.committed.orders, order_id, now),
                ..store.committed
            }
        }),
{
    let r0 = run_of(opening(RequestView::CancelOrder { order_id }), store);
    let r1 = exchange(r0, now);
    assert(r1.command == CommandView::CancelOrder { order_id });
    let r2 = exchange(r1, now);
    assert(r2.command == CommandView::Commit);
    let r3 = exchange(r2, now);
    assert(r3.command is Finish);
    assert(r3.store.committed.orders =~= orders_after_cancel(store.committed.orders, order_id, now));
    ended_run_stays(r3, now, (steps - 3) as nat);
    assert(after(r0, now, steps) == after(r3, now, (steps - 3) as nat)) by {
        reveal_with_fuel(after, 4);
    }
}

/// Cancelling the same order a second time succeeds like the first and
/// leaves the same orders deleted: an order is deleted after the second
/// call exactly if it was after the first, which is exactly if it was
/// deleted before or is the order named. Apart from the instant of
/// deletion of the order named, the second call changes nothing, and every
/// reader is shown the same active orders as after the first.
pub proof fn cancelling_twice_is_cancelling_once(
    store: Store,
    order_id: i64,
    first: Timestamp,
    second: Timestamp,
    steps: nat,
    table_id: i32,
)
    requires
        store.working is None,
        steps >= 3,
    ensures
        ({
            let cancel = opening(RequestView::CancelOrder { order_id });
            let once = after(run_of(cancel, store), first, steps);
            let twice = after(run_of(cancel, once.store), second, steps);
            let before = store.committed.orders;
            &&& once.command == CommandView::Finish { outcome: Ok(Success::Ack) }
            &&& twice.command == CommandView::Finish { outcome: Ok(Success::Ack) }
            &&& twice.store.committed.orders.len() == before.len()
            &&& once.store.committed.orders.len() == before.len()
            &&& forall|i: int|
                0 <= i < before.len() ==> {
                    let o = #[trigger] twice.store.committed.orders[i];
                    &&& o.is_active() == once.store.committed.orders[i].is_active()
                    &&& o.is_active() == (before[i].is_active() && before[i].id != order_id)
                    &&& o == OrderRecord { deleted_at: o.deleted_at, ..before[i] }
                }
            &&& twice.store.committed.active_orders(table_id) == once.store.committed.active_orders(
                table_id,
            )
        }),
{
    let cancel = opening(RequestView::CancelOrder { order_id });
    cancelling_marks_deleted(store, order_id, first, steps);
    let once = after(run_of(cancel, store), first, steps);
    cancelling_marks_deleted(once.store, order_id, second, steps);
    let twice = after(run_of(cancel, once.store), second, steps);
    same_where_shown(
        twice.store.committed.orders,
        once.store.committed.orders,
        |o: OrderRecord| o.restaurant_table_id == table_id && o.is_active(),
    );
}

/// The orders after `user_id` completed the one with id `order_id` at `now`.
pub open spec fn orders_after_completion(
    orders: Seq<OrderRecord>,
    order_id: i64,
    user_id: i32,
    now: Timestamp,
) -> Seq<OrderRecord> {
    Seq::new(
        orders.len(),
        |i: int|
            if orders[i].id == order_id {
                completed(orders[i], user_id, now)
            } else {
                orders[i]
            },
    )
}

/// Completing an order in the name of a user that the store holds marks the
/// order deleted, served by staff and served by that user, and changes
/// nothing else. No transaction is left open.
pub proof fn completing_marks_served(
    store: Store,
    claims: ClaimsView,
    order_id: i64,
    now: Timestamp,
    steps: nat,
)
    requires
        store.working is None,
        store.committed.users.dom().contains(claims.sub),
        steps >= 4,
    ensures
        ({
            let end = after(
                run_of(complete_order_start(Ok(claims), order_id), store),
                now,
                steps,
            );
            &&& end.command == CommandView::Finish { outcome: Ok(Success::Ack) }
            &&& end.store.working is None
            &&& end.store.committed == Tables {
                orders: orders_after_completion(
                    store.committed.orders,
                    order_id,
                    store.committed.users[claims.sub],
                    now,
                ),
                ..store.committed
            }
        }),
{
    let user_id = store.committed.users[claims.sub];
    let r0 = run_of(complete_order_start(Ok(claims), order_id), store);
    let r1 = exchange(r0, now);
    assert(r1.command == CommandView::FindUser { name: claims.sub });
    let r2 = exchange(r1, now);
    assert(r2.command == CommandView::CompleteOrder { order_id, user_id });
    let r3 = exchange(r2, now);
    assert(r3.command == CommandView::Commit);
    let r4 = exchange(r3, now);
    assert(r4.command is Finish);
    assert(r4.store.committed.orders =~= orders_after_completion(
        store.committed.orders,
        order_id,
        user_id,
        now,
    ));
    ended_run_stays(r4, now, (steps - 4) as nat);
    assert(after(r0, now, steps) == after(r4, now, (steps - 4) as nat)) by {
        reveal_with_fuel(after, 5);
    }
}

/// Completing an order in the name of a user that the store does not hold
/// changes nothing: the operation rolls back and reports the missing user.
pub proof fn completing_needs_the_user(
    store: Store,
    claims: ClaimsView,
    order_id: i64,
    now: Timestamp,
    steps: nat,
)
    requires
        store.working is None,
        !store.committed.users.dom().contains(claims.sub),
    ensures
        ({
            let end = after(
                run_of(complete_order_start(Ok(claims), order_id), store),
                now,
                steps,
            );
            &&& end.store.committed == store.committed
            &&& steps >= 3 ==> end.store == store && end.command == CommandView::Finish {
                outcome: Err(OrderError::NotFound(Missing::User)),
            }
        }),
{
    let r0 = run_of(complete_order_start(Ok(claims), order_id), store);
    let r1 = exchange(r0, now);
    let r2 = exchange(r1, now);
    assert(r2.command == CommandView::Rollback);
    let r3 = exchange(r2, now);
    assert(r3.command is Finish);
    assert(r3.store == store);
    reveal_with_fuel(after, 4);
    if steps >= 3 {
        ended_run_stays(r3, now, (steps - 3) as nat);
        assert(after(r0, now, steps) == after(r3, now, (steps - 3) as nat));
    }
}

/// The orders after every active order of `table_id` was cancelled at `now`.
pub open spec fn orders_after_clearing(orders: Seq<OrderRecord>, table_id: i32, now: Timestamp) -> Seq<
    OrderRecord,
> {
    Seq::new(
        orders.len(),
        |i: int|
            if orders[i].restaurant_table_id == table_id && orders[i].is_active() {
                cancelled(orders[i], now)
            } else {
                orders[i]
            },
    )
}

/// Clearing a table cancels each of its active orders and changes nothing
/// else; afterwards a reader of the table is shown no order, and a reader of
/// another table is shown what they were shown before.
pub proof fn clearing_empties_the_table(
    store: Store,
    table_id: i32,
    other_table: i32,
    now: Timestamp,
    steps: nat,
)
    requires
        store.working is None,
        other_table != table_id,
        steps >= 3,
    ensures
        ({
            let end = after(
                run_of(opening(RequestView::ClearTable { table_id }), store),
                now,
                steps,
            );
            &&& end.command == CommandView::Finish { outcome: Ok(Success::Ack) }
            &&& end.store.working is None
            &&& end.store.committed == Tables {
                orders: orders_after_clearing(store.committed.orders, table_id, now),
                ..store.committed
            }
            &&& end.store.committed.active_orders(table_id) == Seq::<OrderRecord>::empty()
            &&& end.store.committed.active_orders(other_table) == store.committed.active_orders(
                other_table,
            )
        }),
{
    let r0 = run_of(opening(RequestView::ClearTable { table_id }), store);
    let r1 = exchange(r0, now);
    assert(r1.command == CommandView::CancelTableOrders { table_id });
    let r2 = exchange(r1, now);
    assert(r2.command == CommandView::Commit);
    let r3 = exchange(r2, now);
    assert(r3.command is Finish);
    assert(r3.store.committed.orders =~= orders_after_clearing(
        store.committed.orders,
        table_id,
        now,
    ));
    ended_run_stays(r3, now, (steps - 3) as nat);
    assert(after(r0, now, steps) == after(r3, now, (steps - 3) as nat)) by {
        reveal_with_fuel(after, 4);
    }
    nothing_shown(
        r3.store.committed.orders,
        |o: OrderRecord| o.restaurant_table_id == table_id && o.is_active(),
    );
    same_where_shown(
        r3.store.committed.orders,
        store.committed.orders,
        |o: OrderRecord| o.restaurant_table_id == other_table && o.is_active(),
    );
}

/// The first reference of a placement that the store does not hold, in the
/// order in which a placement looks them up: menu item, user, table.
pub open spec fn first_missing(
    tables: Tables,
    table_id: i32,
    menu_id: i32,
    user_name: Seq<char>,
) -> Option<Missing> {
    if !tables.menus.dom().contains(menu_id) {
        Some(Missing::Menu)
    } else if !tables.users.dom().contains(user_name) {
        Some(Missing::User)
    } else if !tables.tables.contains(table_id) {
        Some(Missing::Table)
    } else {
        None
    }
}

/// Placing one order that refers to a menu item, a user or a table which
/// the store does not hold writes nothing: at every point of the run the
/// committed rows are what they were, and the operation rolls back and
/// reports the first reference that is missing.
pub proof fn order_needs_its_references(
    store: Store,
    claims: ClaimsView,
    table_id: i32,
    menu_id: i32,
    now: Timestamp,
    steps: nat,
)
    requires
        store.working is None,
        first_missing(store.committed, table_id, menu_id, claims.sub) is Some,
    ensures
        ({
            let end = after(
                run_of(add_order_start(Ok(claims), table_id, menu_id), store),
                now,
                steps,
            );
            &&& end.store.committed == store.committed
            &&& steps >= 5 ==> end.store == store && end.command == CommandView::Finish {
                outcome: Err(
                    OrderError::NotFound(
                        first_missing(store.committed, table_id, menu_id, claims.sub)->0,
                    ),
                ),
            }
        }),
{
    let before = store.committed;
    let ids = seq![menu_id];
    let r0 = run_of(add_order_start(Ok(claims), table_id, menu_id), store);
    let r1 = exchange(r0, now);
    assert(r1.command == CommandView::FindMenus { menu_ids: ids });
    let r2 = exchange(r1, now);
    if before.menus.dom().contains(menu_id) {
        held_menus_resolve(before.menus, ids);
    } else {
        missing_menu_does_not_resolve(before.menus, ids, 0);
    }
    let r3 = exchange(r2, now);
    let r4 = exchange(r3, now);
    let r5 = exchange(r4, now);
    assert(r5.command is Finish);
    assert(r5.store == store);
    reveal_with_fuel(after, 6);
    if steps >= 5 {
        ended_run_stays(r5, now, (steps - 5) as nat);
        assert(after(r0, now, steps) == after(r5, now, (steps - 5) as nat));
    }
}

/// The finish time of an order is derived from the instant of placement and
/// the preparation time of its menu item alone, and it moves with the
/// instant of placement: of two placements of the same item, the later one
/// is not expected to be ready earlier.
pub proof fn finish_time_follows_placement(
    table_id: i32,
    menu_id: i32,
    seconds: i32,
    user_id: i32,
    earlier: Timestamp,
    later: Timestamp,
)
    requires
        earlier.can_add(seconds as int),
        later.can_add(seconds as int),
        earlier.secs <= later.secs,
    ensures
        planned_row(table_id, menu_id, seconds, user_id, earlier).expected_cook_finish_time.secs
            == earlier.secs + seconds,
        planned_row(table_id, menu_id, seconds, user_id, earlier).expected_cook_finish_time.secs
            <= planned_row(table_id, menu_id, seconds, user_id, later).expected_cook_finish_time.secs,
{
}

/// A reader of a table is shown exactly its active orders: every order
/// shown is on the table and not marked deleted, and every order on the
/// table that is not marked deleted is shown.
pub proof fn readers_are_shown_the_active_orders(tables: Tables, table_id: i32)
    ensures
        forall|i: int|
            0 <= i < tables.active_orders(table_id).len() ==> {
                let o = #[trigger] tables.active_orders(table_id)[i];
                o.restaurant_table_id == table_id && o.deleted_at is None
            },
        forall|i: int|
            0 <= i < tables.orders.len() && (#[trigger] tables.orders[i]).restaurant_table_id
                == table_id && tables.orders[i].deleted_at is None ==> tables.active_orders(
                table_id,
            ).contains(tables.orders[i]),
{
    let shown = |o: OrderRecord| o.restaurant_table_id == table_id && o.is_active();
    assert forall|i: int| 0 <= i < tables.active_orders(table_id).len() implies {
        let o = #[trigger] tables.active_orders(table_id)[i];
        o.restaurant_table_id == table_id && o.deleted_at is None
    } by {
        tables.orders.lemma_filter_pred(shown, i);
    }
    assert forall|i: int|
        0 <= i < tables.orders.len() && (#[trigger] tables.orders[i]).restaurant_table_id
            == table_id && tables.orders[i].deleted_at is None implies tables.active_orders(
        table_id,
    ).contains(tables.orders[i]) by {
        tables.orders.lemma_filter_contains(shown, i);
    }
}

/// A batch that is empty, longer than the limit or names an item twice
/// writes nothing even where its transaction was opened: the transaction is
/// rolled back before anything is asked of the store, the committed rows
/// are what they were at every point, and the operation ends as a fault of
/// the request, whatever the store holds.
pub proof fn faulty_batch_writes_nothing_once_opened(
    store: Store,
    table_id: i32,
    menu_ids: Seq<i32>,
    user_name: Seq<char>,
    now: Timestamp,
    steps: nat,
)
    requires
        store.working is None,
        batch_fault(menu_ids) is Some,
    ensures
        ({
            let start = run_of(
                opening(RequestView::PlaceOrders { table_id, menu_ids, user_name }),
                store,
            );
            let end = after(start, now, steps);
            &&& exchange(start, now).command == CommandView::Rollback
            &&& end.store.committed == store.committed
            &&& steps >= 2 ==> end.store == store && end.command == CommandView::Finish {
                outcome: Err(OrderError::Validation(batch_fault(menu_ids)->0)),
            }
        }),
{
    let r0 = run_of(opening(RequestView::PlaceOrders { table_id, menu_ids, user_name }), store);
    let r1 = exchange(r0, now);
    assert(r1.command == CommandView::Rollback);
    let r2 = exchange(r1, now);
    assert(r2.command is Finish);
    assert(r2.store == store);
    reveal_with_fuel(after, 3);
    if steps >= 2 {
        ended_run_stays(r2, now, (steps - 2) as nat);
        assert(after(r0, now, steps) == after(r2, now, (steps - 2) as nat));
    }
}

/// A reader is shown the whole of a list in which every order qualifies.
proof fn everything_shown(a: Seq<OrderRecord>, shown: spec_fn(OrderRecord) -> bool)
    requires
        forall|i: int| 0 <= i < a.len() ==> shown(a[i]),
    ensures
        a.filter(shown) == a,
    decreases a.len(),
{
    reveal(Seq::filter);
    if a.len() > 0 {
        everything_shown(a.drop_last(), shown);
        assert(a.drop_last().push(a.last()) =~= a);
    }
}

/// After a batch was placed on a table, a reader of the table is shown the
/// orders that were active before, followed by the new ones: one for each
/// menu item of the batch, in the order of the request, each unserved, not
/// deleted and checked by the user who placed the batch. On a table that
/// had no active order the reader is shown exactly as many orders as the
/// batch has items. A reader of any other table is shown what they were
/// shown before.
pub proof fn batch_shows_up_for_readers(
    store: Store,
    claims: ClaimsView,
    table_id: i32,
    other_table: i32,
    menu_ids: Seq<i32>,
    now: Timestamp,
    steps: nat,
)
    requires
        store.working is None,
        batch_fault(menu_ids) is None,
        store.committed.has_room(menu_ids.len() as int),
        forall|i: int| 0 <= i < menu_ids.len() ==> store.committed.menus.dom().contains(menu_ids[i]),
        store.committed.users.dom().contains(claims.sub),
        store.committed.tables.contains(table_id),
        forall|i: int|
            0 <= i < menu_ids.len() ==> now.can_add(store.committed.menus[menu_ids[i]] as int),
        other_table != table_id,
        steps >= 6,
    ensures
        ({
            let end = after(
                run_of(add_orders_start(Ok(claims), table_id, menu_ids), store),
                now,
                steps,
            );
            let before = store.committed;
            let placed = orders_placed(before, table_id, menu_ids, before.users[claims.sub], now);
            &&& end.command == CommandView::Finish {
                outcome: Ok(Success::Rows(menu_ids.len() as u64)),
            }
            &&& end.store.committed.active_orders(table_id) == before.active_orders(table_id)
                + placed
            &&& before.active_orders(table_id).len() == 0 ==> end.store.committed.active_orders(
                table_id,
            ).len() == menu_ids.len()
            &&& end.store.committed.active_orders(other_table) == before.active_orders(other_table)
            &&& forall|i: int|
                0 <= i < menu_ids.len() ==> {
                    let o = #[trigger] placed[i];
                    &&& o.menu_id == menu_ids[i]
                    &&& o.restaurant_table_id == table_id
                    &&& o.checked_by_user_id == before.users[claims.sub]
                    &&& !o.is_served_by_staff
                    &&& o.deleted_at is None
                }
        }),
{
    batch_is_recorded_whole(store, claims, table_id, menu_ids, now, steps);
    let before = store.committed;
    let placed = orders_placed(before, table_id, menu_ids, before.users[claims.sub], now);
    let here = |o: OrderRecord| o.restaurant_table_id == table_id && o.is_active();
    let there = |o: OrderRecord| o.restaurant_table_id == other_table && o.is_active();
    Seq::filter_distributes_over_add(before.orders, placed, here);
    Seq::filter_distributes_over_add(before.orders, placed, there);
    everything_shown(placed, here);
    nothing_shown(placed, there);
    assert(before.orders.filter(there) + Seq::<OrderRecord>::empty() =~= before.orders.filter(
        there,
    ));
}

/// The orders that a reader of a table is shown, but for the order with a
/// given id.
pub open spec fn active_orders_but(tables: Tables, table_id: i32, order_id: i64) -> Seq<
    OrderRecord,
> {
    tables.orders.filter(
        |o: OrderRecord| o.restaurant_table_id == table_id && o.is_active() && o.id != order_id,
    )
}

/// Two lists of orders show alike, one to a reader and the other to a
/// narrower reader, when they agree on every order that the narrower reader
/// is shown and hold nothing else that the first reader is shown.
proof fn shown_but_the_changed(
    a: Seq<OrderRecord>,
    b: Seq<OrderRecord>,
    shown: spec_fn(OrderRecord) -> bool,
    kept: spec_fn(OrderRecord) -> bool,
)
    requires
        a.len() == b.len(),
        forall|i: int| 0 <= i < a.len() ==> (kept(#[trigger] a[i]) <==> shown(b[i])),
        forall|i: int| 0 <= i < a.len() && kept(#[trigger] a[i]) ==> b[i] == a[i],
    ensures
        b.filter(shown) == a.filter(kept),
    decreases a.len(),
{
    reveal(Seq::filter);
    if a.len() > 0 {
        shown_but_the_changed(a.drop_last(), b.drop_last(), shown, kept);
    }
}

/// After an order was cancelled, a reader of any table is shown what they
/// were shown before, but for that order.
pub proof fn cancelled_order_is_no_longer_shown(
    store: Store,
    order_id: i64,
    table_id: i32,
    now: Timestamp,
    steps: nat,
)
    requires
        store.working is None,
        steps >= 3,
    ensures
        after(
            run_of(opening(RequestView::CancelOrder { order_id }), store),
            now,
            steps,
        ).store.committed.active_orders(table_id) == active_orders_but(
            store.committed,
            table_id,
            order_id,
        ),
{
    cancelling_marks_deleted(store, order_id, now, steps);
    shown_but_the_changed(
        store.committed.orders,
        orders_after_cancel(store.committed.orders, order_id, now),
        |o: OrderRecord| o.restaurant_table_id == table_id && o.is_active(),
        |o: OrderRecord| o.restaurant_table_id == table_id && o.is_active() && o.id != order_id,
    );
}

/// After an order was completed by a user that the store holds, the order
/// is served by that user and a reader of any table is shown what they were
/// shown before, but for that order.
pub proof fn completed_order_is_no_longer_shown(
    store: Store,
    claims: ClaimsView,
    order_id: i64,
    table_id: i32,
    now: Timestamp,
    steps: nat,
)
    requires
        store.working is None,
        store.committed.users.dom().contains(claims.sub),
        steps >= 4,
    ensures
        ({
            let end = after(
                run_of(complete_order_start(Ok(claims), order_id), store),
                now,
                steps,
            ).store.committed;
            &&& end.active_orders(table_id) == active_orders_but(
                store.committed,
                table_id,
                order_id,
            )
            &&& end.orders.len() == store.committed.orders.len()
            &&& forall|i: int|
                0 <= i < end.orders.len() && store.committed.orders[i].id == order_id ==> {
                    let o = #[trigger] end.orders[i];
                    o.is_served_by_staff && o.served_by_user_id == Some(
                        store.committed.users[claims.sub],
                    )
                }
        }),
{
    completing_marks_served(store, claims, order_id, now, steps);
    shown_but_the_changed(
        store.committed.orders,
        orders_after_completion(
            store.committed.orders,
            order_id,
            store.committed.users[claims.sub],
            now,
        ),
        |o: OrderRecord| o.restaurant_table_id == table_id && o.is_active(),
        |o: OrderRecord| o.restaurant_table_id == table_id && o.is_active() && o.id != order_id,
    );
}

/// Why a batch is refused, if it is: for a fault of its own (it is empty,
/// too long or names an item twice), else for the first reference that the
/// store does not hold, in the order menu items, user, table.
pub open spec fn batch_refusal(
    tables: Tables,
    table_id: i32,
    menu_ids: Seq<i32>,
    user_name: Seq<char>,
) -> Option<OrderError> {
    match batch_fault(menu_ids) {
        Some(fault) => Some(OrderError::Validation(fault)),
        None => if !(forall|i: int|
            0 <= i < menu_ids.len() ==> tables.menus.dom().contains(#[trigger] menu_ids[i])) {
            Some(OrderError::NotFound(Missing::Menu))
        } else if !tables.users.dom().contains(user_name) {
            Some(OrderError::NotFound(Missing::User))
        } else if !tables.tables.contains(table_id) {
            Some(OrderError::NotFound(Missing::Table))
        } else {
            None
        },
    }
}

/// A batch is placed whole or refused, and it is refused exactly for a
/// fault of its own or a reference that the store does not hold: then the
/// operation ends with that error and the store is what it was. Otherwise,
/// where the store can number the orders and their finish times can be
/// written, every order of the batch is placed.
pub proof fn batch_is_placed_or_refused(
    store: Store,
    claims: ClaimsView,
    table_id: i32,
    menu_ids: Seq<i32>,
    now: Timestamp,
    steps: nat,
)
    requires
        store.working is None,
        steps >= 6,
    ensures
        ({
            let end = after(
                run_of(add_orders_start(Ok(claims), table_id, menu_ids), store),
                now,
                steps,
            );
            match batch_refusal(store.committed, table_id, menu_ids, claims.sub) {
                Some(error) => end.command == CommandView::Finish { outcome: Err(error) }
                    && end.store == store,
                None => store.committed.has_room(menu_ids.len() as int) && (forall|i: int|
                    0 <= i < menu_ids.len() ==> now.can_add(
                        store.committed.menus[menu_ids[i]] as int,
                    )) ==> end.command == CommandView::Finish {
                    outcome: Ok(Success::Rows(menu_ids.len() as u64)),
                } && end.store.committed.orders.len() == store.committed.orders.len()
                    + menu_ids.len(),
            }
        }),
{
    let before = store.committed;
    let r0 = run_of(add_orders_start(Ok(claims), table_id, menu_ids), store);
    if batch_fault(menu_ids) is Some {
        ended_run_stays(r0, now, steps);
    } else if !(forall|i: int|
        0 <= i < menu_ids.len() ==> before.menus.dom().contains(#[trigger] menu_ids[i])) {
        let missing = choose|i: int|
            0 <= i < menu_ids.len() && !before.menus.dom().contains(#[trigger] menu_ids[i]);
        unknown_menu_item_writes_nothing(store, claims, table_id, menu_ids, missing, now, steps);
    } else if batch_refusal(before, table_id, menu_ids, claims.sub) is Some {
        let r1 = exchange(r0, now);
        assert(r1.command == CommandView::FindMenus { menu_ids });
        let r2 = exchange(r1, now);
        held_menus_resolve(before.menus, menu_ids);
        let r3 = exchange(r2, now);
        let r4 = exchange(r3, now);
        let r5 = exchange(r4, now);
        assert(r5.command is Finish);
        assert(r5.store == store);
        ended_run_stays(r5, now, (steps - 5) as nat);
        assert(after(r0, now, steps) == after(r5, now, (steps - 5) as nat)) by {
            reveal_with_fuel(after, 6);
        }
    } else {
        if before.has_room(menu_ids.len() as int) && (forall|i: int|
            0 <= i < menu_ids.len() ==> now.can_add(before.menus[menu_ids[i]] as int)) {
            batch_is_recorded_whole(store, claims, table_id, menu_ids, now, steps);
        }
    }
}

} // verus!
