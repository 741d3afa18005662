//! The relational store as the library takes it to behave: a model to reason
//! with, not a thing that runs.
//!
//! The model holds the rows that matter to orders and says, for each command,
//! what an orderly store does and answers. Writes of an open transaction go to
//! a working copy; readers outside the transaction see the committed rows
//! alone, so they see all writes of a transaction or none.

use vstd::prelude::*;
use crate::clock::Timestamp;
use crate::order::{opening, step_of, RequestView, TransactionView};
use crate::order_service::{
    cook_time_of,
    cook_times,
    first_row_decides,
    no_row_no_time,
    resolves,
    time_means_row,
};
use crate::store::{CommandView, CookTime, NewOrder, ReplyView};

verus! {

/// An order on record.
pub ghost struct OrderRecord {
    pub id: i64,
    pub restaurant_table_id: i32,
    pub menu_id: i32,
    pub checked_by_user_id: i32,
    pub served_by_user_id: Option<i32>,
    pub expected_cook_finish_time: Timestamp,
    pub created_at: Timestamp,
    pub is_served_by_staff: bool,
    pub deleted_at: Option<Timestamp>,
}

/// The rows of the store: the preparation time of each menu item by id, the
/// id of each user by name, the ids of the tables, the orders in the order in
/// which they were written, and the id that the next order will get.
pub ghost struct Tables {
    pub menus: Map<i32, i32>,
    pub users: Map<Seq<char>, i32>,
    pub tables: Set<i32>,
    pub orders: Seq<OrderRecord>,
    pub next_order_id: int,
}

/// The store: what is committed, and the working copy of the transaction
/// that is open, if one is.
pub ghost struct Store {
    pub committed: Tables,
    pub working: Option<Tables>,
}

impl OrderRecord {
    /// Whether the order is active: not cancelled and not completed.
    pub open spec fn is_active(self) -> bool {
        self.deleted_at is None
    }
}

impl Tables {
    /// The active orders of a table: what a reader of the table is shown.
    pub open spec fn active_orders(self, table_id: i32) -> Seq<OrderRecord> {
        self.orders.filter(|o: OrderRecord| o.restaurant_table_id == table_id && o.is_active())
    }

    /// Whether every order refers to a menu item, a table and a user that
    /// the store holds.
    pub open spec fn references_hold(self) -> bool {
        forall|i: int|
            0 <= i < self.orders.len() ==> {
                let o = #[trigger] self.orders[i];
                &&& self.menus.dom().contains(o.menu_id)
                &&& self.tables.contains(o.restaurant_table_id)
                &&& exists|name: Seq<char>|
                    self.users.dom().contains(name) && #[trigger] self.users[name]
                        == o.checked_by_user_id
            }
    }

    /// Whether the store can still number `count` more orders.
    pub open spec fn has_room(self, count: int) -> bool {
        0 <= self.next_order_id && self.next_order_id + count <= i64::MAX
    }
}

/// The ids of the rows of a lookup, row by row.
pub open spec fn ids_of(rows: Seq<CookTime>) -> Seq<i32> {
    rows.map_values(|r: CookTime| r.menu_id)
}

/// Whether `rows` answers a lookup of `menu_ids` faithfully: one row for
/// each id asked for that the store holds, no other row and none twice, each
/// with the preparation time of its item. The rows may come in any order.
pub open spec fn answers_lookup(
    rows: Seq<CookTime>,
    menus: Map<i32, i32>,
    menu_ids: Seq<i32>,
) -> bool {
    &&& ids_of(rows).no_duplicates()
    &&& forall|j: int|
        0 <= j < rows.len() ==> {
            let r = #[trigger] rows[j];
            &&& menu_ids.contains(r.menu_id)
            &&& menus.dom().contains(r.menu_id)
            &&& r.seconds == menus[r.menu_id]
        }
    &&& forall|id: i32|
        #![trigger menu_ids.contains(id)]
        menu_ids.contains(id) && menus.dom().contains(id) ==> ids_of(rows).contains(id)
}

/// One faithful answer to a lookup: the rows in the order in which their ids
/// are first asked for.
pub open spec fn menus_in_order(menus: Map<i32, i32>, menu_ids: Seq<i32>) -> Seq<CookTime>
    decreases menu_ids.len(),
{
    if menu_ids.len() == 0 {
        Seq::empty()
    } else {
        let earlier = menu_ids.drop_last();
        let id = menu_ids.last();
        if menus.dom().contains(id) && !earlier.contains(id) {
            menus_in_order(menus, earlier).push(CookTime { menu_id: id, seconds: menus[id] })
        } else {
            menus_in_order(menus, earlier)
        }
    }
}

/// The rows in the order asked for are a faithful answer.
pub proof fn menus_in_order_answer(menus: Map<i32, i32>, menu_ids: Seq<i32>)
    ensures
        answers_lookup(menus_in_order(menus, menu_ids), menus, menu_ids),
    decreases menu_ids.len(),
{
    let rows = menus_in_order(menus, menu_ids);
    if menu_ids.len() == 0 {
        assert(ids_of(rows) =~= Seq::<i32>::empty());
    } else {
        let earlier = menu_ids.drop_last();
        let id = menu_ids.last();
        let before = menus_in_order(menus, earlier);
        menus_in_order_answer(menus, earlier);
        assert forall|x: i32| earlier.contains(x) implies menu_ids.contains(x) by {
            let k = choose|k: int| 0 <= k < earlier.len() && earlier[k] == x;
            assert(menu_ids[k] == x);
        }
        assert(menu_ids.contains(id)) by {
            assert(menu_ids[menu_ids.len() - 1] == id);
        }
        assert forall|x: i32| #[trigger] menu_ids.contains(x) implies earlier.contains(x) || x
            == id by {
            let k = choose|k: int| 0 <= k < menu_ids.len() && menu_ids[k] == x;
            if k < earlier.len() {
                assert(earlier[k] == x);
            }
        }
        if menus.dom().contains(id) && !earlier.contains(id) {
            let row = CookTime { menu_id: id, seconds: menus[id] };
            assert(rows == before.push(row));
            assert(ids_of(rows) =~= ids_of(before).push(id));
            assert(!ids_of(before).contains(id)) by {
                if ids_of(before).contains(id) {
                    let j = choose|j: int| 0 <= j < before.len() && ids_of(before)[j] == id;
                    assert(earlier.contains(before[j].menu_id));
                }
            }
            assert forall|j: int| 0 <= j < rows.len() implies {
                let r = #[trigger] rows[j];
                &&& menu_ids.contains(r.menu_id)
                &&& menus.dom().contains(r.menu_id)
                &&& r.seconds == menus[r.menu_id]
            } by {
                if j < before.len() {
                    assert(rows[j] == before[j]);
                    assert(earlier.contains(before[j].menu_id));
                }
            }
            assert forall|x: i32|
                #![trigger menu_ids.contains(x)]
                menu_ids.contains(x) && menus.dom().contains(x) implies ids_of(rows).contains(
                x,
            ) by {
                if x == id {
                    assert(ids_of(rows)[rows.len() - 1] == id);
                } else {
                    assert(earlier.contains(x));
                    let j = choose|j: int| 0 <= j < before.len() && ids_of(before)[j] == x;
                    assert(ids_of(rows)[j] == x);
                }
            }
        } else {
            assert(rows == before);
            assert forall|j: int| 0 <= j < rows.len() implies {
                let r = #[trigger] rows[j];
                &&& menu_ids.contains(r.menu_id)
                &&& menus.dom().contains(r.menu_id)
                &&& r.seconds == menus[r.menu_id]
            } by {
                assert(earlier.contains(before[j].menu_id));
            }
        }
    }
}

/// The menu items that a lookup of `menu_ids` finds: some faithful answer,
/// in whatever order the store lists its rows.
pub open spec fn found_menus(menus: Map<i32, i32>, menu_ids: Seq<i32>) -> Seq<CookTime> {
    choose|rows: Seq<CookTime>| answers_lookup(rows, menus, menu_ids)
}

/// What a lookup finds is a faithful answer.
pub proof fn found_menus_answer(menus: Map<i32, i32>, menu_ids: Seq<i32>)
    ensures
        answers_lookup(found_menus(menus, menu_ids), menus, menu_ids),
{
    menus_in_order_answer(menus, menu_ids);
}

/// A faithful answer to a lookup of distinct ids that the store holds, each
/// of them, resolves the request, and gives each item its own preparation
/// time, whatever the order of its rows.
pub proof fn faithful_answer_resolves(
    rows: Seq<CookTime>,
    menus: Map<i32, i32>,
    menu_ids: Seq<i32>,
)
    requires
        answers_lookup(rows, menus, menu_ids),
        menu_ids.no_duplicates(),
        forall|i: int| 0 <= i < menu_ids.len() ==> menus.dom().contains(menu_ids[i]),
    ensures
        resolves(menu_ids, rows),
        cook_times(menu_ids, rows) == Seq::new(menu_ids.len(), |i: int| menus[menu_ids[i]]),
{
    let row_ids = ids_of(rows);
    assert(row_ids.to_set() =~= menu_ids.to_set()) by {
        assert forall|x: i32| row_ids.to_set().contains(x) implies menu_ids.to_set().contains(
            x,
        ) by {
            let j = choose|j: int| 0 <= j < row_ids.len() && row_ids[j] == x;
            assert(menu_ids.contains(rows[j].menu_id));
        }
        assert forall|x: i32| menu_ids.to_set().contains(x) implies row_ids.to_set().contains(
            x,
        ) by {
            let i = choose|i: int| 0 <= i < menu_ids.len() && menu_ids[i] == x;
            assert(menus.dom().contains(menu_ids[i]));
            assert(menu_ids.contains(x));
        }
    }
    row_ids.unique_seq_to_set();
    menu_ids.unique_seq_to_set();
    assert(rows.len() == menu_ids.len());
    assert forall|i: int| 0 <= i < menu_ids.len() implies cook_time_of(rows, menu_ids[i]) == Some(
        menus[menu_ids[i]],
    ) by {
        let id = menu_ids[i];
        assert(menu_ids.contains(id));
        let k = choose|k: int| 0 <= k < row_ids.len() && row_ids[k] == id;
        assert forall|j: int| 0 <= j < k implies rows[j].menu_id != id by {
            assert(row_ids[j] != row_ids[k]);
        }
        first_row_decides(rows, id, 0, k);
    }
    assert(cook_times(menu_ids, rows) =~= Seq::new(menu_ids.len(), |i: int| menus[menu_ids[i]]));
}

/// Where the store holds each of the distinct ids asked for, the lookup
/// resolves the request and each item gets its own preparation time.
pub proof fn held_menus_resolve(menus: Map<i32, i32>, menu_ids: Seq<i32>)
    requires
        menu_ids.no_duplicates(),
        forall|i: int| 0 <= i < menu_ids.len() ==> menus.dom().contains(menu_ids[i]),
    ensures
        resolves(menu_ids, found_menus(menus, menu_ids)),
        cook_times(menu_ids, found_menus(menus, menu_ids)) == Seq::new(
            menu_ids.len(),
            |i: int| menus[menu_ids[i]],
        ),
{
    found_menus_answer(menus, menu_ids);
    faithful_answer_resolves(found_menus(menus, menu_ids), menus, menu_ids);
}

/// A faithful answer to a lookup that asks for an id which the store lacks
/// does not resolve the request.
pub proof fn faithful_answer_lacks_the_missing(
    rows: Seq<CookTime>,
    menus: Map<i32, i32>,
    menu_ids: Seq<i32>,
    missing: int,
)
    requires
        answers_lookup(rows, menus, menu_ids),
        0 <= missing < menu_ids.len(),
        !menus.dom().contains(menu_ids[missing]),
    ensures
        !resolves(menu_ids, rows),
{
    no_row_no_time(rows, menu_ids[missing], 0);
}

/// Where the store lacks one of the ids asked for, the lookup does not
/// resolve the request.
pub proof fn missing_menu_does_not_resolve(menus: Map<i32, i32>, menu_ids: Seq<i32>, missing: int)
    requires
        0 <= missing < menu_ids.len(),
        !menus.dom().contains(menu_ids[missing]),
    ensures
        !resolves(menu_ids, found_menus(menus, menu_ids)),
{
    found_menus_answer(menus, menu_ids);
    faithful_answer_lacks_the_missing(found_menus(menus, menu_ids), menus, menu_ids, missing);
}

/// A lookup that resolves a request shows that the store holds every menu
/// item of the request.
pub proof fn resolved_means_held(menus: Map<i32, i32>, menu_ids: Seq<i32>)
    requires
        resolves(menu_ids, found_menus(menus, menu_ids)),
    ensures
        forall|i: int| 0 <= i < menu_ids.len() ==> menus.dom().contains(#[trigger] menu_ids[i]),
{
    let rows = found_menus(menus, menu_ids);
    found_menus_answer(menus, menu_ids);
    assert forall|i: int| 0 <= i < menu_ids.len() implies menus.dom().contains(
        #[trigger] menu_ids[i],
    ) by {
        time_means_row(rows, menu_ids[i]);
    }
}

/// The record that a new order becomes when it is written at `now` under
/// the id `id`: unserved and not deleted.
pub open spec fn recorded(row: NewOrder, id: int, now: Timestamp) -> OrderRecord {
    OrderRecord {
        id: id as i64,
        restaurant_table_id: row.restaurant_table_id,
        menu_id: row.menu_id,
        checked_by_user_id: row.checked_by_user_id,
        served_by_user_id: None,
        expected_cook_finish_time: row.expected_cook_finish_time,
        created_at: now,
        is_served_by_staff: false,
        deleted_at: None,
    }
}

/// The rows after `rows` were written at `now`.
pub open spec fn with_orders(tables: Tables, rows: Seq<NewOrder>, now: Timestamp) -> Tables {
    Tables {
        orders: tables.orders + Seq::new(
            rows.len(),
            |i: int| recorded(rows[i], tables.next_order_id + i, now),
        ),
        next_order_id: tables.next_order_id + rows.len(),
        ..tables
    }
}

/// The ids that `count` orders get when they are written next.
pub open spec fn fresh_ids(tables: Tables, count: nat) -> Seq<i64> {
    Seq::new(count, |i: int| (tables.next_order_id + i) as i64)
}

/// An order after it was cancelled at `now`.
pub open spec fn cancelled(order: OrderRecord, now: Timestamp) -> OrderRecord {
    OrderRecord { deleted_at: Some(now), ..order }
}

/// An order after `user_id` completed it at `now`.
pub open spec fn completed(order: OrderRecord, user_id: i32, now: Timestamp) -> OrderRecord {
    OrderRecord {
        deleted_at: Some(now),
        served_by_user_id: Some(user_id),
        is_served_by_staff: true,
        ..order
    }
}

/// The rows after every order that `hit` selects was replaced by `change`
/// of it.
pub open spec fn with_changed(
    tables: Tables,
    hit: spec_fn(OrderRecord) -> bool,
    change: spec_fn(OrderRecord) -> OrderRecord,
) -> Tables {
    Tables {
        orders: Seq::new(
            tables.orders.len(),
            |i: int|
                if hit(tables.orders[i]) {
                    change(tables.orders[i])
                } else {
                    tables.orders[i]
                },
        ),
        ..tables
    }
}

/// How many orders `hit` selects.
pub open spec fn hits(tables: Tables, hit: spec_fn(OrderRecord) -> bool) -> u64 {
    tables.orders.filter(hit).len() as u64
}

/// What a command does to the rows of the open transaction, and what the
/// store answers.
pub open spec fn perform(tables: Tables, command: CommandView, now: Timestamp) -> (
    Tables,
    ReplyView,
) {
    match command {
        CommandView::FindMenus { menu_ids } => (
            tables,
            ReplyView::Menus { rows: found_menus(tables.menus, menu_ids) },
        ),
        CommandView::FindUser { name } => (
            tables,
            ReplyView::User {
                id: if tables.users.dom().contains(name) {
                    Some(tables.users[name])
                } else {
                    None
                },
            },
        ),
        CommandView::FindTable { table_id } => (
            tables,
            ReplyView::Table { exists: tables.tables.contains(table_id) },
        ),
        CommandView::InsertOrders { rows } => if tables.has_room(rows.len() as int) {
            (
                with_orders(tables, rows, now),
                ReplyView::Inserted { order_ids: fresh_ids(tables, rows.len()) },
            )
        } else {
            (tables, ReplyView::Failed)
        },
        CommandView::CancelOrder { order_id } => {
            let hit = |o: OrderRecord| o.id == order_id;
            (
                with_changed(tables, hit, |o: OrderRecord| cancelled(o, now)),
                ReplyView::Affected { count: hits(tables, hit) },
            )
        },
        CommandView::CompleteOrder { order_id, user_id } => {
            let hit = |o: OrderRecord| o.id == order_id;
            (
                with_changed(tables, hit, |o: OrderRecord| completed(o, user_id, now)),
                ReplyView::Affected { count: hits(tables, hit) },
            )
        },
        CommandView::CancelTableOrders { table_id } => {
            let hit = |o: OrderRecord| o.restaurant_table_id == table_id && o.is_active();
            (
                with_changed(tables, hit, |o: OrderRecord| cancelled(o, now)),
                ReplyView::Affected { count: hits(tables, hit) },
            )
        },
        _ => (tables, ReplyView::Failed),
    }
}

/// What the store does with a command at `now`, and what it answers.
///
/// `Begin` opens a transaction on a copy of the committed rows, unless one
/// is open. `Commit` makes the working copy the committed rows; `Rollback`
/// drops it. Every other command acts on the working copy and fails where
/// no transaction is open.
pub open spec fn answer(store: Store, command: CommandView, now: Timestamp) -> (Store, ReplyView) {
    match command {
        CommandView::Begin => match store.working {
            None => (Store { working: Some(store.committed), ..store }, ReplyView::Done),
            Some(_) => (store, ReplyView::Failed),
        },
        CommandView::Commit => match store.working {
            Some(tables) => (Store { committed: tables, working: None }, ReplyView::Done),
            None => (store, ReplyView::Failed),
        },
        CommandView::Rollback => (Store { working: None, ..store }, ReplyView::Done),
        CommandView::Finish { .. } => (store, ReplyView::Done),
        _ => match store.working {
            Some(tables) => {
                let done = perform(tables, command, now);
                (Store { working: Some(done.0), ..store }, done.1)
            },
            None => (store, ReplyView::Failed),
        },
    }
}

/// An operation together with the store it runs against: the operation, the
/// command it has handed out, and the store before that command.
pub ghost struct Run {
    pub txn: TransactionView,
    pub command: CommandView,
    pub store: Store,
}

/// One exchange: the store carries out the pending command and the
/// operation takes the reply. A run whose operation has ended stays as it is.
pub open spec fn exchange(run: Run, now: Timestamp) -> Run {
    if run.command is Finish {
        run
    } else {
        let answered = answer(run.store, run.command, now);
        let next = step_of(run.txn, answered.1, now);
        Run { txn: next.0, command: next.1, store: answered.0 }
    }
}

/// The run after `steps` exchanges.
pub open spec fn after(run: Run, now: Timestamp, steps: nat) -> Run
    decreases steps,
{
    if steps == 0 {
        run
    } else {
        after(exchange(run, now), now, (steps - 1) as nat)
    }
}

/// A run starting from `start`, against `store`.
pub open spec fn run_of(start: (TransactionView, CommandView), store: Store) -> Run {
    Run { txn: start.0, command: start.1, store }
}

/// The run after six exchanges.
pub open spec fn after_six(run: Run, now: Timestamp) -> Run {
    exchange(exchange(exchange(exchange(exchange(exchange(run, now), now), now), now), now), now)
}

/// A run whose operation has ended does not move.
pub proof fn ended_run_stays(run: Run, now: Timestamp, steps: nat)
    requires
        run.command is Finish,
    ensures
        after(run, now, steps) == run,
    decreases steps,
{
    if steps > 0 {
        ended_run_stays(run, now, (steps - 1) as nat);
    }
}

/// An operation that sets out against a store without an open transaction
/// has ended after six exchanges, and the run stays as it is from then on.
pub proof fn six_exchanges_end_it(store: Store, request: RequestView, now: Timestamp, steps: nat)
    requires
        store.working is None,
        steps >= 6,
    ensures
        after_six(run_of(opening(request), store), now).command is Finish,
        after(run_of(opening(request), store), now, steps) == after_six(
            run_of(opening(request), store),
            now,
        ),
{
    let start = run_of(opening(request), store);
    let end = after_six(start, now);
    assert(end.command is Finish);
    ended_run_stays(end, now, (steps - 6) as nat);
    assert(after(start, now, steps) == after(end, now, (steps - 6) as nat)) by {
        reveal_with_fuel(after, 7);
    }
}

} // verus!
