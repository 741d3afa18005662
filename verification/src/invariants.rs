//! What holds of every operation, whatever it is asked to do and whatever
//! the store holds.

use vstd::prelude::*;
use crate::clock::Timestamp;
use crate::ideal_store::{
    after,
    after_six,
    exchange,
    found_menus,
    resolved_means_held,
    run_of,
    six_exchanges_end_it,
    with_orders,
    Store,
};
use crate::order::{opening, step_of, RequestView, TransactionView};
use crate::order_service::{batch_fault, resolves, ProgressView};
use crate::store::{CommandView, OrderError, ReplyView, MAX_BATCH};

verus! {

/// Every operation ends, and it ends with its transaction closed: six
/// exchanges after it set out there is nothing more to ask, and the store
/// has no transaction open.
pub proof fn every_operation_closes_its_transaction(
    store: Store,
    request: RequestView,
    now: Timestamp,
    steps: nat,
)
    requires
        store.working is None,
        steps >= 6,
    ensures
        ({
            let end = after(run_of(opening(request), store), now, steps);
            &&& end.command is Finish
            &&& end.store.working is None
            &&& end.txn.progress == ProgressView::Finished { outcome: end.command->outcome }
        }),
{
    six_exchanges_end_it(store, request, now, steps);
}

/// An operation that does not succeed changes nothing: where it ends with an
/// error, the committed rows are what they were.
pub proof fn failure_changes_nothing(
    store: Store,
    request: RequestView,
    now: Timestamp,
    steps: nat,
)
    requires
        store.working is None,
        steps >= 6,
    ensures
        ({
            let end = after(run_of(opening(request), store), now, steps);
            end.command matches CommandView::Finish { outcome: Err(_) } ==> end.store == store
        }),
{
    six_exchanges_end_it(store, request, now, steps);
}

/// A reader outside the transaction sees all of an operation or nothing of
/// it: at every point of the run the committed rows are either what they
/// were before the operation or what they are after it.
pub proof fn readers_see_all_or_nothing(
    store: Store,
    request: RequestView,
    now: Timestamp,
    seen_after: nat,
    steps: nat,
)
    requires
        store.working is None,
        steps >= 6,
    ensures
        ({
            let start = run_of(opening(request), store);
            let seen = after(start, now, seen_after).store.committed;
            seen == store.committed || seen == after(start, now, steps).store.committed
        }),
{
    six_exchanges_end_it(store, request, now, steps);
    if seen_after >= 6 {
        six_exchanges_end_it(store, request, now, seen_after);
    } else {
        reveal_with_fuel(after, 6);
    }
}

/// No operation ever leaves an order that refers to a menu item, a table or
/// a user which the store does not hold: if the references of the committed
/// orders hold before an operation, they hold after it.
pub proof fn references_keep_holding(
    store: Store,
    request: RequestView,
    now: Timestamp,
    steps: nat,
)
    requires
        store.working is None,
        store.committed.references_hold(),
        steps >= 6,
    ensures
        after(run_of(opening(request), store), now, steps).store.committed.references_hold(),
{
    let before = store.committed;
    six_exchanges_end_it(store, request, now, steps);
    let end = after_six(run_of(opening(request), store), now).store.committed;
    assert(end.menus == before.menus && end.users == before.users && end.tables == before.tables);
    match request {
        RequestView::PlaceOrder { table_id, menu_id, user_name } => {
            placed_orders_refer_to_held(store, table_id, seq![menu_id], user_name, true, now);
        },
        RequestView::PlaceOrders { table_id, menu_ids, user_name } => {
            placed_orders_refer_to_held(store, table_id, menu_ids, user_name, false, now);
        },
        _ => {
            assert(end.orders.len() == before.orders.len());
            assert forall|i: int| 0 <= i < end.orders.len() implies {
                let o = #[trigger] end.orders[i];
                &&& end.menus.dom().contains(o.menu_id)
                &&& end.tables.contains(o.restaurant_table_id)
                &&& exists|name: Seq<char>|
                    end.users.dom().contains(name) && #[trigger] end.users[name]
                        == o.checked_by_user_id
            } by {
                let was = before.orders[i];
                assert(end.orders[i].menu_id == was.menu_id);
                assert(end.orders[i].restaurant_table_id == was.restaurant_table_id);
                assert(end.orders[i].checked_by_user_id == was.checked_by_user_id);
            }
        },
    }
}

/// The request of a placement as the operation carries it.
pub open spec fn placement(
    table_id: i32,
    menu_ids: Seq<i32>,
    user_name: Seq<char>,
    single: bool,
) -> RequestView {
    if single {
        RequestView::PlaceOrder { table_id, menu_id: menu_ids[0], user_name }
    } else {
        RequestView::PlaceOrders { table_id, menu_ids, user_name }
    }
}

proof fn placed_orders_refer_to_held(
    store: Store,
    table_id: i32,
    menu_ids: Seq<i32>,
    user_name: Seq<char>,
    single: bool,
    now: Timestamp,
)
    requires
        store.working is None,
        store.committed.references_hold(),
        single ==> menu_ids.len() == 1,
    ensures
        after_six(
            run_of(opening(placement(table_id, menu_ids, user_name, single)), store),
            now,
        ).store.committed.references_hold(),
{
    let before = store.committed;
    let request = placement(table_id, menu_ids, user_name, single);
    if single {
        assert(seq![menu_ids[0]] =~= menu_ids);
    }
    let r0 = run_of(opening(request), store);
    let r1 = exchange(r0, now);
    let r2 = exchange(r1, now);
    let r3 = exchange(r2, now);
    let r4 = exchange(r3, now);
    let r5 = exchange(r4, now);
    let r6 = exchange(r5, now);
    let end = r6.store.committed;
    if end != before {
        let rows = found_menus(before.menus, menu_ids);
        assert(batch_fault(menu_ids) is None);
        assert(r1.command == CommandView::FindMenus { menu_ids });
        assert(resolves(menu_ids, rows));
        resolved_means_held(before.menus, menu_ids);
        assert(before.users.dom().contains(user_name));
        assert(before.tables.contains(table_id));
        let user_id = before.users[user_name];
        assert(r4.command is InsertOrders);
        let planned = r4.command->InsertOrders_rows;
        assert(planned.len() == menu_ids.len());
        assert(end == with_orders(before, planned, now));
        assert forall|i: int| 0 <= i < end.orders.len() implies {
            let o = #[trigger] end.orders[i];
            &&& end.menus.dom().contains(o.menu_id)
            &&& end.tables.contains(o.restaurant_table_id)
            &&& exists|name: Seq<char>|
                end.users.dom().contains(name) && #[trigger] end.users[name]
                    == o.checked_by_user_id
        } by {
            if i < before.orders.len() {
                assert(end.orders[i] == before.orders[i]);
            } else {
                let k = i - before.orders.len();
                assert(end.orders[i].menu_id == menu_ids[k]);
                assert(end.orders[i].restaurant_table_id == table_id);
                assert(end.orders[i].checked_by_user_id == before.users[user_name]);
            }
        }
    }
}

/// How many replies an operation can take at most before it has ended.
pub open spec fn replies_left(progress: ProgressView) -> nat {
    match progress {
        ProgressView::Opening => 6,
        ProgressView::FindingMenus => 5,
        ProgressView::FindingUser { .. } => 4,
        ProgressView::FindingTable { .. } => 3,
        ProgressView::Inserting { .. } => 2,
        ProgressView::Updating => 2,
        ProgressView::Committing { .. } => 1,
        ProgressView::Aborting { .. } => 1,
        ProgressView::Finished { .. } => 0,
    }
}

/// Whether an operation holds an open transaction that it has not yet asked
/// to close.
pub open spec fn in_transaction(progress: ProgressView) -> bool {
    progress is FindingMenus || progress is FindingUser || progress is FindingTable
        || progress is Inserting || progress is Updating
}

/// Whether an operation has asked to close its transaction and waits for
/// the answer.
pub open spec fn closing(progress: ProgressView) -> bool {
    progress is Committing || progress is Aborting
}

/// Whatever the store answers, every reply brings an operation nearer to
/// its end, so it ends after six replies at most; and it hands out its
/// outcome exactly when it has ended.
pub proof fn every_reply_brings_the_end_nearer(
    txn: TransactionView,
    reply: ReplyView,
    now: Timestamp,
)
    ensures
        ({
            let next = step_of(txn, reply, now);
            &&& txn.progress !is Finished ==> replies_left(next.0.progress) < replies_left(
                txn.progress,
            )
            &&& next.1 is Finish <==> next.0.progress is Finished
            &&& next.1 matches CommandView::Finish { outcome } ==> next.0.progress
                == ProgressView::Finished { outcome }
            &&& next.0.request == txn.request
        }),
{
}

/// Whatever the store answers, no operation ends while its transaction is
/// open: inside the transaction the next command is another statement or
/// the request to close, with a commit or a rollback; only the answer to
/// that request ends the operation. A transaction that could not be opened
/// ends the operation at once, as a failure of the store; one that was
/// opened for a request at fault is rolled back before any statement.
pub proof fn transaction_is_closed_before_the_end(
    txn: TransactionView,
    reply: ReplyView,
    now: Timestamp,
)
    ensures
        ({
            let next = step_of(txn, reply, now);
            &&& in_transaction(txn.progress) ==> !(next.1 is Finish) && !(next.1 is Begin) && (
            in_transaction(next.0.progress) || closing(next.0.progress))
            &&& next.1 is Commit <==> next.0.progress is Committing
            &&& next.1 is Rollback <==> next.0.progress is Aborting
            &&& closing(next.0.progress) ==> in_transaction(txn.progress) || (txn.progress is Opening
                && reply is Done)
            &&& closing(txn.progress) ==> next.1 is Finish
            &&& txn.progress is Opening ==> if reply is Done {
                in_transaction(next.0.progress) || next.0.progress is Aborting
            } else {
                next.1 == CommandView::Finish { outcome: Err(OrderError::Persistence) }
            }
        }),
{
}

/// Whatever the store answers, an operation commits only what the store
/// reported as done: a placement only after the store wrote as many orders
/// as were asked for, any other operation only after its update went
/// through. So a batch is committed whole or not at all.
pub proof fn commit_only_after_the_store_wrote(
    txn: TransactionView,
    reply: ReplyView,
    now: Timestamp,
)
    requires
        step_of(txn, reply, now).1 is Commit,
    ensures
        match txn.progress {
            ProgressView::Inserting { rows } => reply matches ReplyView::Inserted { order_ids }
                && order_ids.len() == rows && rows > 0,
            ProgressView::Updating => reply is Affected,
            _ => false,
        },
{
}

/// Whatever the store answers, orders are written only at the end of the
/// checks: the command to insert follows the answer that the table exists,
/// which is asked only after the user was found, which is asked only after
/// the menu lookup resolved the request; and it names one order for each
/// menu item of the request.
pub proof fn insert_only_after_the_checks(txn: TransactionView, reply: ReplyView, now: Timestamp)
    requires
        step_of(txn, reply, now).1 is InsertOrders,
    ensures
        txn.progress is FindingTable,
        reply == (ReplyView::Table { exists: true }),
        txn.request matches RequestView::PlaceOrder { .. } ==> step_of(
            txn,
            reply,
            now,
        ).1->InsertOrders_rows.len() == 1,
        txn.request matches RequestView::PlaceOrders { menu_ids, .. } ==> step_of(
            txn,
            reply,
            now,
        ).1->InsertOrders_rows.len() == menu_ids.len(),
        txn.request is PlaceOrder || txn.request is PlaceOrders,
        txn.request matches RequestView::PlaceOrders { menu_ids, .. } ==> batch_fault(menu_ids)
            is None,
        1 <= step_of(txn, reply, now).1->InsertOrders_rows.len() <= MAX_BATCH,
{
}

/// Whatever the store answers, nothing is asked of it for a batch that is
/// empty, longer than the limit or names an item twice: no lookup and no
/// insert. Such a batch is rolled back and ends as a fault of the request.
pub proof fn faulty_batch_is_asked_nothing(txn: TransactionView, reply: ReplyView, now: Timestamp)
    requires
        txn.request is PlaceOrders,
        batch_fault(txn.request->PlaceOrders_menu_ids) is Some,
    ensures
        ({
            let next = step_of(txn, reply, now);
            let fault = batch_fault(txn.request->PlaceOrders_menu_ids)->0;
            &&& next.1 is Rollback || next.1 is Commit || next.1 is Finish
            &&& txn.progress is Opening && reply is Done ==> next == (
                TransactionView {
                    request: txn.request,
                    progress: ProgressView::Aborting { error: OrderError::Validation(fault) },
                },
                CommandView::Rollback,
            )
            &&& in_transaction(txn.progress) && txn.progress !is Updating ==> next.1
                == CommandView::Rollback && next.0.progress == ProgressView::Aborting {
                error: OrderError::Validation(fault),
            }
        }),
{
}

/// Whatever the store answers, the table is asked for only after the user
/// was found, and the user of a placement only after the menu lookup
/// resolved the request.
pub proof fn checks_run_in_sequence(txn: TransactionView, reply: ReplyView, now: Timestamp)
    ensures
        ({
            let next = step_of(txn, reply, now);
            &&& next.1 is FindTable ==> txn.progress is FindingUser && reply is User
                && reply->id is Some
            &&& next.1 is FindUser && txn.progress !is Opening ==> txn.progress is FindingMenus
                && reply is Menus
            &&& next.1 is FindMenus ==> txn.progress is Opening && reply is Done
        }),
{
}

} // verus!
