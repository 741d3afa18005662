//! Operations on orders, each as one transaction against the store.
//!
//! An operation is started from a request and then advanced one reply at a
//! time. Every operation that reaches the store opens a transaction first and
//! closes it before it ends: with a commit when all went well, with a rollback
//! otherwise. Nothing is retried.

use vstd::prelude::*;
use vstd::string::*;
use crate::clock::{utc_now, Timestamp};
use crate::model::{shown, OrderLine, RestaurantTableOrder};
use crate::order_service::{
    abort,
    batch_fault,
    check_existence_and_insert_order,
    check_existence_and_insert_orders,
    give_up,
    placement_step,
    validate_batch,
    Progress,
    ProgressView,
};
use crate::store::{
    Command,
    CommandView,
    Missing,
    OrderError,
    Outcome,
    Reading,
    Reply,
    ReplyView,
    Success,
};
use crate::token::{AuthError, Claims, ClaimsView};

verus! {

/// The body of a request to place one order.
#[derive(Clone, Copy, Debug)]
pub struct AddOrderRequest {
    pub restaurant_table_id: i32,
    pub menu_id: i32,
}

/// The body of a request to place a batch of orders.
#[derive(Clone, Debug)]
pub struct AddOrdersRequest {
    pub restaurant_table_id: i32,
    pub menu_ids: Vec<i32>,
}

/// The body of a request to cancel an order.
#[derive(Clone, Copy, Debug)]
pub struct DeleteOrderRequest {
    pub order_id: i64,
}

/// The body of a request to complete an order.
#[derive(Clone, Copy, Debug)]
pub struct CompleteOrderRequest {
    pub order_id: i64,
}

/// What an operation is to do, with the name of the acting user where the
/// operation needs one.
#[derive(Debug)]
pub enum Request {
    PlaceOrder { table_id: i32, menu_id: i32, user_name: String },
    PlaceOrders { table_id: i32, menu_ids: Vec<i32>, user_name: String },
    CancelOrder { order_id: i64 },
    CompleteOrder { order_id: i64, user_name: String },
    ClearTable { table_id: i32 },
}

/// A request as a mathematical value.
pub ghost enum RequestView {
    PlaceOrder { table_id: i32, menu_id: i32, user_name: Seq<char> },
    PlaceOrders { table_id: i32, menu_ids: Seq<i32>, user_name: Seq<char> },
    CancelOrder { order_id: i64 },
    CompleteOrder { order_id: i64, user_name: Seq<char> },
    ClearTable { table_id: i32 },
}

impl View for Request {
    type V = RequestView;

    open spec fn view(&self) -> RequestView {
        match *self {
            Request::PlaceOrder { table_id, menu_id, user_name } => RequestView::PlaceOrder {
                table_id,
                menu_id,
                user_name: user_name@,
            },
            Request::PlaceOrders { table_id, menu_ids, user_name } => RequestView::PlaceOrders {
                table_id,
                menu_ids: menu_ids@,
                user_name: user_name@,
            },
            Request::CancelOrder { order_id } => RequestView::CancelOrder { order_id },
            Request::CompleteOrder { order_id, user_name } => RequestView::CompleteOrder {
                order_id,
                user_name: user_name@,
            },
            Request::ClearTable { table_id } => RequestView::ClearTable { table_id },
        }
    }
}

/// An operation under way: what it is to do and where it stands.
#[derive(Debug)]
pub struct Transaction {
    pub request: Request,
    pub progress: Progress,
}

/// An operation under way as a mathematical value.
pub ghost struct TransactionView {
    pub request: RequestView,
    pub progress: ProgressView,
}

impl View for Transaction {
    type V = TransactionView;

    open spec fn view(&self) -> TransactionView {
        TransactionView { request: self.request@, progress: self.progress@ }
    }
}

/// The identity of a request as a mathematical value.
pub open spec fn identity_view(identity: Result<Claims, AuthError>) -> Result<
    ClaimsView,
    AuthError,
> {
    match identity {
        Ok(claims) => Ok(claims@),
        Err(e) => Err(e),
    }
}

/// An operation that ends at once with `outcome`, before the store is asked
/// anything.
pub open spec fn ended_at_once(request: RequestView, outcome: Outcome) -> (
    TransactionView,
    CommandView,
) {
    (
        TransactionView { request, progress: ProgressView::Finished { outcome } },
        CommandView::Finish { outcome },
    )
}

/// An operation that sets out by opening a transaction.
pub open spec fn opening(request: RequestView) -> (TransactionView, CommandView) {
    (TransactionView { request, progress: ProgressView::Opening }, CommandView::Begin)
}

/// How placing one order starts: refused without an identity, else by opening
/// a transaction in the name of the identified user.
pub open spec fn add_order_start(
    identity: Result<ClaimsView, AuthError>,
    table_id: i32,
    menu_id: i32,
) -> (TransactionView, CommandView) {
    match identity {
        Err(e) => ended_at_once(
            RequestView::PlaceOrder { table_id, menu_id, user_name: Seq::empty() },
            Err(OrderError::Unauthorized(e)),
        ),
        Ok(claims) => opening(RequestView::PlaceOrder { table_id, menu_id, user_name: claims.sub }),
    }
}

/// How placing a batch starts: refused without an identity; refused where the
/// batch is empty, longer than the limit or names an item twice; else by
/// opening a transaction.
pub open spec fn add_orders_start(
    identity: Result<ClaimsView, AuthError>,
    table_id: i32,
    menu_ids: Seq<i32>,
) -> (TransactionView, CommandView) {
    match identity {
        Err(e) => ended_at_once(
            RequestView::PlaceOrders { table_id, menu_ids, user_name: Seq::empty() },
            Err(OrderError::Unauthorized(e)),
        ),
        Ok(claims) => {
            let request = RequestView::PlaceOrders { table_id, menu_ids, user_name: claims.sub };
            match batch_fault(menu_ids) {
                Some(fault) => ended_at_once(request, Err(OrderError::Validation(fault))),
                None => opening(request),
            }
        },
    }
}

/// How completing an order starts.
pub open spec fn complete_order_start(identity: Result<ClaimsView, AuthError>, order_id: i64) -> (
    TransactionView,
    CommandView,
) {
    match identity {
        Err(e) => ended_at_once(
            RequestView::CompleteOrder { order_id, user_name: Seq::empty() },
            Err(OrderError::Unauthorized(e)),
        ),
        Ok(claims) => opening(RequestView::CompleteOrder { order_id, user_name: claims.sub }),
    }
}

fn refuse(request: Request, error: OrderError) -> (start: (Transaction, Command))
    ensures
        (start.0@, start.1@) == ended_at_once(request@, Err(error)),
{
    (
        Transaction { request, progress: Progress::Finished { outcome: Err(error) } },
        Command::Finish { outcome: Err(error) },
    )
}

fn set_out(request: Request) -> (start: (Transaction, Command))
    ensures
        (start.0@, start.1@) == opening(request@),
{
    (Transaction { request, progress: Progress::Opening }, Command::Begin)
}

fn copy_ids(ids: &Vec<i32>) -> (copy: Vec<i32>)
    ensures
        copy@ == ids@,
{
    let mut copy: Vec<i32> = Vec::new();
    let mut i: usize = 0;
    while i < ids.len()
        invariant
            i <= ids.len(),
            copy@ == ids@.subrange(0, i as int),
        decreases ids.len() - i,
    {
        copy.push(ids[i]);
        i += 1;
        assert(copy@ == ids@.subrange(0, i as int));
    }
    assert(ids@.subrange(0, ids.len() as int) == ids@);
    copy
}

/// Starts placing one order for the user that `identity` names.
pub fn add_order(identity: Result<Claims, AuthError>, order_req: &AddOrderRequest) -> (start: (
    Transaction,
    Command,
))
    ensures
        (start.0@, start.1@) == add_order_start(
            identity_view(identity),
            order_req.restaurant_table_id,
            order_req.menu_id,
        ),
{
    let table_id = order_req.restaurant_table_id;
    let menu_id = order_req.menu_id;
    match identity {
        Err(e) => refuse(
            Request::PlaceOrder { table_id, menu_id, user_name: String::new() },
            OrderError::Unauthorized(e),
        ),
        Ok(claims) => set_out(Request::PlaceOrder { table_id, menu_id, user_name: claims.sub }),
    }
}

/// Starts placing a batch of orders for the user that `identity` names. A
/// batch that is empty, too long or names an item twice is refused here,
/// before the store is asked anything.
pub fn add_orders(identity: Result<Claims, AuthError>, order_req: &AddOrdersRequest) -> (start: (
    Transaction,
    Command,
))
    ensures
        (start.0@, start.1@) == add_orders_start(
            identity_view(identity),
            order_req.restaurant_table_id,
            order_req.menu_ids@,
        ),
{
    let table_id = order_req.restaurant_table_id;
    let menu_ids = copy_ids(&order_req.menu_ids);
    match identity {
        Err(e) => refuse(
            Request::PlaceOrders { table_id, menu_ids, user_name: String::new() },
            OrderError::Unauthorized(e),
        ),
        Ok(claims) => {
            let fault = validate_batch(&menu_ids);
            let request = Request::PlaceOrders { table_id, menu_ids, user_name: claims.sub };
            match fault {
                Err(fault) => refuse(request, OrderError::Validation(fault)),
                Ok(_) => set_out(request),
            }
        },
    }
}

/// Starts cancelling the order that the request names.
pub fn delete_order(order_req: &DeleteOrderRequest) -> (start: (Transaction, Command))
    ensures
        (start.0@, start.1@) == opening(RequestView::CancelOrder { order_id: order_req.order_id }),
{
    set_out(Request::CancelOrder { order_id: order_req.order_id })
}

/// Starts completing the order that the request names, served by the user
/// that `identity` names.
pub fn complete_order(identity: Result<Claims, AuthError>, order_req: &CompleteOrderRequest) -> (start:
    (Transaction, Command))
    ensures
        (start.0@, start.1@) == complete_order_start(identity_view(identity), order_req.order_id),
{
    let order_id = order_req.order_id;
    match identity {
        Err(e) => refuse(
            Request::CompleteOrder { order_id, user_name: String::new() },
            OrderError::Unauthorized(e),
        ),
        Ok(claims) => set_out(Request::CompleteOrder { order_id, user_name: claims.sub }),
    }
}

/// The operation has ended with `outcome`.
pub open spec fn ended(outcome: Outcome) -> (ProgressView, CommandView) {
    (ProgressView::Finished { outcome }, CommandView::Finish { outcome })
}

/// What an operation asks first inside its transaction. A batch that is
/// empty, too long or names an item twice is asked nothing: its transaction
/// is rolled back at once.
pub open spec fn opened(request: RequestView) -> (ProgressView, CommandView) {
    match request {
        RequestView::PlaceOrder { menu_id, .. } => (
            ProgressView::FindingMenus,
            CommandView::FindMenus { menu_ids: seq![menu_id] },
        ),
        RequestView::PlaceOrders { menu_ids, .. } => match batch_fault(menu_ids) {
            Some(fault) => abort(OrderError::Validation(fault)),
            None => (ProgressView::FindingMenus, CommandView::FindMenus { menu_ids }),
        },
        RequestView::CancelOrder { order_id } => (
            ProgressView::Updating,
            CommandView::CancelOrder { order_id },
        ),
        RequestView::CompleteOrder { user_name, .. } => (
            ProgressView::FindingUser { cook_times: Seq::empty() },
            CommandView::FindUser { name: user_name },
        ),
        RequestView::ClearTable { table_id } => (
            ProgressView::Updating,
            CommandView::CancelTableOrders { table_id },
        ),
    }
}

/// One step of completing an order inside its transaction: once the serving
/// user is found, the order is marked; without the user the operation is
/// rolled back.
pub open spec fn completion_step(order_id: i64, progress: ProgressView, reply: ReplyView) -> (
    ProgressView,
    CommandView,
) {
    match progress {
        ProgressView::FindingUser { .. } => match reply {
            ReplyView::User { id: Some(user_id) } => (
                ProgressView::Updating,
                CommandView::CompleteOrder { order_id, user_id },
            ),
            _ => abort(OrderError::NotFound(Missing::User)),
        },
        _ => abort(OrderError::Persistence),
    }
}

/// One step of an operation: from where it stands and what the store
/// answered to the last command, to where it stands next and what it asks.
///
/// - A transaction that could not be opened ends the operation as a failure
///   of the store; nothing is open then.
/// - Inside the transaction, a placement runs its checks and its insert, a
///   completion looks up its user, and the other operations go straight to
///   their update.
/// - An update that the store carried out is committed; one that failed is
///   rolled back.
/// - After a commit the operation ends with what it achieved, or as a
///   failure of the store if the commit failed. After a rollback it ends with
///   the error that caused the rollback.
/// - An operation that has ended stays ended.
pub open spec fn advance(
    request: RequestView,
    progress: ProgressView,
    reply: ReplyView,
    now: Timestamp,
) -> (ProgressView, CommandView) {
    match progress {
        ProgressView::Opening => match reply {
            ReplyView::Done => opened(request),
            _ => ended(Err(OrderError::Persistence)),
        },
        ProgressView::Updating => match reply {
            ReplyView::Affected { .. } => (
                ProgressView::Committing { success: Success::Ack },
                CommandView::Commit,
            ),
            _ => abort(OrderError::Persistence),
        },
        ProgressView::Committing { success } => match reply {
            ReplyView::Done => ended(Ok(success)),
            _ => ended(Err(OrderError::Persistence)),
        },
        ProgressView::Aborting { error } => ended(Err(error)),
        ProgressView::Finished { outcome } => ended(outcome),
        _ => match request {
            RequestView::PlaceOrder { table_id, menu_id, user_name } => placement_step(
                table_id,
                seq![menu_id],
                user_name,
                true,
                progress,
                reply,
                now,
            ),
            RequestView::PlaceOrders { table_id, menu_ids, user_name } => placement_step(
                table_id,
                menu_ids,
                user_name,
                false,
                progress,
                reply,
                now,
            ),
            RequestView::CompleteOrder { order_id, .. } => completion_step(
                order_id,
                progress,
                reply,
            ),
            _ => abort(OrderError::Persistence),
        },
    }
}

/// One step of a whole operation.
pub open spec fn step_of(txn: TransactionView, reply: ReplyView, now: Timestamp) -> (
    TransactionView,
    CommandView,
) {
    let next = advance(txn.request, txn.progress, reply, now);
    (TransactionView { request: txn.request, progress: next.0 }, next.1)
}

fn finish(outcome: Outcome) -> (next: (Progress, Command))
    ensures
        (next.0@, next.1@) == ended(outcome),
{
    (Progress::Finished { outcome }, Command::Finish { outcome })
}

fn first_command(request: &Request) -> (next: (Progress, Command))
    ensures
        (next.0@, next.1@) == opened(request@),
{
    match request {
        Request::PlaceOrder { menu_id, .. } => {
            let mut menu_ids: Vec<i32> = Vec::new();
            menu_ids.push(*menu_id);
            assert(menu_ids@ =~= seq![*menu_id]);
            (Progress::FindingMenus, Command::FindMenus { menu_ids })
        },
        Request::PlaceOrders { menu_ids, .. } => match validate_batch(menu_ids) {
            Err(fault) => give_up(OrderError::Validation(fault)),
            Ok(_) => (Progress::FindingMenus, Command::FindMenus { menu_ids: copy_ids(menu_ids) }),
        },
        Request::CancelOrder { order_id } => (
            Progress::Updating,
            Command::CancelOrder { order_id: *order_id },
        ),
        Request::CompleteOrder { user_name, .. } => (
            Progress::FindingUser { cook_times: Vec::new() },
            Command::FindUser { name: user_name.clone() },
        ),
        Request::ClearTable { table_id } => (
            Progress::Updating,
            Command::CancelTableOrders { table_id: *table_id },
        ),
    }
}

fn complete(order_id: i64, progress: Progress, reply: Reply) -> (next: (Progress, Command))
    ensures
        (next.0@, next.1@) == completion_step(order_id, progress@, reply@),
{
    match progress {
        Progress::FindingUser { .. } => match reply {
            Reply::User { id: Some(user_id) } => (
                Progress::Updating,
                Command::CompleteOrder { order_id, user_id },
            ),
            _ => give_up(OrderError::NotFound(Missing::User)),
        },
        _ => give_up(OrderError::Persistence),
    }
}

impl Transaction {
    /// Advances the operation by one reply, as of the instant `now`. `now`
    /// matters to a placement alone: it is the instant from which the finish
    /// times of its orders are counted.
    pub fn step_at(self, reply: Reply, now: Timestamp) -> (next: (Transaction, Command))
        ensures
            (next.0@, next.1@) == step_of(self@, reply@, now),
    {
        let Transaction { request, progress } = self;
        let (progress, command) = match progress {
            Progress::Opening => match reply {
                Reply::Done => first_command(&request),
                _ => finish(Err(OrderError::Persistence)),
            },
            Progress::Updating => match reply {
                Reply::Affected { .. } => (
                    Progress::Committing { success: Success::Ack },
                    Command::Commit,
                ),
                _ => give_up(OrderError::Persistence),
            },
            Progress::Committing { success } => match reply {
                Reply::Done => finish(Ok(success)),
                _ => finish(Err(OrderError::Persistence)),
            },
            Progress::Aborting { error } => finish(Err(error)),
            Progress::Finished { outcome } => finish(outcome),
            progress => match &request {
                Request::PlaceOrder { table_id, menu_id, user_name } => {
                    check_existence_and_insert_order(
                        *table_id,
                        *menu_id,
                        user_name.as_str(),
                        progress,
                        reply,
                        now,
                    )
                },
                Request::PlaceOrders { table_id, menu_ids, user_name } => {
                    check_existence_and_insert_orders(
                        *table_id,
                        menu_ids,
                        user_name.as_str(),
                        progress,
                        reply,
                        now,
                    )
                },
                Request::CompleteOrder { order_id, .. } => complete(*order_id, progress, reply),
                _ => give_up(OrderError::Persistence),
            },
        };
        (Transaction { request, progress }, command)
    }

    /// Advances the operation by one reply, reading the clock for the
    /// instant of placement.
    pub fn step(self, reply: Reply) -> (next: (Transaction, Command))
        ensures
            exists|now: Timestamp| (next.0@, next.1@) == #[trigger] step_of(self@, reply@, now),
    {
        let now = utc_now();
        self.step_at(reply, now)
    }

    /// The outcome of the operation, once it has ended.
    pub fn outcome(&self) -> (outcome: Option<Outcome>)
        ensures
            outcome == match self@.progress {
                ProgressView::Finished { outcome } => Some(outcome),
                _ => None,
            },
    {
        match &self.progress {
            Progress::Finished { outcome } => Some(*outcome),
            _ => None,
        }
    }
}

/// What the answer to a completion says in its body: a complaint where
/// the serving user is unknown, nothing otherwise.
pub open spec fn completion_complaint(outcome: Outcome) -> Option<Seq<char>> {
    match outcome {
        Err(OrderError::NotFound(Missing::User)) => Some("This user doesn't exist."@),
        _ => None,
    }
}

/// The body of the answer to a completion that ended with `outcome`.
pub fn complete_order_body(outcome: &Outcome) -> (body: Option<&'static str>)
    ensures
        match body {
            Some(text) => completion_complaint(*outcome) == Some(text@),
            None => completion_complaint(*outcome) is None,
        },
{
    match outcome {
        Err(OrderError::NotFound(Missing::User)) => Some("This user doesn't exist."),
        _ => None,
    }
}

/// What the lookup of one active order comes to.
pub open spec fn order_shown(
    reading: Reading<RestaurantTableOrder>,
    lines: Option<Vec<OrderLine>>,
) -> bool {
    match lines {
        Some(lines) => if lines.len() == 0 {
            reading is Blank
        } else {
            reading == Reading::Found(shown(lines[0]))
        },
        None => reading is Failed,
    }
}

/// Answers the lookup of one active order from the lines that the store
/// gave for its id: the first line as it is shown, or a blank where the
/// order does not exist or is marked deleted. `None` stands for a store that
/// failed.
pub fn get_order(lines: Option<Vec<OrderLine>>) -> (reading: Reading<RestaurantTableOrder>)
    ensures
        order_shown(reading, lines),
{
    match lines {
        Some(lines) => if lines.len() == 0 {
            Reading::Blank
        } else {
            Reading::Found(lines[0].show())
        },
        None => Reading::Failed,
    }
}

} // verus!
