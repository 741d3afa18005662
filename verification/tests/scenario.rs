use restaurant_pos::auth::{current_user_at, login_at, Account, LoginError, LoginRequest};
use restaurant_pos::bearer::verify_at;
use restaurant_pos::clock::Timestamp;
use restaurant_pos::gate::{Admission, JwtMiddleware};
use restaurant_pos::order::{
    add_orders, complete_order, delete_order, AddOrdersRequest, CompleteOrderRequest,
    DeleteOrderRequest, Transaction,
};
use restaurant_pos::store::{Command, CookTime, Outcome, Reply, Success};
use restaurant_pos::token::AuthError;

struct Order {
    id: i64,
    table: i32,
    served: bool,
    served_by: Option<i32>,
    deleted: bool,
}

struct Restaurant {
    orders: Vec<Order>,
    pending: Vec<Order>,
}

impl Restaurant {
    fn active_on(&self, table: i32) -> Vec<i64> {
        self.orders.iter().filter(|o| o.table == table && !o.deleted).map(|o| o.id).collect()
    }

    fn answer(&mut self, command: Command) -> Reply {
        match command {
            Command::Begin | Command::Rollback => {
                self.pending.clear();
                Reply::Done
            }
            Command::Commit => {
                self.orders.append(&mut self.pending);
                Reply::Done
            }
            Command::FindMenus { menu_ids } => Reply::Menus {
                rows: menu_ids
                    .iter()
                    .filter(|id| (1..=5).contains(*id))
                    .map(|id| CookTime { menu_id: *id, seconds: 60 * id })
                    .collect(),
            },
            Command::FindUser { name } => Reply::User { id: if name == "alice" { Some(1) } else { None } },
            Command::FindTable { table_id } => Reply::Table { exists: table_id == 4 },
            Command::InsertOrders { rows } => {
                let first = self.orders.len() as i64 + 1;
                let mut order_ids = Vec::new();
                for (i, r) in rows.iter().enumerate() {
                    let id = first + i as i64;
                    self.pending.push(Order {
                        id,
                        table: r.restaurant_table_id,
                        served: false,
                        served_by: None,
                        deleted: false,
                    });
                    order_ids.push(id);
                }
                Reply::Inserted { order_ids }
            }
            Command::CancelOrder { order_id } => {
                self.orders.iter_mut().filter(|o| o.id == order_id).for_each(|o| o.deleted = true);
                Reply::Affected { count: 1 }
            }
            Command::CompleteOrder { order_id, user_id } => {
                for o in self.orders.iter_mut().filter(|o| o.id == order_id) {
                    o.deleted = true;
                    o.served = true;
                    o.served_by = Some(user_id);
                }
                Reply::Affected { count: 1 }
            }
            other => panic!("unexpected {:?}", other),
        }
    }

    fn run(&mut self, start: (Transaction, Command), now: Timestamp) -> Outcome {
        let (mut txn, mut command) = start;
        loop {
            if let Command::Finish { outcome } = command {
                return outcome;
            }
            let reply = self.answer(command);
            let next = txn.step_at(reply, now);
            txn = next.0;
            command = next.1;
        }
    }
}

#[test]
fn alice_logs_in_orders_three_cancels_one_and_completes_one() {
    let now = Timestamp { secs: 1_750_000_000, nanos: 0 };
    let second = 1_750_000_000u64;
    let gate = JwtMiddleware.new_transform(());
    let mut restaurant = Restaurant { orders: Vec::new(), pending: Vec::new() };

    assert_eq!(gate.call_at(None, "/api/auth/login", second), Admission::Forward);
    let account = Account { id: 1, password: bcrypt::hash("correct horse", 4).unwrap() };
    let request = LoginRequest { name: "alice".to_owned(), password: "correct horse".to_owned() };
    let user = login_at(&request, Some(account), now).unwrap();
    assert_eq!(user.id, 1);
    assert_eq!(user.name, "alice");
    let header = format!("Bearer {}", user.token);

    assert_eq!(gate.call_at(Some(&header), "/api/orders", second), Admission::Forward);
    let batch = AddOrdersRequest { restaurant_table_id: 4, menu_ids: vec![1, 2, 3] };
    let outcome = restaurant.run(add_orders(verify_at(Some(&header), second), &batch), now);
    assert_eq!(outcome, Ok(Success::Rows(3)));
    assert_eq!(restaurant.active_on(4), vec![1, 2, 3]);

    assert_eq!(gate.call_at(Some(&header), "/api/order", second), Admission::Forward);
    let outcome = restaurant.run(delete_order(&DeleteOrderRequest { order_id: 2 }), now);
    assert_eq!(outcome, Ok(Success::Ack));
    assert_eq!(restaurant.active_on(4), vec![1, 3]);

    assert_eq!(gate.call_at(Some(&header), "/api/order/complete", second), Admission::Forward);
    let outcome = restaurant.run(
        complete_order(verify_at(Some(&header), second), &CompleteOrderRequest { order_id: 3 }),
        now,
    );
    assert_eq!(outcome, Ok(Success::Ack));
    let completed = restaurant.orders.iter().find(|o| o.id == 3).unwrap();
    assert!(completed.served);
    assert_eq!(completed.served_by, Some(user.id));
    assert_eq!(restaurant.active_on(4), vec![1]);

    let who = current_user_at(Some(&header), second).unwrap();
    assert_eq!(who.sub, "alice");
    assert_eq!(who.exp, second + 864_000);
}

#[test]
fn login_with_the_right_password_issues_a_token_for_the_user() {
    let now = Timestamp { secs: 500, nanos: 0 };
    let account = Account { id: 7, password: bcrypt::hash("pw", 4).unwrap() };
    let request = LoginRequest { name: "bob".to_owned(), password: "pw".to_owned() };
    let user = login_at(&request, Some(account), now).unwrap();
    assert_eq!(user.id, 7);
    assert_eq!(user.name, "bob");
    let claims = verify_at(Some(&format!("Bearer {}", user.token)), 500).unwrap();
    assert_eq!(claims.sub, "bob");
    assert_eq!(claims.exp, 864_500);
}

#[test]
fn login_with_the_wrong_password_is_unauthorized() {
    let now = Timestamp { secs: 500, nanos: 0 };
    let account = Account { id: 7, password: bcrypt::hash("pw", 4).unwrap() };
    let request = LoginRequest { name: "bob".to_owned(), password: "pw ".to_owned() };
    assert_eq!(login_at(&request, Some(account), now).unwrap_err(), LoginError::Unauthorized);
}

#[test]
fn login_of_an_unknown_user_is_unauthorized() {
    let now = Timestamp { secs: 500, nanos: 0 };
    let request = LoginRequest { name: "bob".to_owned(), password: "pw".to_owned() };
    assert_eq!(login_at(&request, None, now).unwrap_err(), LoginError::Unauthorized);
    assert_eq!(
        restaurant_pos::auth::login(&request, None).unwrap_err(),
        LoginError::Unauthorized
    );
}

#[test]
fn login_against_a_hash_that_is_none_is_unauthorized() {
    let now = Timestamp { secs: 500, nanos: 0 };
    let request = LoginRequest { name: "bob".to_owned(), password: "pw".to_owned() };
    for hash in ["", "pw", "$2b$04$short"] {
        let account = Account { id: 7, password: hash.to_owned() };
        assert_eq!(login_at(&request, Some(account), now).unwrap_err(), LoginError::Unauthorized);
    }
}

#[test]
fn login_before_the_epoch_cannot_issue_a_token() {
    let account = Account { id: 7, password: bcrypt::hash("pw", 4).unwrap() };
    let request = LoginRequest { name: "bob".to_owned(), password: "pw".to_owned() };
    assert_eq!(
        login_at(&request, Some(account), Timestamp { secs: -5, nanos: 0 }).unwrap_err(),
        LoginError::Internal
    );
}

#[test]
fn login_against_the_clock_issues_a_token_that_is_valid_now() {
    let account = Account { id: 7, password: bcrypt::hash("pw", 4).unwrap() };
    let request = LoginRequest { name: "bob".to_owned(), password: "pw".to_owned() };
    let user = restaurant_pos::auth::login(&request, Some(account)).unwrap();
    let header = format!("Bearer {}", user.token);
    assert_eq!(restaurant_pos::auth::current_user(Some(&header)).unwrap().sub, "bob");
}

#[test]
fn current_user_without_a_token_has_nothing_to_tell() {
    assert_eq!(current_user_at(None, 0).unwrap_err(), AuthError::Missing);
    assert_eq!(restaurant_pos::auth::current_user(None).unwrap_err(), AuthError::Missing);
}
