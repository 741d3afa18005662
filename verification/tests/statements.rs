use restaurant_pos::clock::Timestamp;
use restaurant_pos::statement::{insert_orders_statement, statement_for};
use restaurant_pos::store::{Command, NewOrder};

const HEAD: &str = "INSERT INTO orders (restaurant_table_id, menu_id, checked_by_user_id, expected_cook_finish_time, is_served_by_staff) VALUES ";

fn row(menu_id: i32) -> NewOrder {
    NewOrder {
        restaurant_table_id: 1,
        menu_id,
        checked_by_user_id: 1,
        expected_cook_finish_time: Timestamp { secs: 0, nanos: 0 },
    }
}

#[test]
fn insert_of_one_order_has_one_group() {
    assert_eq!(
        insert_orders_statement(1).unwrap(),
        format!("{}($1, $2, $3, $4, false) RETURNING id;", HEAD)
    );
}

#[test]
fn insert_of_three_orders_numbers_twelve_parameters() {
    assert_eq!(
        insert_orders_statement(3).unwrap(),
        format!(
            "{}($1, $2, $3, $4, false), ($5, $6, $7, $8, false), ($9, $10, $11, $12, false) RETURNING id;",
            HEAD
        )
    );
}

#[test]
fn insert_of_any_batch_matches_the_formatted_text() {
    for rows in 1..=100usize {
        let groups: Vec<String> = (0..rows)
            .map(|i| {
                format!("(${}, ${}, ${}, ${}, false)", 4 * i + 1, 4 * i + 2, 4 * i + 3, 4 * i + 4)
            })
            .collect();
        let expected = format!("{}{} RETURNING id;", HEAD, groups.join(", "));
        assert_eq!(insert_orders_statement(rows).unwrap(), expected);
    }
}

#[test]
fn largest_batch_ends_with_parameter_400() {
    let text = insert_orders_statement(100).unwrap();
    assert!(text.ends_with("($397, $398, $399, $400, false) RETURNING id;"));
}

#[test]
fn no_statement_for_an_empty_or_oversized_batch() {
    assert_eq!(insert_orders_statement(0), None);
    assert_eq!(insert_orders_statement(101), None);
    assert_eq!(insert_orders_statement(usize::MAX), None);
}

#[test]
fn each_command_has_its_statement() {
    assert_eq!(
        statement_for(&Command::FindMenus { menu_ids: vec![1, 2] }).unwrap(),
        "SELECT id, cook_time_seconds FROM menus WHERE id = ANY($1);"
    );
    assert_eq!(
        statement_for(&Command::FindUser { name: "alice".to_owned() }).unwrap(),
        "SELECT id FROM users WHERE name = $1;"
    );
    assert_eq!(
        statement_for(&Command::FindTable { table_id: 4 }).unwrap(),
        "SELECT id FROM restaurant_tables WHERE id = $1;"
    );
    assert_eq!(
        statement_for(&Command::CancelOrder { order_id: 9 }).unwrap(),
        "UPDATE orders SET deleted_at = now() WHERE id = $1;"
    );
    assert_eq!(
        statement_for(&Command::CompleteOrder { order_id: 9, user_id: 2 }).unwrap(),
        "UPDATE orders SET deleted_at = now(), served_by_user_id = $2, is_served_by_staff = true WHERE id = $1;"
    );
    assert_eq!(
        statement_for(&Command::CancelTableOrders { table_id: 4 }).unwrap(),
        "UPDATE orders SET deleted_at = now() WHERE restaurant_table_id = $1 AND deleted_at IS NULL;"
    );
    assert_eq!(
        statement_for(&Command::InsertOrders { rows: vec![row(1), row(2)] }).unwrap(),
        insert_orders_statement(2).unwrap()
    );
}

#[test]
fn transaction_control_is_no_statement() {
    assert_eq!(statement_for(&Command::Begin), None);
    assert_eq!(statement_for(&Command::Commit), None);
    assert_eq!(statement_for(&Command::Rollback), None);
    assert_eq!(statement_for(&Command::Finish { outcome: Err(restaurant_pos::store::OrderError::Persistence) }), None);
    assert_eq!(statement_for(&Command::InsertOrders { rows: vec![] }), None);
}

#[test]
fn statements_never_carry_values() {
    let text = statement_for(&Command::FindUser { name: "x'; DROP TABLE users; --".to_owned() })
        .unwrap();
    assert!(!text.contains("DROP"));
}

#[test]
fn reads_of_orders_leave_out_deleted_orders() {
    let table = restaurant_pos::statement::Query::TableOrders.text();
    let order = restaurant_pos::statement::Query::Order.text();
    assert!(table.ends_with(" WHERE rt.id = $1 AND odr.deleted_at IS NULL;"));
    assert!(order.ends_with(" WHERE odr.id = $1 AND odr.deleted_at IS NULL;"));
    assert!(table.starts_with("SELECT rt.id AS restaurant_table_id, "));
    assert_eq!(
        table.strip_suffix(" WHERE rt.id = $1 AND odr.deleted_at IS NULL;"),
        order.strip_suffix(" WHERE odr.id = $1 AND odr.deleted_at IS NULL;")
    );
}

#[test]
fn plain_reads_have_their_texts() {
    assert_eq!(
        restaurant_pos::statement::Query::Account.text(),
        "SELECT id, name, password FROM users WHERE name = $1;"
    );
    assert_eq!(
        restaurant_pos::statement::Query::Tables.text(),
        "SELECT id, table_number, note FROM restaurant_tables;"
    );
    assert_eq!(
        restaurant_pos::statement::Query::Menus.text(),
        "SELECT id, name, cook_time_seconds, price FROM menus;"
    );
    assert_eq!(
        restaurant_pos::statement::Query::Menu.text(),
        "SELECT id, name, cook_time_seconds, price FROM menus WHERE id = $1;"
    );
}
