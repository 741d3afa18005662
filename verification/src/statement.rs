//! The text of the statements that carry the commands out.
//!
//! Values never enter the text: every statement names its parameters by
//! position (`$1`, `$2`, ...) and the values travel beside it. The one
//! statement whose text depends on the request is the insert of a batch,
//! which has one group of four parameters for each order.

use vstd::prelude::*;
use vstd::string::*;
use crate::store::{Command, CommandView, MAX_BATCH};

verus! {

/// The character for a decimal digit.
pub open spec fn digit(d: int) -> char {
    if d == 0 {
        '0'
    } else if d == 1 {
        '1'
    } else if d == 2 {
        '2'
    } else if d == 3 {
        '3'
    } else if d == 4 {
        '4'
    } else if d == 5 {
        '5'
    } else if d == 6 {
        '6'
    } else if d == 7 {
        '7'
    } else if d == 8 {
        '8'
    } else {
        '9'
    }
}

/// A number in decimal, without sign or leading zeros.
pub open spec fn decimal(n: nat) -> Seq<char>
    decreases n,
{
    if n < 10 {
        seq![digit(n as int)]
    } else {
        decimal(n / 10).push(digit((n % 10) as int))
    }
}

/// The name of the parameter at position `k`.
pub open spec fn parameter(k: nat) -> Seq<char> {
    seq!['$'] + decimal(k)
}

/// The group of values for the order at index `i` of a batch: its four
/// parameters, and `false` for "served by staff".
pub open spec fn value_group(i: nat) -> Seq<char> {
    "("@ + parameter(4 * i + 1) + ", "@ + parameter(4 * i + 2) + ", "@ + parameter(4 * i + 3)
        + ", "@ + parameter(4 * i + 4) + ", false)"@
}

/// The groups of values for `rows` orders, separated by commas.
pub open spec fn value_groups(rows: nat) -> Seq<char>
    decreases rows,
{
    if rows == 0 {
        Seq::empty()
    } else if rows == 1 {
        value_group(0)
    } else {
        value_groups((rows - 1) as nat) + ", "@ + value_group((rows - 1) as nat)
    }
}

/// The statement that writes `rows` orders at once and hands their ids back.
pub open spec fn insert_statement(rows: nat) -> Seq<char> {
    "INSERT INTO orders (restaurant_table_id, menu_id, checked_by_user_id, expected_cook_finish_time, is_served_by_staff) VALUES "@
        + value_groups(rows) + " RETURNING id;"@
}

fn digit_text(d: usize) -> (text: &'static str)
    requires
        d < 10,
    ensures
        text@ == seq![digit(d as int)],
{
    proof {
        reveal_strlit("0");
        reveal_strlit("1");
        reveal_strlit("2");
        reveal_strlit("3");
        reveal_strlit("4");
        reveal_strlit("5");
        reveal_strlit("6");
        reveal_strlit("7");
        reveal_strlit("8");
        reveal_strlit("9");
    }
    let text = if d == 0 {
        "0"
    } else if d == 1 {
        "1"
    } else if d == 2 {
        "2"
    } else if d == 3 {
        "3"
    } else if d == 4 {
        "4"
    } else if d == 5 {
        "5"
    } else if d == 6 {
        "6"
    } else if d == 7 {
        "7"
    } else if d == 8 {
        "8"
    } else {
        "9"
    };
    assert(text@ =~= seq![digit(d as int)]);
    text
}

fn push_decimal(out: &mut String, n: usize)
    ensures
        final(out)@ == old(out)@ + decimal(n as nat),
    decreases n,
{
    if n >= 10 {
        push_decimal(out, n / 10);
    }
    out.append(digit_text(n % 10));
    assert(out@ =~= old(out)@ + decimal(n as nat));
}

fn push_parameter(out: &mut String, k: usize)
    ensures
        final(out)@ == old(out)@ + parameter(k as nat),
{
    proof {
        reveal_strlit("$");
    }
    out.append("$");
    push_decimal(out, k);
    assert(out@ =~= old(out)@ + parameter(k as nat));
}

fn push_value_group(out: &mut String, i: usize)
    requires
        i < MAX_BATCH,
    ensures
        final(out)@ == old(out)@ + value_group(i as nat),
{
    out.append("(");
    push_parameter(out, 4 * i + 1);
    out.append(", ");
    push_parameter(out, 4 * i + 2);
    out.append(", ");
    push_parameter(out, 4 * i + 3);
    out.append(", ");
    push_parameter(out, 4 * i + 4);
    out.append(", false)");
    assert(out@ =~= old(out)@ + value_group(i as nat));
}

/// The statement that writes a batch of `rows` orders, as one multi-row
/// insert. A batch has at least one order and at most `MAX_BATCH`; for any
/// other number there is no statement.
pub fn insert_orders_statement(rows: usize) -> (text: Option<String>)
    ensures
        text is Some <==> 1 <= rows <= MAX_BATCH,
        text matches Some(t) ==> t@ == insert_statement(rows as nat),
{
    if rows == 0 || rows > MAX_BATCH {
        return None;
    }
    let mut groups = String::new();
    push_value_group(&mut groups, 0);
    assert(groups@ =~= value_groups(1));
    let mut i: usize = 1;
    while i < rows
        invariant
            1 <= i <= rows <= MAX_BATCH,
            groups@ == value_groups(i as nat),
        decreases rows - i,
    {
        groups.append(", ");
        push_value_group(&mut groups, i);
        i += 1;
    }
    let mut text = String::from_str(
        "INSERT INTO orders (restaurant_table_id, menu_id, checked_by_user_id, expected_cook_finish_time, is_served_by_staff) VALUES ",
    );
    text.append(groups.as_str());
    text.append(" RETURNING id;");
    Some(text)
}

/// The statement for a command, where the command is a statement. Opening
/// and closing a transaction, and ending the operation, are none.
pub open spec fn statement_of(command: CommandView) -> Option<Seq<char>> {
    match command {
        CommandView::FindMenus { .. } => Some(
            "SELECT id, cook_time_seconds FROM menus WHERE id = ANY($1);"@,
        ),
        CommandView::FindUser { .. } => Some("SELECT id FROM users WHERE name = $1;"@),
        CommandView::FindTable { .. } => Some("SELECT id FROM restaurant_tables WHERE id = $1;"@),
        CommandView::InsertOrders { rows } => if 1 <= rows.len() <= MAX_BATCH {
            Some(insert_statement(rows.len()))
        } else {
            None
        },
        CommandView::CancelOrder { .. } => Some(
            "UPDATE orders SET deleted_at = now() WHERE id = $1;"@,
        ),
        CommandView::CompleteOrder { .. } => Some(
            "UPDATE orders SET deleted_at = now(), served_by_user_id = $2, is_served_by_staff = true WHERE id = $1;"@,
        ),
        CommandView::CancelTableOrders { .. } => Some(
            "UPDATE orders SET deleted_at = now() WHERE restaurant_table_id = $1 AND deleted_at IS NULL;"@,
        ),
        _ => None,
    }
}

/// The text of the statement that carries `command` out.
pub fn statement_for(command: &Command) -> (text: Option<String>)
    ensures
        match text {
            Some(t) => statement_of(command@) == Some(t@),
            None => statement_of(command@) is None,
        },
{
    match command {
        Command::FindMenus { .. } => Some(
            String::from_str("SELECT id, cook_time_seconds FROM menus WHERE id = ANY($1);"),
        ),
        Command::FindUser { .. } => Some(String::from_str("SELECT id FROM users WHERE name = $1;")),
        Command::FindTable { .. } => Some(
            String::from_str("SELECT id FROM restaurant_tables WHERE id = $1;"),
        ),
        Command::InsertOrders { rows } => insert_orders_statement(rows.len()),
        Command::CancelOrder { .. } => Some(
            String::from_str("UPDATE orders SET deleted_at = now() WHERE id = $1;"),
        ),
        Command::CompleteOrder { .. } => Some(
            String::from_str(
                "UPDATE orders SET deleted_at = now(), served_by_user_id = $2, is_served_by_staff = true WHERE id = $1;",
            ),
        ),
        Command::CancelTableOrders { .. } => Some(
            String::from_str(
                "UPDATE orders SET deleted_at = now() WHERE restaurant_table_id = $1 AND deleted_at IS NULL;",
            ),
        ),
        _ => None,
    }
}

/// A read of the store.
#[derive(Clone, Copy, Debug, PartialEq, Eq, Structural)]
pub enum Query {
    /// The account of the user with the name `$1`.
    Account,
    /// All tables.
    Tables,
    /// The active orders of the table with the id `$1`.
    TableOrders,
    /// The active order with the id `$1`.
    Order,
    /// The whole menu.
    Menus,
    /// The menu item with the id `$1`.
    Menu,
}

/// The join behind the view of orders: each order with its table, its dish
/// and the staff involved.
pub open spec fn order_lines() -> Seq<char> {
    "SELECT rt.id AS restaurant_table_id, rt.table_number AS table_number, rt.note AS table_note, mn.name AS menu_name, mn.price AS price, mn.cook_time_seconds AS cook_time_seconds, odr.id AS order_id, odr.expected_cook_finish_time AS expected_cook_finish_time, odr.created_at AS ordered_time, odr.is_served_by_staff AS is_served_by_staff, odr.served_by_user_id AS served_by_user_id, serve_user.name AS serve_staff_name, odr.checked_by_user_id AS checked_by_user_id, check_user.name AS check_staff_name FROM restaurant_tables AS rt INNER JOIN orders AS odr ON rt.id = odr.restaurant_table_id INNER JOIN menus AS mn ON odr.menu_id = mn.id LEFT JOIN users AS serve_user ON odr.served_by_user_id = serve_user.id INNER JOIN users AS check_user ON odr.checked_by_user_id = check_user.id"@
}

/// The text of a read. The two reads of orders leave out every order that
/// is marked deleted.
pub open spec fn query_text(query: Query) -> Seq<char> {
    match query {
        Query::Account => "SELECT id, name, password FROM users WHERE name = $1;"@,
        Query::Tables => "SELECT id, table_number, note FROM restaurant_tables;"@,
        Query::TableOrders => order_lines() + " WHERE rt.id = $1 AND odr.deleted_at IS NULL;"@,
        Query::Order => order_lines() + " WHERE odr.id = $1 AND odr.deleted_at IS NULL;"@,
        Query::Menus => "SELECT id, name, cook_time_seconds, price FROM menus;"@,
        Query::Menu => "SELECT id, name, cook_time_seconds, price FROM menus WHERE id = $1;"@,
    }
}

fn order_lines_text() -> (text: String)
    ensures
        text@ == order_lines(),
{
    String::from_str(
        "SELECT rt.id AS restaurant_table_id, rt.table_number AS table_number, rt.note AS table_note, mn.name AS menu_name, mn.price AS price, mn.cook_time_seconds AS cook_time_seconds, odr.id AS order_id, odr.expected_cook_finish_time AS expected_cook_finish_time, odr.created_at AS ordered_time, odr.is_served_by_staff AS is_served_by_staff, odr.served_by_user_id AS served_by_user_id, serve_user.name AS serve_staff_name, odr.checked_by_user_id AS checked_by_user_id, check_user.name AS check_staff_name FROM restaurant_tables AS rt INNER JOIN orders AS odr ON rt.id = odr.restaurant_table_id INNER JOIN menus AS mn ON odr.menu_id = mn.id LEFT JOIN users AS serve_user ON odr.served_by_user_id = serve_user.id INNER JOIN users AS check_user ON odr.checked_by_user_id = check_user.id",
    )
}

impl Query {
    /// The text of the read.
    pub fn text(&self) -> (text: String)
        ensures
            text@ == query_text(*self),
    {
        match self {
            Query::Account => String::from_str(
                "SELECT id, name, password FROM users WHERE name = $1;",
            ),
            Query::Tables => String::from_str(
                "SELECT id, table_number, note FROM restaurant_tables;",
            ),
            Query::TableOrders => {
                let mut text = order_lines_text();
                text.append(" WHERE rt.id = $1 AND odr.deleted_at IS NULL;");
                text
            },
            Query::Order => {
                let mut text = order_lines_text();
                text.append(" WHERE odr.id = $1 AND odr.deleted_at IS NULL;");
                text
            },
            Query::Menus => String::from_str(
                "SELECT id, name, cook_time_seconds, price FROM menus;",
            ),
            Query::Menu => String::from_str(
                "SELECT id, name, cook_time_seconds, price FROM menus WHERE id = $1;",
            ),
        }
    }
}

} // verus!
