//! The entities of the point of sale, as the rows that the store holds and the
//! bodies that the service answers with.
//!
//! In the bodies, instants are whole seconds since the Unix epoch.

use vstd::prelude::*;
use vstd::string::*;
use crate::clock::Timestamp;

verus! {

/// A dish on the menu, with the time it takes to prepare.
#[derive(Clone, Debug)]
pub struct Menu {
    pub id: i32,
    pub name: String,
    pub cook_time_seconds: i32,
    pub price: i32,
}

/// A physical table.
#[derive(Clone, Debug)]
pub struct RestaurantTable {
    pub id: i32,
    pub table_number: i32,
    pub note: Option<String>,
}

/// A member of staff, as listed.
#[derive(Clone, Debug)]
pub struct UserData {
    pub id: i32,
    pub name: String,
}

/// A member of staff who has just logged in, with the token issued to them.
#[derive(Clone, Debug)]
pub struct User {
    pub id: i32,
    pub name: String,
    pub token: String,
}

/// An order as the store keeps it.
#[derive(Clone, Copy, Debug)]
pub struct Order {
    pub id: i64,
    pub restaurant_table_id: i32,
    pub menu_id: i32,
    pub expected_cook_finish_time: i64,
    pub is_served_by_staff: bool,
    pub price: i32,
    pub checked_by_user_id: i32,
}

/// One line of the view of active orders: a table joined with one of its
/// orders, the dish and the staff involved.
#[derive(Clone, Debug)]
pub struct RestaurantTableOrder {
    pub id: i32,
    pub table_number: i32,
    pub table_note: Option<String>,
    pub menu_name: Option<String>,
    pub price: Option<i32>,
    pub cook_time_seconds: Option<i32>,
    pub order_id: Option<i64>,
    pub expected_cook_finish_time: Option<i64>,
    pub ordered_time: Option<i64>,
    pub is_served_by_staff: Option<bool>,
    pub served_by_user_id: Option<i32>,
    pub serve_staff_name: Option<String>,
    pub checked_by_user_id: Option<i32>,
    pub check_staff_name: Option<String>,
}

/// One line of the join behind the view of active orders, as the store gives
/// it: a table with one of its orders, the dish and the staff involved.
#[derive(Clone, Debug)]
pub struct OrderLine {
    pub restaurant_table_id: i32,
    pub table_number: i32,
    pub table_note: Option<String>,
    pub menu_name: Option<String>,
    pub price: Option<i32>,
    pub cook_time_seconds: Option<i32>,
    pub order_id: Option<i64>,
    pub expected_cook_finish_time: Option<Timestamp>,
    pub ordered_time: Option<Timestamp>,
    pub is_served_by_staff: Option<bool>,
    pub served_by_user_id: Option<i32>,
    pub serve_staff_name: Option<String>,
    pub checked_by_user_id: Option<i32>,
    pub check_staff_name: Option<String>,
}

/// The whole seconds of an instant, where there is one.
pub open spec fn whole_seconds(instant: Option<Timestamp>) -> Option<i64> {
    match instant {
        Some(t) => Some(t.secs),
        None => None,
    }
}

/// A line of the join as it is shown: every field as the store gave it, the
/// two instants cut down to whole seconds.
pub open spec fn shown(line: OrderLine) -> RestaurantTableOrder {
    RestaurantTableOrder {
        id: line.restaurant_table_id,
        table_number: line.table_number,
        table_note: line.table_note,
        menu_name: line.menu_name,
        price: line.price,
        cook_time_seconds: line.cook_time_seconds,
        order_id: line.order_id,
        expected_cook_finish_time: whole_seconds(line.expected_cook_finish_time),
        ordered_time: whole_seconds(line.ordered_time),
        is_served_by_staff: line.is_served_by_staff,
        served_by_user_id: line.served_by_user_id,
        serve_staff_name: line.serve_staff_name,
        checked_by_user_id: line.checked_by_user_id,
        check_staff_name: line.check_staff_name,
    }
}

fn copy_text(text: &Option<String>) -> (copy: Option<String>)
    ensures
        copy == *text,
{
    match text {
        Some(t) => Some(t.clone()),
        None => None,
    }
}

fn seconds_of(instant: &Option<Timestamp>) -> (seconds: Option<i64>)
    ensures
        seconds == whole_seconds(*instant),
{
    match instant {
        Some(t) => Some(t.secs),
        None => None,
    }
}

impl OrderLine {
    /// The line as it is shown.
    pub fn show(&self) -> (view: RestaurantTableOrder)
        ensures
            view == shown(*self),
    {
        RestaurantTableOrder {
            id: self.restaurant_table_id,
            table_number: self.table_number,
            table_note: copy_text(&self.table_note),
            menu_name: copy_text(&self.menu_name),
            price: self.price,
            cook_time_seconds: self.cook_time_seconds,
            order_id: self.order_id,
            expected_cook_finish_time: seconds_of(&self.expected_cook_finish_time),
            ordered_time: seconds_of(&self.ordered_time),
            is_served_by_staff: self.is_served_by_staff,
            served_by_user_id: self.served_by_user_id,
            serve_staff_name: copy_text(&self.serve_staff_name),
            checked_by_user_id: self.checked_by_user_id,
            check_staff_name: copy_text(&self.check_staff_name),
        }
    }
}

/// The lines of a join as they are shown, in the order given.
pub open spec fn all_shown(lines: Seq<OrderLine>) -> Seq<RestaurantTableOrder> {
    Seq::new(lines.len(), |i: int| shown(lines[i]))
}

/// Shows each line of a join.
pub fn show_all(lines: &Vec<OrderLine>) -> (views: Vec<RestaurantTableOrder>)
    ensures
        views@ == all_shown(lines@),
{
    let mut views: Vec<RestaurantTableOrder> = Vec::new();
    let mut i: usize = 0;
    while i < lines.len()
        invariant
            i <= lines.len(),
            views@.len() == i,
            forall|k: int| 0 <= k < i ==> views@[k] == shown(lines@[k]),
        decreases lines.len() - i,
    {
        views.push(lines[i].show());
        i += 1;
    }
    assert(views@ =~= all_shown(lines@));
    views
}

} // verus!
