use restaurant_pos::clock::Timestamp;
use restaurant_pos::order_service::{
    check_existence_and_insert_order, check_existence_and_insert_orders, find_cook_time,
    plan_orders, resolve_menus, validate_batch, Progress,
};
use restaurant_pos::store::{
    Command, CookTime, Missing, NewOrder, OrderError, Reply, Success, ValidationError, MAX_BATCH,
};

fn at(secs: i64) -> Timestamp {
    Timestamp { secs, nanos: 9 }
}

fn ct(menu_id: i32, seconds: i32) -> CookTime {
    CookTime { menu_id, seconds }
}

#[test]
fn batch_limit_is_one_hundred() {
    assert_eq!(MAX_BATCH, 100);
}

#[test]
fn batch_must_not_be_empty() {
    assert_eq!(validate_batch(&vec![]), Err(ValidationError::Empty));
}

#[test]
fn batch_must_not_exceed_the_limit() {
    let ids: Vec<i32> = (0..101).collect();
    assert_eq!(validate_batch(&ids), Err(ValidationError::TooMany));
    let ids: Vec<i32> = (0..100).collect();
    assert_eq!(validate_batch(&ids), Ok(()));
    assert_eq!(validate_batch(&vec![5]), Ok(()));
}

#[test]
fn batch_must_not_repeat_an_item() {
    assert_eq!(validate_batch(&vec![1, 1]), Err(ValidationError::Duplicate));
    assert_eq!(validate_batch(&vec![1, 2, 3, 2]), Err(ValidationError::Duplicate));
    assert_eq!(validate_batch(&vec![3, 2, 1, 3]), Err(ValidationError::Duplicate));
    let mut ids: Vec<i32> = (0..100).collect();
    ids[99] = 0;
    assert_eq!(validate_batch(&ids), Err(ValidationError::Duplicate));
    assert_eq!(validate_batch(&vec![i32::MIN, i32::MAX, 0, -1]), Ok(()));
}

#[test]
fn oversized_batch_is_too_many_even_with_repeats() {
    assert_eq!(validate_batch(&vec![7; 101]), Err(ValidationError::TooMany));
}

#[test]
fn cook_time_is_that_of_the_first_row_with_the_id() {
    let rows = vec![ct(1, 10), ct(2, 20), ct(1, 30)];
    assert_eq!(find_cook_time(&rows, 1), Some(10));
    assert_eq!(find_cook_time(&rows, 2), Some(20));
    assert_eq!(find_cook_time(&rows, 3), None);
    assert_eq!(find_cook_time(&vec![], 1), None);
}

#[test]
fn lookup_resolves_whatever_the_order_of_its_rows() {
    let ids = vec![5, 6, 7];
    assert_eq!(resolve_menus(&ids, &vec![ct(7, 70), ct(5, 50), ct(6, 60)]), Some(vec![50, 60, 70]));
    assert_eq!(resolve_menus(&ids, &vec![ct(5, 50), ct(6, 60), ct(7, 70)]), Some(vec![50, 60, 70]));
}

#[test]
fn lookup_with_a_row_missing_does_not_resolve() {
    let ids = vec![5, 6, 7];
    assert_eq!(resolve_menus(&ids, &vec![ct(5, 50), ct(6, 60)]), None);
    assert_eq!(resolve_menus(&ids, &vec![ct(5, 50), ct(6, 60), ct(8, 80)]), None);
    assert_eq!(resolve_menus(&ids, &vec![ct(5, 50), ct(6, 60), ct(7, 70), ct(8, 80)]), None);
    assert_eq!(resolve_menus(&ids, &vec![]), None);
    assert_eq!(resolve_menus(&vec![], &vec![]), Some(vec![]));
}

#[test]
fn planned_orders_finish_after_their_own_cook_time() {
    let rows = plan_orders(4, &vec![5, 6], &vec![50, 60], 11, at(1_000)).unwrap();
    assert_eq!(
        rows,
        vec![
            NewOrder {
                restaurant_table_id: 4,
                menu_id: 5,
                checked_by_user_id: 11,
                expected_cook_finish_time: Timestamp { secs: 1_050, nanos: 9 },
            },
            NewOrder {
                restaurant_table_id: 4,
                menu_id: 6,
                checked_by_user_id: 11,
                expected_cook_finish_time: Timestamp { secs: 1_060, nanos: 9 },
            },
        ]
    );
}

#[test]
fn negative_cook_time_counts_backwards() {
    let rows = plan_orders(4, &vec![5], &vec![-30], 11, at(1_000)).unwrap();
    assert_eq!(rows[0].expected_cook_finish_time.secs, 970);
}

#[test]
fn orders_cannot_be_planned_beyond_the_last_instant() {
    assert_eq!(plan_orders(4, &vec![5, 6], &vec![0, 1], 11, at(i64::MAX)), None);
    assert_eq!(plan_orders(4, &vec![5], &vec![-1], 11, at(i64::MIN)), None);
    assert!(plan_orders(4, &vec![5], &vec![0], 11, at(i64::MAX)).is_some());
}

#[test]
fn orders_cannot_be_planned_without_a_time_for_each() {
    assert_eq!(plan_orders(4, &vec![5, 6], &vec![50], 11, at(0)), None);
    assert_eq!(plan_orders(4, &vec![5], &vec![50, 60], 11, at(0)), None);
}

#[test]
fn single_placement_walks_menu_user_table_insert() {
    let (p, c) = check_existence_and_insert_order(
        4,
        2,
        "alice",
        Progress::FindingMenus,
        Reply::Menus { rows: vec![ct(2, 600)] },
        at(0),
    );
    assert!(matches!(&c, Command::FindUser { name } if name == "alice"));
    let (p, c) =
        check_existence_and_insert_order(4, 2, "alice", p, Reply::User { id: Some(11) }, at(0));
    assert!(matches!(c, Command::FindTable { table_id: 4 }));
    let (p, c) =
        check_existence_and_insert_order(4, 2, "alice", p, Reply::Table { exists: true }, at(100));
    match c {
        Command::InsertOrders { rows } => assert_eq!(
            rows,
            vec![NewOrder {
                restaurant_table_id: 4,
                menu_id: 2,
                checked_by_user_id: 11,
                expected_cook_finish_time: Timestamp { secs: 700, nanos: 9 },
            }]
        ),
        other => panic!("unexpected {:?}", other),
    }
    let (p, c) = check_existence_and_insert_order(
        4,
        2,
        "alice",
        p,
        Reply::Inserted { order_ids: vec![42] },
        at(0),
    );
    assert!(matches!(c, Command::Commit));
    assert!(matches!(p, Progress::Committing { success: Success::Order(42) }));
}

#[test]
fn batch_placement_reports_the_number_of_rows() {
    let ids = vec![1, 2];
    let p = Progress::Inserting { rows: 2 };
    let (p, c) = check_existence_and_insert_orders(
        4,
        &ids,
        "alice",
        p,
        Reply::Inserted { order_ids: vec![8, 9] },
        at(0),
    );
    assert!(matches!(c, Command::Commit));
    assert!(matches!(p, Progress::Committing { success: Success::Rows(2) }));
}

#[test]
fn placement_gives_up_at_the_first_missing_reference() {
    let ids = vec![1, 2];
    let (p, c) = check_existence_and_insert_orders(
        4,
        &ids,
        "alice",
        Progress::FindingMenus,
        Reply::Menus { rows: vec![ct(1, 5)] },
        at(0),
    );
    assert!(matches!(c, Command::Rollback));
    assert!(matches!(p, Progress::Aborting { error: OrderError::NotFound(Missing::Menu) }));

    let (p, c) = check_existence_and_insert_orders(
        4,
        &ids,
        "alice",
        Progress::FindingUser { cook_times: vec![5, 6] },
        Reply::User { id: None },
        at(0),
    );
    assert!(matches!(c, Command::Rollback));
    assert!(matches!(p, Progress::Aborting { error: OrderError::NotFound(Missing::User) }));

    let (p, c) = check_existence_and_insert_orders(
        4,
        &ids,
        "alice",
        Progress::FindingTable { cook_times: vec![5, 6], user_id: 1 },
        Reply::Table { exists: false },
        at(0),
    );
    assert!(matches!(c, Command::Rollback));
    assert!(matches!(p, Progress::Aborting { error: OrderError::NotFound(Missing::Table) }));
}

#[test]
fn placement_takes_an_unexpected_answer_for_a_failure() {
    let ids = vec![1];
    let (_, c) = check_existence_and_insert_orders(
        4,
        &ids,
        "alice",
        Progress::FindingMenus,
        Reply::Done,
        at(0),
    );
    assert!(matches!(c, Command::Rollback));
    let (p, c) = check_existence_and_insert_orders(
        4,
        &ids,
        "alice",
        Progress::Inserting { rows: 1 },
        Reply::Affected { count: 1 },
        at(0),
    );
    assert!(matches!(c, Command::Rollback));
    assert!(matches!(p, Progress::Aborting { error: OrderError::Persistence }));
    let (p, c) = check_existence_and_insert_orders(
        4,
        &ids,
        "alice",
        Progress::Updating,
        Reply::Affected { count: 1 },
        at(0),
    );
    assert!(matches!(c, Command::Rollback));
    assert!(matches!(p, Progress::Aborting { error: OrderError::Persistence }));
}

#[test]
fn oversized_batch_is_given_up_at_every_step() {
    let ids: Vec<i32> = (1..=101).collect();
    let rows: Vec<CookTime> = ids.iter().map(|id| ct(*id, 1)).collect();
    let stages = vec![
        (Progress::FindingMenus, Reply::Menus { rows }),
        (Progress::FindingUser { cook_times: vec![1; 101] }, Reply::User { id: Some(1) }),
        (
            Progress::FindingTable { cook_times: vec![1; 101], user_id: 1 },
            Reply::Table { exists: true },
        ),
        (Progress::Inserting { rows: 101 }, Reply::Inserted { order_ids: (1..=101).collect() }),
    ];
    for (progress, reply) in stages {
        let (p, c) = check_existence_and_insert_orders(4, &ids, "alice", progress, reply, at(0));
        assert!(matches!(c, Command::Rollback));
        assert!(matches!(
            p,
            Progress::Aborting { error: OrderError::Validation(ValidationError::TooMany) }
        ));
    }
}

#[test]
fn empty_batch_is_given_up_as_a_fault_of_the_request() {
    let ids: Vec<i32> = vec![];
    let (p, c) = check_existence_and_insert_orders(
        4,
        &ids,
        "alice",
        Progress::FindingMenus,
        Reply::Menus { rows: vec![] },
        at(0),
    );
    assert!(matches!(c, Command::Rollback));
    assert!(matches!(
        p,
        Progress::Aborting { error: OrderError::Validation(ValidationError::Empty) }
    ));
    let (p, c) = check_existence_and_insert_orders(
        4,
        &ids,
        "alice",
        Progress::FindingTable { cook_times: vec![], user_id: 1 },
        Reply::Table { exists: true },
        at(0),
    );
    assert!(matches!(c, Command::Rollback));
    assert!(matches!(
        p,
        Progress::Aborting { error: OrderError::Validation(ValidationError::Empty) }
    ));
}

#[test]
fn batch_with_a_repeat_is_given_up_even_where_the_rows_would_match() {
    let ids = vec![1, 2, 1];
    let rows = vec![ct(1, 5), ct(2, 6), ct(1, 5)];
    let (p, c) = check_existence_and_insert_orders(
        4,
        &ids,
        "alice",
        Progress::FindingMenus,
        Reply::Menus { rows },
        at(0),
    );
    assert!(matches!(c, Command::Rollback));
    assert!(matches!(
        p,
        Progress::Aborting { error: OrderError::Validation(ValidationError::Duplicate) }
    ));
}

#[test]
fn batch_of_a_hundred_still_passes_the_step() {
    let ids: Vec<i32> = (1..=100).collect();
    let rows: Vec<CookTime> = ids.iter().rev().map(|id| ct(*id, *id)).collect();
    let (p, c) = check_existence_and_insert_orders(
        4,
        &ids,
        "alice",
        Progress::FindingMenus,
        Reply::Menus { rows },
        at(0),
    );
    assert!(matches!(c, Command::FindUser { .. }));
    assert!(matches!(p, Progress::FindingUser { cook_times } if cook_times == ids));
}
