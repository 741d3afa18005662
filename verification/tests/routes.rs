use restaurant_pos::api_handler::{api_handler, api_scope, Method, Route};

#[test]
fn every_route_of_the_surface_resolves() {
    assert_eq!(api_scope(Method::Post, "/api/auth/login"), Route::Login);
    assert_eq!(api_scope(Method::Get, "/api/auth/current_user"), Route::CurrentUser);
    assert_eq!(api_scope(Method::Get, "/api/table"), Route::Tables);
    assert_eq!(
        api_scope(Method::Get, "/api/table/4/order"),
        Route::TableOrders { restaurant_table_id: 4 }
    );
    assert_eq!(api_scope(Method::Delete, "/api/table/order"), Route::ClearTable);
    assert_eq!(api_scope(Method::Get, "/api/order/17"), Route::Order { order_id: 17 });
    assert_eq!(api_scope(Method::Post, "/api/order"), Route::AddOrder);
    assert_eq!(api_scope(Method::Post, "/api/orders"), Route::AddOrders);
    assert_eq!(api_scope(Method::Delete, "/api/order"), Route::CancelOrder);
    assert_eq!(api_scope(Method::Delete, "/api/order/complete"), Route::CompleteOrder);
    assert_eq!(api_scope(Method::Get, "/api/menu"), Route::Menus);
    assert_eq!(api_scope(Method::Get, "/api/menu/3"), Route::Menu { menu_id: 3 });
}

#[test]
fn method_decides_between_routes_of_one_path() {
    assert_eq!(api_scope(Method::Get, "/api/order"), Route::NotFound);
    assert_eq!(api_scope(Method::Get, "/api/auth/login"), Route::NotFound);
    assert_eq!(api_scope(Method::Post, "/api/auth/current_user"), Route::NotFound);
    assert_eq!(api_scope(Method::Post, "/api/table"), Route::NotFound);
    assert_eq!(api_scope(Method::Other, "/api/table"), Route::NotFound);
    assert_eq!(api_scope(Method::Delete, "/api/menu"), Route::NotFound);
    assert_eq!(api_scope(Method::Delete, "/api/order/17"), Route::NotFound);
}

#[test]
fn unknown_paths_do_not_exist() {
    assert_eq!(api_scope(Method::Get, "/api"), Route::NotFound);
    assert_eq!(api_scope(Method::Get, "/api/"), Route::NotFound);
    assert_eq!(api_scope(Method::Get, "/api/table/"), Route::NotFound);
    assert_eq!(api_scope(Method::Get, "/api/tables"), Route::NotFound);
    assert_eq!(api_scope(Method::Get, "/api/menu/3/"), Route::NotFound);
    assert_eq!(api_scope(Method::Get, "/api/table/4/orders"), Route::NotFound);
    assert_eq!(api_scope(Method::Get, "/table/4/order"), Route::NotFound);
    assert_eq!(api_scope(Method::Get, ""), Route::NotFound);
}

#[test]
fn numbers_in_paths_are_32_bit_integers() {
    assert_eq!(api_scope(Method::Get, "/api/menu/0"), Route::Menu { menu_id: 0 });
    assert_eq!(api_scope(Method::Get, "/api/menu/007"), Route::Menu { menu_id: 7 });
    assert_eq!(api_scope(Method::Get, "/api/menu/+12"), Route::Menu { menu_id: 12 });
    assert_eq!(api_scope(Method::Get, "/api/menu/-12"), Route::Menu { menu_id: -12 });
    assert_eq!(
        api_scope(Method::Get, "/api/menu/2147483647"),
        Route::Menu { menu_id: i32::MAX }
    );
    assert_eq!(
        api_scope(Method::Get, "/api/menu/-2147483648"),
        Route::Menu { menu_id: i32::MIN }
    );
    assert_eq!(api_scope(Method::Get, "/api/menu/2147483648"), Route::NotFound);
    assert_eq!(api_scope(Method::Get, "/api/menu/-2147483649"), Route::NotFound);
    assert_eq!(
        api_scope(Method::Get, "/api/menu/00000000000000000000000000000000000000000005"),
        Route::Menu { menu_id: 5 }
    );
    assert_eq!(
        api_scope(Method::Get, "/api/menu/99999999999999999999999999999999999999999999"),
        Route::NotFound
    );
}

#[test]
fn what_is_no_number_is_no_route() {
    for path in [
        "/api/menu/abc",
        "/api/menu/1a",
        "/api/menu/-",
        "/api/menu/+",
        "/api/menu/--1",
        "/api/menu/1.0",
        "/api/menu/ 1",
        "/api/menu/\u{663}",
        "/api/order/complete",
        "/api/table//order",
        "/api/table/x/order",
        "/api/table/1/2/order",
    ] {
        assert_eq!(api_scope(Method::Get, path), Route::NotFound, "{}", path);
    }
}

#[test]
fn numbers_agree_with_the_standard_parser() {
    for text in ["1", "-1", "+1", "0", "-0", "12345", "2147483647", "2147483648", "", "x", "1 "] {
        let path = format!("/api/order/{}", text);
        let expected = match text.parse::<i32>() {
            Ok(order_id) => Route::Order { order_id },
            Err(_) => Route::NotFound,
        };
        assert_eq!(api_scope(Method::Get, &path), expected, "{:?}", text);
    }
}

#[test]
fn only_login_and_current_user_are_public() {
    let all = [
        Route::Login,
        Route::CurrentUser,
        Route::Tables,
        Route::TableOrders { restaurant_table_id: 1 },
        Route::ClearTable,
        Route::Order { order_id: 1 },
        Route::AddOrder,
        Route::AddOrders,
        Route::CancelOrder,
        Route::CompleteOrder,
        Route::Menus,
        Route::Menu { menu_id: 1 },
        Route::NotFound,
    ];
    let public: Vec<Route> = all.iter().copied().filter(|r| r.is_public()).collect();
    assert_eq!(public, vec![Route::Login, Route::CurrentUser]);
}

#[test]
fn unmatched_path_gets_the_does_not_exist_body() {
    assert_eq!(api_handler("/api/nothing"), "This API: '/api/nothing' does not exist.");
    assert_eq!(api_handler(""), "This API: '' does not exist.");
}
