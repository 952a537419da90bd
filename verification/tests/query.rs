use sys_menu::error::MenuError;
use sys_menu::query::{
    add_route_queries, auth_list_query, by_id_query, edit_route_queries, menus_query, page_window,
    route_taken, sort_list_query, MenuFilter, PageParams, SearchReq,
};
use sys_menu::record::{AddReq, EditReq};

fn s(x: &str) -> String {
    x.to_string()
}

fn empty_search() -> SearchReq {
    SearchReq {
        id: None,
        pid: None,
        menu_name: None,
        menu_type: None,
        method: None,
        status: None,
        begin_time: None,
        end_time: None,
    }
}

fn add_req() -> AddReq {
    AddReq {
        pid: s("0"),
        path: Some(s("system")),
        menu_name: s("System"),
        icon: None,
        menu_type: s("M"),
        query: None,
        order_sort: 3,
        status: s("1"),
        api: s("/api/system"),
        method: None,
        component: None,
        visible: s("1"),
        is_cache: s("0"),
        is_frame: s("0"),
        is_data_scope: s("0"),
        remark: s(""),
    }
}

fn edit_req() -> EditReq {
    EditReq {
        id: s("m1"),
        pid: s("0"),
        path: s("system"),
        menu_name: s("System"),
        icon: Some(s("gear")),
        menu_type: s("C"),
        query: Some(s("q=1")),
        order_sort: 2,
        status: s("1"),
        api: s("/api/system/list"),
        method: Some(s("GET")),
        component: s("system/index"),
        visible: s("1"),
        is_cache: s("1"),
        is_frame: s("0"),
        is_data_scope: s("0"),
        remark: s("r"),
    }
}

#[test]
fn sort_list_without_criteria_has_no_filters() {
    let q = sort_list_query(&empty_search());
    assert!(q.filters.is_empty());
    assert!(q.by_order_sort);
}

#[test]
fn sort_list_filters_in_order_and_skips_empty_texts() {
    let mut req = empty_search();
    req.menu_name = Some(s("sys"));
    req.method = Some(s(""));
    req.status = Some(s("1"));
    req.menu_type = Some(s("M"));
    req.begin_time = Some(s("2022-01-01 00:00:00"));
    req.end_time = Some(s(""));
    let q = sort_list_query(&req);
    assert_eq!(
        q.filters,
        vec![
            MenuFilter::MenuNameContains(s("sys")),
            MenuFilter::StatusIs(s("1")),
            MenuFilter::MenuTypeIs(s("M")),
            MenuFilter::CreatedFrom(s("2022-01-01 00:00:00")),
            MenuFilter::CreatedUntil(s("")),
        ]
    );
}

#[test]
fn auth_list_is_buttons_and_ignores_menu_type() {
    let mut req = empty_search();
    req.menu_type = Some(s("M"));
    req.method = Some(s("POST"));
    let q = auth_list_query(&req);
    assert_eq!(
        q.filters,
        vec![MenuFilter::MenuTypeIs(s("F")), MenuFilter::MethodIs(s("POST"))]
    );
    assert!(q.by_order_sort);
}

#[test]
fn menus_and_routes() {
    let all = menus_query(false);
    assert_eq!(all.filters, vec![MenuFilter::NotDeleted, MenuFilter::StatusIs(s("1"))]);
    let routes = menus_query(true);
    assert_eq!(
        routes.filters,
        vec![
            MenuFilter::NotDeleted,
            MenuFilter::StatusIs(s("1")),
            MenuFilter::MenuTypeIsNot(s("F")),
        ]
    );
    assert!(routes.by_order_sort);
}

#[test]
fn edit_route_checks_leave_out_the_menu_itself() {
    let (by_path, by_name) = edit_route_queries(&edit_req());
    assert_eq!(
        by_path.filters,
        vec![
            MenuFilter::PathIs(Some(s("system"))),
            MenuFilter::PidIs(s("0")),
            MenuFilter::MenuTypeIsNot(s("F")),
            MenuFilter::IdIsNot(s("m1")),
        ]
    );
    assert_eq!(
        by_name.filters,
        vec![
            MenuFilter::MenuNameIs(s("System")),
            MenuFilter::MenuTypeIsNot(s("F")),
            MenuFilter::IdIsNot(s("m1")),
        ]
    );
    assert!(!by_path.by_order_sort && !by_name.by_order_sort);
}

#[test]
fn add_route_checks() {
    let mut req = add_req();
    req.path = None;
    let (by_path, by_name) = add_route_queries(&req);
    assert_eq!(
        by_path.filters,
        vec![
            MenuFilter::PathIs(None),
            MenuFilter::PidIs(s("0")),
            MenuFilter::MenuTypeIsNot(s("F")),
        ]
    );
    assert_eq!(by_name.filters, vec![MenuFilter::MenuNameIs(s("System"))]);
}

#[test]
fn route_taken_when_either_count_positive() {
    assert!(!route_taken(0, 0));
    assert!(route_taken(1, 0));
    assert!(route_taken(0, 7));
    assert!(route_taken(2, 3));
}

#[test]
fn by_id_needs_an_identifier() {
    assert_eq!(by_id_query(&empty_search()).unwrap_err(), MenuError::BadRequest);
    let mut req = empty_search();
    req.id = Some(s("m9"));
    let q = by_id_query(&req).unwrap();
    assert_eq!(q.filters, vec![MenuFilter::NotDeleted, MenuFilter::IdIs(s("m9"))]);
}

#[test]
fn page_defaults_and_index() {
    let w = page_window(&PageParams { page_num: None, page_size: None });
    assert_eq!(w.page_num, 1);
    assert_eq!(w.page_index, 0);
    assert_eq!(w.page_size, u32::MAX as u64);
    let w = page_window(&PageParams { page_num: Some(3), page_size: Some(20) });
    assert_eq!(w.page_num, 3);
    assert_eq!(w.page_index, 2);
    assert_eq!(w.page_size, 20);
}
