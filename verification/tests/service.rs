use chrono::NaiveDate;
use sys_menu::error::MenuError;
use sys_menu::menu::MenuResp;
use sys_menu::record::{record_from_add, record_from_edit, AddReq, EditReq, MenuRecord};
use sys_menu::service::{
    added_message, api_change, deleted_api, deleted_message, edited_message, found_menu, plan_add,
    plan_edit, role_menus, split_permissions,
};

fn s(x: &str) -> String {
    x.to_string()
}

fn stamp(h: u32) -> chrono::NaiveDateTime {
    NaiveDate::from_ymd_opt(2023, 5, 17).unwrap().and_hms_opt(h, 0, 0).unwrap()
}

fn add_req() -> AddReq {
    AddReq {
        pid: s("0"),
        path: None,
        menu_name: s("System"),
        icon: None,
        menu_type: s("M"),
        query: Some(s("a=b")),
        order_sort: 3,
        status: s("1"),
        api: s("/api/system"),
        method: None,
        component: Some(s("Layout")),
        visible: s("1"),
        is_cache: s("0"),
        is_frame: s("0"),
        is_data_scope: s("0"),
        remark: s("top"),
    }
}

fn edit_req() -> EditReq {
    EditReq {
        id: s("m1"),
        pid: s("p"),
        path: s("users"),
        menu_name: s("Users"),
        icon: None,
        menu_type: s("C"),
        query: None,
        order_sort: 5,
        status: s("0"),
        api: s("/api/users"),
        method: Some(s("GET")),
        component: s("users/index"),
        visible: s("0"),
        is_cache: s("1"),
        is_frame: s("1"),
        is_data_scope: s("1"),
        remark: s("changed"),
    }
}

fn record(id: &str, api: &str) -> MenuRecord {
    MenuRecord {
        id: s(id),
        pid: s("0"),
        path: s("old"),
        menu_name: s("Old"),
        icon: s("i"),
        menu_type: s("M"),
        query: None,
        order_sort: 1,
        status: s("1"),
        api: s(api),
        method: s("POST"),
        component: s("c"),
        visible: s("1"),
        is_cache: s("0"),
        is_frame: s("0"),
        is_data_scope: s("0"),
        remark: s(""),
        created_at: Some(stamp(1)),
        updated_at: None,
        deleted_at: Some(stamp(2)),
    }
}

fn resp(id: &str, api: &str) -> MenuResp {
    MenuResp {
        id: s(id),
        pid: s("0"),
        path: s(id),
        menu_name: s(id),
        icon: s(""),
        menu_type: s("C"),
        query: None,
        order_sort: 0,
        status: s("1"),
        api: s(api),
        method: s("GET"),
        component: s(""),
        visible: s("1"),
        is_cache: s("0"),
        is_frame: s("0"),
        is_data_scope: s("0"),
        remark: s(""),
    }
}

#[test]
fn add_refused_when_route_taken() {
    assert_eq!(plan_add(&add_req(), true).unwrap_err(), MenuError::DuplicateRoute);
}

#[test]
fn add_builds_record_with_fresh_id() {
    let rec = plan_add(&add_req(), false).unwrap();
    assert_eq!(rec.id.len(), 25);
    assert!(rec.id.chars().all(|c| c.is_ascii_digit() || c.is_ascii_lowercase()));
    assert!(rec.created_at.is_some());
    assert_eq!(rec.updated_at, None);
    assert_eq!(rec.path, "");
    assert_eq!(rec.icon, "");
    assert_eq!(rec.method, "");
    assert_eq!(rec.component, "Layout");
    assert_eq!(rec.query, Some(s("a=b")));
    assert_eq!(rec.remark, "top");
    let other = plan_add(&add_req(), false).unwrap();
    assert_ne!(rec.id, other.id);
}

#[test]
fn record_from_add_maps_fields() {
    let rec = record_from_add(&add_req(), s("id1"), stamp(9));
    assert_eq!(rec.id, "id1");
    assert_eq!(rec.pid, "0");
    assert_eq!(rec.menu_name, "System");
    assert_eq!(rec.order_sort, 3);
    assert_eq!(rec.api, "/api/system");
    assert_eq!(rec.created_at, Some(stamp(9)));
    assert_eq!(rec.deleted_at, None);
}

#[test]
fn messages() {
    assert_eq!(added_message(&s("abc")), "abc 添加成功");
    assert_eq!(edited_message(&s("abc")), "abc 修改成功");
    assert_eq!(deleted_message(), "菜单删除成功");
    assert_eq!(MenuError::DuplicateRoute.message(), "路径或者名称重复");
    assert_eq!(MenuError::MenuMissing.message(), "菜单不存在");
    assert_eq!(MenuError::BadRequest.message(), "请求参数错误");
    assert_eq!(MenuError::NotFound.message(), "数据不存在");
}

#[test]
fn edit_refusals() {
    assert_eq!(
        plan_edit(&edit_req(), true, Some(record("m1", "/a"))).unwrap_err(),
        MenuError::DuplicateRoute
    );
    assert_eq!(plan_edit(&edit_req(), true, None).unwrap_err(), MenuError::DuplicateRoute);
    assert_eq!(plan_edit(&edit_req(), false, None).unwrap_err(), MenuError::MenuMissing);
}

#[test]
fn edit_keeps_stamps_and_takes_request_fields() {
    let rec = plan_edit(&edit_req(), false, Some(record("m1", "/a"))).unwrap();
    assert_eq!(rec.created_at, Some(stamp(1)));
    assert_eq!(rec.deleted_at, Some(stamp(2)));
    assert!(rec.updated_at.is_some());
    assert_eq!(rec.path, "users");
    assert_eq!(rec.icon, "");
    assert_eq!(rec.method, "GET");
    assert_eq!(rec.query, None);
    assert_eq!(rec.remark, "changed");
    let fixed = record_from_edit(&record("m1", "/a"), &edit_req(), stamp(5));
    assert_eq!(fixed.updated_at, Some(stamp(5)));
    assert_eq!(fixed.id, "m1");
    assert_eq!(fixed.order_sort, 5);
}

#[test]
fn api_change_only_when_api_differs() {
    assert_eq!(api_change(&record("m", "/a"), &record("m", "/a")), None);
    let mut after = record("m", "/b");
    after.method = s("PUT");
    after.menu_name = s("New");
    let c = api_change(&record("m", "/a"), &after).unwrap();
    assert_eq!(c.old_api, "/a");
    assert_eq!(c.old_method, "POST");
    assert_eq!(c.new_api, "/b");
    assert_eq!(c.new_method, "PUT");
    assert_eq!(c.new_menu_name, "New");
}

#[test]
fn deletion_drops_the_api_of_the_menu_found() {
    assert_eq!(deleted_api(&Some(record("m", "/x"))), Some(s("/x")));
    assert_eq!(deleted_api(&None), None);
}

#[test]
fn found_or_not_found() {
    assert_eq!(found_menu(None).unwrap_err(), MenuError::NotFound);
    assert_eq!(found_menu(Some(resp("a", "/a"))).unwrap(), resp("a", "/a"));
}

#[test]
fn permissions_in_row_order() {
    let (apis, ids) = split_permissions(&vec![record("m1", "/a"), record("m2", "/b")]);
    assert_eq!(apis, vec![s("/a"), s("/b")]);
    assert_eq!(ids, vec![s("m1"), s("m2")]);
    let (apis, ids) = split_permissions(&Vec::new());
    assert!(apis.is_empty() && ids.is_empty());
}

#[test]
fn role_menus_keep_permitted_routes_in_order() {
    let routes = vec![resp("a", "/a"), resp("b", "/b"), resp("c", "/c"), resp("d", "/a")];
    let kept = role_menus(&routes, &vec![s("/a"), s("/c")]);
    let ids: Vec<&str> = kept.iter().map(|m| m.id.as_str()).collect();
    assert_eq!(ids, vec!["a", "c", "d"]);
    assert!(role_menus(&routes, &Vec::new()).is_empty());
}
