use sys_menu::menu::{MenuResp, SysMenuTree};
use sys_menu::text::{same_text, starts_with, trimmed};
use sys_menu::tree::{get_menu_data, get_menu_tree, menu_tree_is_finite, menu_tree_of};

fn row(id: &str, pid: &str, path: &str, name: &str) -> MenuResp {
    MenuResp {
        id: id.to_string(),
        pid: pid.to_string(),
        path: path.to_string(),
        menu_name: name.to_string(),
        icon: format!("icon-{}", id),
        menu_type: "M".to_string(),
        query: None,
        order_sort: 1,
        status: "1".to_string(),
        api: format!("/api/{}", id),
        method: "GET".to_string(),
        component: format!("{}/index", path),
        visible: "1".to_string(),
        is_cache: "1".to_string(),
        is_frame: "0".to_string(),
        is_data_scope: "0".to_string(),
        remark: String::new(),
    }
}

fn ids(ts: &[SysMenuTree]) -> Vec<String> {
    ts.iter().map(|t| t.user_menu.id.clone()).collect()
}

#[test]
fn top_level_entry_gets_absolute_path_and_trimmed_parent() {
    let data = get_menu_data(vec![row("a", " 0 ", "system", "System")]);
    assert_eq!(data.len(), 1);
    let m = &data[0].user_menu;
    assert_eq!(m.pid, "0");
    assert_eq!(m.path, "/system");
    assert_eq!(m.name, "system");
    assert_eq!(m.always_show, Some(true));
    assert_eq!(m.meta.title, "System");
    assert_eq!(m.meta.icon, "icon-a");
    assert!(!m.meta.hidden);
    assert!(!m.meta.no_cache);
    assert_eq!(m.meta.link, None);
    assert!(!m.hidden);
    assert!(data[0].children.is_none());
}

#[test]
fn child_entry_keeps_relative_path() {
    let mut r = row("b", "a", "user", "User");
    r.is_cache = "0".to_string();
    r.visible = "0".to_string();
    let data = get_menu_data(vec![r]);
    let m = &data[0].user_menu;
    assert_eq!(m.path, "user");
    assert_eq!(m.always_show, None);
    assert!(m.meta.no_cache);
    assert!(m.meta.hidden);
    assert!(m.hidden);
}

#[test]
fn visible_code_other_than_zero_or_one() {
    let mut r = row("c", "a", "x", "X");
    r.visible = "2".to_string();
    let data = get_menu_data(vec![r]);
    let m = &data[0].user_menu;
    assert!(m.meta.hidden);
    assert!(!m.hidden);
}

#[test]
fn external_link_and_absolute_top_path() {
    let data = get_menu_data(vec![
        row("a", "0", "http://example.org", "Ext"),
        row("b", "0", "/abs", "Abs"),
    ]);
    assert_eq!(data[0].user_menu.meta.link, Some("http://example.org".to_string()));
    assert_eq!(data[0].user_menu.path, "/http://example.org");
    assert_eq!(data[1].user_menu.meta.link, None);
    assert_eq!(data[1].user_menu.path, "/abs");
}

#[test]
fn parent_trimmed_of_unicode_space() {
    let data = get_menu_data(vec![row("a", "\u{3000}0\t\n", "p", "P")]);
    assert_eq!(data[0].user_menu.pid, "0");
    assert_eq!(data[0].user_menu.path, "/p");
}

#[test]
fn tree_nests_children_in_order() {
    let data = get_menu_data(vec![
        row("a", "0", "a", "A"),
        row("b", "a", "b", "B"),
        row("c", "0", "c", "C"),
        row("d", "a", "d", "D"),
        row("e", "b", "e", "E"),
    ]);
    let tree = get_menu_tree(data, "0".to_string());
    assert_eq!(ids(&tree), vec!["a", "c"]);
    let a_children = tree[0].children.as_ref().unwrap();
    assert_eq!(ids(a_children), vec!["b", "d"]);
    let b_children = a_children[0].children.as_ref().unwrap();
    assert_eq!(ids(b_children), vec!["e"]);
    assert!(b_children[0].children.as_ref().unwrap().is_empty());
    assert!(tree[1].children.as_ref().unwrap().is_empty());
}

#[test]
fn tree_under_inner_parent() {
    let data = get_menu_data(vec![row("a", "0", "a", "A"), row("b", "a", "b", "B")]);
    let tree = get_menu_tree(data, "a".to_string());
    assert_eq!(ids(&tree), vec!["b"]);
}

#[test]
fn tree_of_no_menus_is_empty() {
    let tree = get_menu_tree(Vec::new(), "0".to_string());
    assert!(tree.is_empty());
    let t = menu_tree_of(Vec::new()).unwrap();
    assert!(t.is_empty());
}

#[test]
fn circular_parents_are_not_a_finite_tree() {
    let data = get_menu_data(vec![
        row("a", "0", "a", "A"),
        row("b", "c", "b", "B"),
        row("c", "b", "c", "C"),
        row("d", "a", "d", "D"),
    ]);
    assert!(menu_tree_is_finite(&data, &"0".to_string()));
    assert!(!menu_tree_is_finite(&data, &"b".to_string()));
    let self_loop = get_menu_data(vec![row("a", "0", "a", "A"), row("x", "x", "x", "X")]);
    assert!(menu_tree_is_finite(&self_loop, &"0".to_string()));
    assert!(!menu_tree_is_finite(&self_loop, &"x".to_string()));
    let reachable_loop = get_menu_data(vec![row("a", "0", "a", "A"), row("a", "a", "b", "B")]);
    assert!(!menu_tree_is_finite(&reachable_loop, &"0".to_string()));
    assert!(menu_tree_of(vec![row("a", "0", "a", "A"), row("a", "a", "b", "B")]).is_none());
}

#[test]
fn menu_tree_of_builds_from_top_level() {
    let t = menu_tree_of(vec![row("b", "a", "b", "B"), row("a", "0", "a", "A")]).unwrap();
    assert_eq!(ids(&t), vec!["a"]);
    assert_eq!(t[0].user_menu.path, "/a");
    assert_eq!(ids(t[0].children.as_ref().unwrap()), vec!["b"]);
}

#[test]
fn text_helpers() {
    assert_eq!(trimmed("  ab c \u{2003}"), "ab c");
    assert_eq!(trimmed(""), "");
    assert_eq!(trimmed(" \t "), "");
    assert!(starts_with("https://x", "http"));
    assert!(!starts_with("htt", "http"));
    assert!(starts_with("abc", ""));
    assert!(same_text(&"1".to_string(), "1"));
    assert!(!same_text(&"10".to_string(), "1"));
}

#[test]
fn trimming_twice_changes_nothing() {
    for x in ["  a b  ", "\u{3000}\u{85}x", "", "y\u{a0}", "plain"] {
        let once = trimmed(x);
        assert_eq!(trimmed(&once), once);
    }
}
