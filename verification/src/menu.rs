//! The menu rows that the service reads and the entries of the menu tree
//! that it hands to the front end, with their views.

use vstd::prelude::*;

verus! {

/// A menu row as the service reads it for building menus.
#[derive(Debug, Clone, PartialEq)]
pub struct MenuResp {
    pub id: String,
    pub pid: String,
    pub path: String,
    pub menu_name: String,
    pub icon: String,
    pub menu_type: String,
    pub query: Option<String>,
    pub order_sort: i32,
    pub status: String,
    pub api: String,
    pub method: String,
    pub component: String,
    pub visible: String,
    pub is_cache: String,
    pub is_frame: String,
    pub is_data_scope: String,
    pub remark: String,
}

/// Display attributes of a menu entry.
#[derive(Debug, Clone, PartialEq)]
pub struct Meta {
    pub icon: String,
    pub title: String,
    pub hidden: bool,
    pub link: Option<String>,
    pub no_cache: bool,
}

/// A menu entry as the front end's router takes it.
#[derive(Debug, Clone, PartialEq)]
pub struct UserMenu {
    pub meta: Meta,
    pub id: String,
    pub pid: String,
    pub path: String,
    pub name: String,
    pub menu_name: String,
    pub menu_type: String,
    pub always_show: Option<bool>,
    pub component: String,
    pub hidden: bool,
}

/// A node of the menu tree: an entry and, once the tree is built, its children.
#[derive(Debug)]
pub struct SysMenuTree {
    pub user_menu: UserMenu,
    pub children: Option<Vec<SysMenuTree>>,
}

/// The value of a `Meta`, its strings taken as character sequences.
pub struct MetaView {
    pub icon: Seq<char>,
    pub title: Seq<char>,
    pub hidden: bool,
    pub link: Option<Seq<char>>,
    pub no_cache: bool,
}

/// The value of a `UserMenu`, its strings taken as character sequences.
pub struct UserMenuView {
    pub meta: MetaView,
    pub id: Seq<char>,
    pub pid: Seq<char>,
    pub path: Seq<char>,
    pub name: Seq<char>,
    pub menu_name: Seq<char>,
    pub menu_type: Seq<char>,
    pub always_show: Option<bool>,
    pub component: Seq<char>,
    pub hidden: bool,
}

impl View for Meta {
    type V = MetaView;

    open spec fn view(&self) -> MetaView {
        MetaView {
            icon: self.icon@,
            title: self.title@,
            hidden: self.hidden,
            link: self.link.deep_view(),
            no_cache: self.no_cache,
        }
    }
}

impl View for UserMenu {
    type V = UserMenuView;

    open spec fn view(&self) -> UserMenuView {
        UserMenuView {
            meta: self.meta@,
            id: self.id@,
            pid: self.pid@,
            path: self.path@,
            name: self.name@,
            menu_name: self.menu_name@,
            menu_type: self.menu_type@,
            always_show: self.always_show,
            component: self.component@,
            hidden: self.hidden,
        }
    }
}

/// A copy of an optional string.
pub fn copy_opt_string(s: &Option<String>) -> (r: Option<String>)
    ensures
        r == *s,
{
    match s {
        Some(x) => Some(x.clone()),
        None => None,
    }
}

/// A copy of a menu entry.
pub fn copy_user_menu(u: &UserMenu) -> (r: UserMenu)
    ensures
        r@ == u@,
{
    UserMenu {
        meta: Meta {
            icon: u.meta.icon.clone(),
            title: u.meta.title.clone(),
            hidden: u.meta.hidden,
            link: copy_opt_string(&u.meta.link),
            no_cache: u.meta.no_cache,
        },
        id: u.id.clone(),
        pid: u.pid.clone(),
        path: u.path.clone(),
        name: u.name.clone(),
        menu_name: u.menu_name.clone(),
        menu_type: u.menu_type.clone(),
        always_show: u.always_show,
        component: u.component.clone(),
        hidden: u.hidden,
    }
}

/// A copy of a menu row.
pub fn copy_menu_resp(m: &MenuResp) -> (r: MenuResp)
    ensures
        r == *m,
{
    MenuResp {
        id: m.id.clone(),
        pid: m.pid.clone(),
        path: m.path.clone(),
        menu_name: m.menu_name.clone(),
        icon: m.icon.clone(),
        menu_type: m.menu_type.clone(),
        query: copy_opt_string(&m.query),
        order_sort: m.order_sort,
        status: m.status.clone(),
        api: m.api.clone(),
        method: m.method.clone(),
        component: m.component.clone(),
        visible: m.visible.clone(),
        is_cache: m.is_cache.clone(),
        is_frame: m.is_frame.clone(),
        is_data_scope: m.is_data_scope.clone(),
        remark: m.remark.clone(),
    }
}

} // verus!
