//! Stored menu records and the requests that create and change them.

use vstd::prelude::*;

use chrono::NaiveDateTime;

use crate::menu::copy_opt_string;

verus! {

/// A row of the menu table.
#[derive(Debug, Clone, PartialEq)]
pub struct MenuRecord {
    pub id: String,
    pub pid: String,
    pub path: String,
    pub menu_name: String,
    pub icon: String,
    pub menu_type: String,
    pub query: Option<String>,
    pub order_sort: i32,
    pub status: String,
    pub api: String,
    pub method: String,
    pub component: String,
    pub visible: String,
    pub is_cache: String,
    pub is_frame: String,
    pub is_data_scope: String,
    pub remark: String,
    pub created_at: Option<NaiveDateTime>,
    pub updated_at: Option<NaiveDateTime>,
    pub deleted_at: Option<NaiveDateTime>,
}

/// A request to create a menu.
#[derive(Debug, Clone, PartialEq)]
pub struct AddReq {
    pub pid: String,
    pub path: Option<String>,
    pub menu_name: String,
    pub icon: Option<String>,
    pub menu_type: String,
    pub query: Option<String>,
    pub order_sort: i32,
    pub status: String,
    pub api: String,
    pub method: Option<String>,
    pub component: Option<String>,
    pub visible: String,
    pub is_cache: String,
    pub is_frame: String,
    pub is_data_scope: String,
    pub remark: String,
}

/// A request to change a menu.
#[derive(Debug, Clone, PartialEq)]
pub struct EditReq {
    pub id: String,
    pub pid: String,
    pub path: String,
    pub menu_name: String,
    pub icon: Option<String>,
    pub menu_type: String,
    pub query: Option<String>,
    pub order_sort: i32,
    pub status: String,
    pub api: String,
    pub method: Option<String>,
    pub component: String,
    pub visible: String,
    pub is_cache: String,
    pub is_frame: String,
    pub is_data_scope: String,
    pub remark: String,
}

/// The value of a `MenuRecord`, its strings taken as character sequences.
pub struct MenuRecordView {
    pub id: Seq<char>,
    pub pid: Seq<char>,
    pub path: Seq<char>,
    pub menu_name: Seq<char>,
    pub icon: Seq<char>,
    pub menu_type: Seq<char>,
    pub query: Option<Seq<char>>,
    pub order_sort: i32,
    pub status: Seq<char>,
    pub api: Seq<char>,
    pub method: Seq<char>,
    pub component: Seq<char>,
    pub visible: Seq<char>,
    pub is_cache: Seq<char>,
    pub is_frame: Seq<char>,
    pub is_data_scope: Seq<char>,
    pub remark: Seq<char>,
    pub created_at: Option<NaiveDateTime>,
    pub updated_at: Option<NaiveDateTime>,
    pub deleted_at: Option<NaiveDateTime>,
}

impl View for MenuRecord {
    type V = MenuRecordView;

    open spec fn view(&self) -> MenuRecordView {
        MenuRecordView {
            id: self.id@,
            pid: self.pid@,
            path: self.path@,
            menu_name: self.menu_name@,
            icon: self.icon@,
            menu_type: self.menu_type@,
            query: self.query.deep_view(),
            order_sort: self.order_sort,
            status: self.status@,
            api: self.api@,
            method: self.method@,
            component: self.component@,
            visible: self.visible@,
            is_cache: self.is_cache@,
            is_frame: self.is_frame@,
            is_data_scope: self.is_data_scope@,
            remark: self.remark@,
            created_at: self.created_at,
            updated_at: self.updated_at,
            deleted_at: self.deleted_at,
        }
    }
}

/// The text of an optional string, or the empty text where there is none.
pub open spec fn text_or_empty(s: Option<String>) -> Seq<char> {
    match s {
        Some(t) => t@,
        None => Seq::empty(),
    }
}

/// The record that a creation request gives, under identifier `id`, created
/// at `now`: absent optional texts become empty, and it has been neither
/// updated nor deleted.
pub open spec fn added_record(req: AddReq, id: Seq<char>, now: NaiveDateTime) -> MenuRecordView {
    MenuRecordView {
        id: id,
        pid: req.pid@,
        path: text_or_empty(req.path),
        menu_name: req.menu_name@,
        icon: text_or_empty(req.icon),
        menu_type: req.menu_type@,
        query: req.query.deep_view(),
        order_sort: req.order_sort,
        status: req.status@,
        api: req.api@,
        method: text_or_empty(req.method),
        component: text_or_empty(req.component),
        visible: req.visible@,
        is_cache: req.is_cache@,
        is_frame: req.is_frame@,
        is_data_scope: req.is_data_scope@,
        remark: req.remark@,
        created_at: Some(now),
        updated_at: None,
        deleted_at: None,
    }
}

/// The record that a change request makes of `current` at `now`: every field
/// that the request carries is taken from it (absent icon and method become
/// empty), the update stamp is `now`, and the creation and deletion stamps
/// stay those of `current`.
pub open spec fn edited_record(current: MenuRecord, req: EditReq, now: NaiveDateTime) -> MenuRecordView {
    MenuRecordView {
        id: req.id@,
        pid: req.pid@,
        path: req.path@,
        menu_name: req.menu_name@,
        icon: text_or_empty(req.icon),
        menu_type: req.menu_type@,
        query: req.query.deep_view(),
        order_sort: req.order_sort,
        status: req.status@,
        api: req.api@,
        method: text_or_empty(req.method),
        component: req.component@,
        visible: req.visible@,
        is_cache: req.is_cache@,
        is_frame: req.is_frame@,
        is_data_scope: req.is_data_scope@,
        remark: req.remark@,
        created_at: current.created_at,
        updated_at: Some(now),
        deleted_at: current.deleted_at,
    }
}

/// Law: the record a creation stores takes each field from the request
/// field of the same name, an absent path, icon, method or component being
/// stored as the empty text; its identifier and creation stamp are the given
/// ones, and it carries no update or deletion stamp.
pub proof fn lemma_added_record_fields(req: AddReq, id: Seq<char>, now: NaiveDateTime)
    ensures
        ({
            let r = added_record(req, id, now);
            &&& r.id == id
            &&& r.pid == req.pid@
            &&& r.menu_name == req.menu_name@
            &&& r.menu_type == req.menu_type@
            &&& r.query == req.query.deep_view()
            &&& r.order_sort == req.order_sort
            &&& r.status == req.status@
            &&& r.api == req.api@
            &&& r.visible == req.visible@
            &&& r.is_cache == req.is_cache@
            &&& r.is_frame == req.is_frame@
            &&& r.is_data_scope == req.is_data_scope@
            &&& r.remark == req.remark@
            &&& (req.path matches Some(p) ==> r.path == p@)
            &&& (req.path is None ==> r.path.len() == 0)
            &&& (req.icon matches Some(i) ==> r.icon == i@)
            &&& (req.icon is None ==> r.icon.len() == 0)
            &&& (req.method matches Some(x) ==> r.method == x@)
            &&& (req.method is None ==> r.method.len() == 0)
            &&& (req.component matches Some(c) ==> r.component == c@)
            &&& (req.component is None ==> r.component.len() == 0)
            &&& r.created_at == Some(now)
            &&& r.updated_at is None
            &&& r.deleted_at is None
        }),
{
}

/// Law: the record a change stores takes each field that the request
/// carries from the request, not from the stored row (an absent icon or
/// method being stored as the empty text); its update stamp is the given
/// time, and its creation and deletion stamps are those of the stored row.
pub proof fn lemma_edited_record_fields(current: MenuRecord, req: EditReq, now: NaiveDateTime)
    ensures
        ({
            let r = edited_record(current, req, now);
            &&& r.id == req.id@
            &&& r.pid == req.pid@
            &&& r.path == req.path@
            &&& r.menu_name == req.menu_name@
            &&& r.menu_type == req.menu_type@
            &&& r.query == req.query.deep_view()
            &&& r.order_sort == req.order_sort
            &&& r.status == req.status@
            &&& r.api == req.api@
            &&& r.component == req.component@
            &&& r.visible == req.visible@
            &&& r.is_cache == req.is_cache@
            &&& r.is_frame == req.is_frame@
            &&& r.is_data_scope == req.is_data_scope@
            &&& r.remark == req.remark@
            &&& (req.icon matches Some(i) ==> r.icon == i@)
            &&& (req.icon is None ==> r.icon.len() == 0)
            &&& (req.method matches Some(x) ==> r.method == x@)
            &&& (req.method is None ==> r.method.len() == 0)
            &&& r.created_at == current.created_at
            &&& r.deleted_at == current.deleted_at
            &&& r.updated_at == Some(now)
        }),
{
}

/// The text of an optional string, or a new empty string.
fn string_or_empty(s: &Option<String>) -> (r: String)
    ensures
        r@ == text_or_empty(*s),
{
    match s {
        Some(t) => t.clone(),
        None => String::new(),
    }
}

/// The record that `req` gives under identifier `id`, created at `now`.
pub fn record_from_add(req: &AddReq, id: String, now: NaiveDateTime) -> (r: MenuRecord)
    ensures
        r@ == added_record(*req, id@, now),
{
    MenuRecord {
        id: id,
        pid: req.pid.clone(),
        path: string_or_empty(&req.path),
        menu_name: req.menu_name.clone(),
        icon: string_or_empty(&req.icon),
        menu_type: req.menu_type.clone(),
        query: copy_opt_string(&req.query),
        order_sort: req.order_sort,
        status: req.status.clone(),
        api: req.api.clone(),
        method: string_or_empty(&req.method),
        component: string_or_empty(&req.component),
        visible: req.visible.clone(),
        is_cache: req.is_cache.clone(),
        is_frame: req.is_frame.clone(),
        is_data_scope: req.is_data_scope.clone(),
        remark: req.remark.clone(),
        created_at: Some(now),
        updated_at: None,
        deleted_at: None,
    }
}

/// The record that `req` makes of `current`, updated at `now`.
pub fn record_from_edit(current: &MenuRecord, req: &EditReq, now: NaiveDateTime) -> (r: MenuRecord)
    ensures
        r@ == edited_record(*current, *req, now),
{
    MenuRecord {
        id: req.id.clone(),
        pid: req.pid.clone(),
        path: req.path.clone(),
        menu_name: req.menu_name.clone(),
        icon: string_or_empty(&req.icon),
        menu_type: req.menu_type.clone(),
        query: copy_opt_string(&req.query),
        order_sort: req.order_sort,
        status: req.status.clone(),
        api: req.api.clone(),
        method: string_or_empty(&req.method),
        component: req.component.clone(),
        visible: req.visible.clone(),
        is_cache: req.is_cache.clone(),
        is_frame: req.is_frame.clone(),
        is_data_scope: req.is_data_scope.clone(),
        remark: req.remark.clone(),
        created_at: current.created_at,
        updated_at: Some(now),
        deleted_at: current.deleted_at,
    }
}

} // verus!
