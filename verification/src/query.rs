//! The queries that the menu service puts to the menu table, described as
//! plain values: the conditions a row must meet, and whether the rows come
//! ordered by their sort key. Paging parameters are resolved here too.

use vstd::prelude::*;

use crate::error::MenuError;
use crate::menu::copy_opt_string;
use crate::record::{AddReq, EditReq};

verus! {

/// Search criteria of the menu list.
#[derive(Debug, Clone, PartialEq)]
pub struct SearchReq {
    pub id: Option<String>,
    pub pid: Option<String>,
    pub menu_name: Option<String>,
    pub menu_type: Option<String>,
    pub method: Option<String>,
    pub status: Option<String>,
    pub begin_time: Option<String>,
    pub end_time: Option<String>,
}

/// Requested page of a list: its number, counted from 1, and its size.
#[derive(Debug, Clone, PartialEq)]
pub struct PageParams {
    pub page_num: Option<usize>,
    pub page_size: Option<usize>,
}

/// One page of a list, with the count of all matching rows and of pages.
#[derive(Debug, Clone, PartialEq)]
pub struct ListData<T> {
    pub list: Vec<T>,
    pub total: u64,
    pub total_pages: u64,
    pub page_num: usize,
}

/// A condition on a row of the menu table.
#[derive(Debug, Clone, PartialEq)]
pub enum MenuFilter {
    /// The menu name contains the text.
    MenuNameContains(String),
    /// The request method is the text.
    MethodIs(String),
    /// The status code is the text.
    StatusIs(String),
    /// The menu type is the text.
    MenuTypeIs(String),
    /// The menu type is not the text.
    MenuTypeIsNot(String),
    /// The row was created at or after the time.
    CreatedFrom(String),
    /// The row was created at or before the time.
    CreatedUntil(String),
    /// The identifier is the text.
    IdIs(String),
    /// The identifier is not the text.
    IdIsNot(String),
    /// The path equals the value (a missing value matches no row).
    PathIs(Option<String>),
    /// The parent identifier is the text.
    PidIs(String),
    /// The menu name is the text.
    MenuNameIs(String),
    /// The row has no deletion stamp.
    NotDeleted,
}

/// A query on the menu table: the rows that meet every filter, ordered by
/// their sort key when `by_order_sort` holds.
#[derive(Debug, Clone, PartialEq)]
pub struct MenuQuery {
    pub filters: Vec<MenuFilter>,
    pub by_order_sort: bool,
}

/// The value of a `MenuFilter`.
pub enum FilterView {
    MenuNameContains(Seq<char>),
    MethodIs(Seq<char>),
    StatusIs(Seq<char>),
    MenuTypeIs(Seq<char>),
    MenuTypeIsNot(Seq<char>),
    CreatedFrom(Seq<char>),
    CreatedUntil(Seq<char>),
    IdIs(Seq<char>),
    IdIsNot(Seq<char>),
    PathIs(Option<Seq<char>>),
    PidIs(Seq<char>),
    MenuNameIs(Seq<char>),
    NotDeleted,
}

impl View for MenuFilter {
    type V = FilterView;

    open spec fn view(&self) -> FilterView {
        match self {
            MenuFilter::MenuNameContains(s) => FilterView::MenuNameContains(s@),
            MenuFilter::MethodIs(s) => FilterView::MethodIs(s@),
            MenuFilter::StatusIs(s) => FilterView::StatusIs(s@),
            MenuFilter::MenuTypeIs(s) => FilterView::MenuTypeIs(s@),
            MenuFilter::MenuTypeIsNot(s) => FilterView::MenuTypeIsNot(s@),
            MenuFilter::CreatedFrom(s) => FilterView::CreatedFrom(s@),
            MenuFilter::CreatedUntil(s) => FilterView::CreatedUntil(s@),
            MenuFilter::IdIs(s) => FilterView::IdIs(s@),
            MenuFilter::IdIsNot(s) => FilterView::IdIsNot(s@),
            MenuFilter::PathIs(s) => FilterView::PathIs(s.deep_view()),
            MenuFilter::PidIs(s) => FilterView::PidIs(s@),
            MenuFilter::MenuNameIs(s) => FilterView::MenuNameIs(s@),
            MenuFilter::NotDeleted => FilterView::NotDeleted,
        }
    }
}

/// The filters of a query, as values.
pub open spec fn filters_of(q: MenuQuery) -> Seq<FilterView> {
    q.filters@.map_values(|f: MenuFilter| f@)
}

/// The text of an optional string when it is given and not empty.
pub open spec fn given_text(s: Option<String>) -> Option<Seq<char>> {
    match s {
        Some(t) => if t@.len() > 0 {
            Some(t@)
        } else {
            None
        },
        None => None,
    }
}

/// The one-element sequence of `f`, or the empty sequence.
pub open spec fn optional_filter(f: Option<FilterView>) -> Seq<FilterView> {
    match f {
        Some(x) => seq![x],
        None => Seq::empty(),
    }
}

/// The name filter of the menu list, where a name is given.
pub open spec fn name_part(req: SearchReq) -> Seq<FilterView> {
    optional_filter(
        match given_text(req.menu_name) {
            Some(t) => Some(FilterView::MenuNameContains(t)),
            None => None,
        },
    )
}

/// The method filter of the menu list, where a method is given.
pub open spec fn method_part(req: SearchReq) -> Seq<FilterView> {
    optional_filter(
        match given_text(req.method) {
            Some(t) => Some(FilterView::MethodIs(t)),
            None => None,
        },
    )
}

/// The status filter of the menu list, where a status is given.
pub open spec fn status_part(req: SearchReq) -> Seq<FilterView> {
    optional_filter(
        match given_text(req.status) {
            Some(t) => Some(FilterView::StatusIs(t)),
            None => None,
        },
    )
}

/// The menu-type filter of the menu list, where a type is given and asked for.
pub open spec fn type_part(req: SearchReq, with_type: bool) -> Seq<FilterView> {
    optional_filter(
        match given_text(req.menu_type) {
            Some(t) => if with_type {
                Some(FilterView::MenuTypeIs(t))
            } else {
                None
            },
            None => None,
        },
    )
}

/// The creation-time bounds of the menu list, where given.
pub open spec fn time_part(req: SearchReq) -> Seq<FilterView> {
    optional_filter(
        match req.begin_time {
            Some(t) => Some(FilterView::CreatedFrom(t@)),
            None => None,
        },
    ) + optional_filter(
        match req.end_time {
            Some(t) => Some(FilterView::CreatedUntil(t@)),
            None => None,
        },
    )
}

/// The filters of the menu list: name contains, method, status, and, when
/// `with_type` holds, menu type, each where given and not empty; then the
/// creation-time bounds, where given.
pub open spec fn search_filters(req: SearchReq, with_type: bool) -> Seq<FilterView> {
    name_part(req) + method_part(req) + status_part(req) + type_part(req, with_type) + time_part(req)
}

/// The menu type of button-level entries, which carry an API permission.
pub open spec fn button_type() -> Seq<char> {
    "F"@
}

/// The filters of the button (API permission) list: type `F`, then the
/// search filters other than the menu type.
pub open spec fn auth_filters(req: SearchReq) -> Seq<FilterView> {
    seq![FilterView::MenuTypeIs(button_type())] + search_filters(req, false)
}

/// The filters of the menu listing used to build menus: not deleted, status
/// `1`, and, for routes, of a type other than `F`.
pub open spec fn menus_filters(is_router: bool) -> Seq<FilterView> {
    let base = seq![FilterView::NotDeleted, FilterView::StatusIs("1"@)];
    if is_router {
        base.push(FilterView::MenuTypeIsNot(button_type()))
    } else {
        base
    }
}

/// The values of a vector of filters.
pub open spec fn filter_views(fs: Seq<MenuFilter>) -> Seq<FilterView> {
    fs.map_values(|f: MenuFilter| f@)
}

/// A copy of the text of an optional string, when it is given and not empty.
fn given_string(s: &Option<String>) -> (r: Option<String>)
    ensures
        r.deep_view() == given_text(*s),
{
    match s {
        Some(t) => if t.as_str().unicode_len() > 0 {
            Some(t.clone())
        } else {
            None
        },
        None => None,
    }
}

/// Appends `f` to `fs` where there is one.
fn push_filter(fs: &mut Vec<MenuFilter>, f: Option<MenuFilter>)
    ensures
        filter_views(final(fs)@) == filter_views(old(fs)@) + optional_filter(
            match f {
                Some(x) => Some(x@),
                None => None,
            },
        ),
{
    let ghost before = fs@;
    match f {
        Some(x) => {
            let ghost v = x@;
            fs.push(x);
            assert(filter_views(fs@) =~= filter_views(before).push(v));
        },
        None => {
            assert(filter_views(fs@) =~= filter_views(before) + Seq::<FilterView>::empty());
        },
    }
}

fn push_name(fs: &mut Vec<MenuFilter>, req: &SearchReq)
    ensures
        filter_views(final(fs)@) == filter_views(old(fs)@) + name_part(*req),
{
    let f = match given_string(&req.menu_name) {
        Some(t) => Some(MenuFilter::MenuNameContains(t)),
        None => None,
    };
    push_filter(fs, f);
}

fn push_method(fs: &mut Vec<MenuFilter>, req: &SearchReq)
    ensures
        filter_views(final(fs)@) == filter_views(old(fs)@) + method_part(*req),
{
    let f = match given_string(&req.method) {
        Some(t) => Some(MenuFilter::MethodIs(t)),
        None => None,
    };
    push_filter(fs, f);
}

fn push_status(fs: &mut Vec<MenuFilter>, req: &SearchReq)
    ensures
        filter_views(final(fs)@) == filter_views(old(fs)@) + status_part(*req),
{
    let f = match given_string(&req.status) {
        Some(t) => Some(MenuFilter::StatusIs(t)),
        None => None,
    };
    push_filter(fs, f);
}

fn push_type(fs: &mut Vec<MenuFilter>, req: &SearchReq, with_type: bool)
    ensures
        filter_views(final(fs)@) == filter_views(old(fs)@) + type_part(*req, with_type),
{
    let f = match given_string(&req.menu_type) {
        Some(t) => if with_type {
            Some(MenuFilter::MenuTypeIs(t))
        } else {
            None
        },
        None => None,
    };
    push_filter(fs, f);
}

fn push_times(fs: &mut Vec<MenuFilter>, req: &SearchReq)
    ensures
        filter_views(final(fs)@) == filter_views(old(fs)@) + time_part(*req),
{
    let ghost before = filter_views(fs@);
    let from = match &req.begin_time {
        Some(t) => Some(MenuFilter::CreatedFrom(t.clone())),
        None => None,
    };
    push_filter(fs, from);
    let until = match &req.end_time {
        Some(t) => Some(MenuFilter::CreatedUntil(t.clone())),
        None => None,
    };
    push_filter(fs, until);
    assert(filter_views(fs@) =~= before + time_part(*req));
}

/// Appends the filters of the menu list for `req`, with or without the menu type.
fn search_filter_vec(fs: &mut Vec<MenuFilter>, req: &SearchReq, with_type: bool)
    ensures
        filter_views(final(fs)@) == filter_views(old(fs)@) + search_filters(*req, with_type),
{
    let ghost before = filter_views(fs@);
    push_name(fs, req);
    push_method(fs, req);
    push_status(fs, req);
    push_type(fs, req, with_type);
    push_times(fs, req);
    assert(filter_views(fs@) =~= before + search_filters(*req, with_type));
}

/// The query of the menu list (`get_sort_list`): the search filters, the
/// rows ordered by their sort key.
pub fn sort_list_query(req: &SearchReq) -> (r: MenuQuery)
    ensures
        filter_views(r.filters@) == search_filters(*req, true),
        r.by_order_sort,
{
    let mut fs: Vec<MenuFilter> = Vec::new();
    assert(filter_views(fs@) =~= Seq::<FilterView>::empty());
    search_filter_vec(&mut fs, req, true);
    assert(filter_views(fs@) =~= search_filters(*req, true));
    MenuQuery { filters: fs, by_order_sort: true }
}

/// The query of the button list (`get_auth_list`): rows of type `F` that
/// meet the search filters other than the menu type, ordered by their sort key.
pub fn auth_list_query(req: &SearchReq) -> (r: MenuQuery)
    ensures
        filter_views(r.filters@) == auth_filters(*req),
        r.by_order_sort,
{
    let mut fs: Vec<MenuFilter> = Vec::new();
    fs.push(MenuFilter::MenuTypeIs(String::from_str("F")));
    assert(filter_views(fs@) =~= seq![FilterView::MenuTypeIs(button_type())]);
    search_filter_vec(&mut fs, req, false);
    MenuQuery { filters: fs, by_order_sort: true }
}

/// The query of the menus that menus and routes are built from
/// (`get_menus`): rows not deleted and of status `1`, and for routes
/// (`is_router`) not of type `F`, ordered by their sort key.
pub fn menus_query(is_router: bool) -> (r: MenuQuery)
    ensures
        filter_views(r.filters@) == menus_filters(is_router),
        r.by_order_sort,
{
    let mut fs: Vec<MenuFilter> = Vec::new();
    fs.push(MenuFilter::NotDeleted);
    fs.push(MenuFilter::StatusIs(String::from_str("1")));
    if is_router {
        fs.push(MenuFilter::MenuTypeIsNot(String::from_str("F")));
    }
    assert(filter_views(fs@) =~= menus_filters(is_router));
    MenuQuery { filters: fs, by_order_sort: true }
}

/// The filters of the path check when a menu is changed: rows with the same
/// path and parent, not of type `F`, other than the menu itself.
pub open spec fn edit_path_filters(req: EditReq) -> Seq<FilterView> {
    seq![
        FilterView::PathIs(Some(req.path@)),
        FilterView::PidIs(req.pid@),
        FilterView::MenuTypeIsNot(button_type()),
        FilterView::IdIsNot(req.id@),
    ]
}

/// The filters of the name check when a menu is changed: rows with the same
/// name, not of type `F`, other than the menu itself.
pub open spec fn edit_name_filters(req: EditReq) -> Seq<FilterView> {
    seq![
        FilterView::MenuNameIs(req.menu_name@),
        FilterView::MenuTypeIsNot(button_type()),
        FilterView::IdIsNot(req.id@),
    ]
}

/// The filters of the path check when a menu is created: rows with the same
/// path and parent, not of type `F`.
pub open spec fn add_path_filters(req: AddReq) -> Seq<FilterView> {
    seq![
        FilterView::PathIs(req.path.deep_view()),
        FilterView::PidIs(req.pid@),
        FilterView::MenuTypeIsNot(button_type()),
    ]
}

/// The filters of the name check when a menu is created: rows with the same name.
pub open spec fn add_name_filters(req: AddReq) -> Seq<FilterView> {
    seq![FilterView::MenuNameIs(req.menu_name@)]
}

/// The two counting queries of `check_router_is_exist_update`: by path and
/// parent, and by name, each leaving out buttons and the menu itself.
pub fn edit_route_queries(req: &EditReq) -> (r: (MenuQuery, MenuQuery))
    ensures
        filter_views(r.0.filters@) == edit_path_filters(*req),
        filter_views(r.1.filters@) == edit_name_filters(*req),
        !r.0.by_order_sort,
        !r.1.by_order_sort,
{
    let mut by_path: Vec<MenuFilter> = Vec::new();
    by_path.push(MenuFilter::PathIs(Some(req.path.clone())));
    by_path.push(MenuFilter::PidIs(req.pid.clone()));
    by_path.push(MenuFilter::MenuTypeIsNot(String::from_str("F")));
    by_path.push(MenuFilter::IdIsNot(req.id.clone()));
    let mut by_name: Vec<MenuFilter> = Vec::new();
    by_name.push(MenuFilter::MenuNameIs(req.menu_name.clone()));
    by_name.push(MenuFilter::MenuTypeIsNot(String::from_str("F")));
    by_name.push(MenuFilter::IdIsNot(req.id.clone()));
    assert(filter_views(by_path@) =~= edit_path_filters(*req));
    assert(filter_views(by_name@) =~= edit_name_filters(*req));
    (MenuQuery { filters: by_path, by_order_sort: false }, MenuQuery {
        filters: by_name,
        by_order_sort: false,
    })
}

/// The two counting queries of `check_router_is_exist_add`: by path and
/// parent leaving out buttons, and by name.
pub fn add_route_queries(req: &AddReq) -> (r: (MenuQuery, MenuQuery))
    ensures
        filter_views(r.0.filters@) == add_path_filters(*req),
        filter_views(r.1.filters@) == add_name_filters(*req),
        !r.0.by_order_sort,
        !r.1.by_order_sort,
{
    let mut by_path: Vec<MenuFilter> = Vec::new();
    by_path.push(MenuFilter::PathIs(copy_opt_string(&req.path)));
    by_path.push(MenuFilter::PidIs(req.pid.clone()));
    by_path.push(MenuFilter::MenuTypeIsNot(String::from_str("F")));
    let mut by_name: Vec<MenuFilter> = Vec::new();
    by_name.push(MenuFilter::MenuNameIs(req.menu_name.clone()));
    assert(filter_views(by_path@) =~= add_path_filters(*req));
    assert(filter_views(by_name@) =~= add_name_filters(*req));
    (MenuQuery { filters: by_path, by_order_sort: false }, MenuQuery {
        filters: by_name,
        by_order_sort: false,
    })
}

/// Whether a route is taken, given how many rows each check counted: it is
/// when either count is positive.
pub fn route_taken(count_by_path: u64, count_by_name: u64) -> (r: bool)
    ensures
        r == (count_by_path > 0 || count_by_name > 0),
{
    count_by_path > 0 || count_by_name > 0
}

/// The query of `get_by_id`: the row with the requested identifier that is
/// not deleted; refused with `BadRequest` when no identifier is given.
pub fn by_id_query(req: &SearchReq) -> (r: Result<MenuQuery, MenuError>)
    ensures
        req.id is None <==> r is Err,
        r matches Err(e) ==> e == MenuError::BadRequest,
        r matches Ok(q) ==> filter_views(q.filters@) == seq![
            FilterView::NotDeleted,
            FilterView::IdIs(req.id->0@),
        ] && !q.by_order_sort,
{
    match &req.id {
        Some(id) => {
            let mut fs: Vec<MenuFilter> = Vec::new();
            fs.push(MenuFilter::NotDeleted);
            fs.push(MenuFilter::IdIs(id.clone()));
            assert(filter_views(fs@) =~= seq![FilterView::NotDeleted, FilterView::IdIs(id@)]);
            Ok(MenuQuery { filters: fs, by_order_sort: false })
        },
        None => Err(MenuError::BadRequest),
    }
}

/// Law: the routes are the menus without the buttons: their listing has the
/// filters of the full listing and one more, leaving out type `F`.
pub proof fn lemma_routes_leave_out_buttons()
    ensures
        menus_filters(true) == menus_filters(false).push(FilterView::MenuTypeIsNot(button_type())),
        menus_filters(false) == seq![FilterView::NotDeleted, FilterView::StatusIs("1"@)],
{
}

/// Law: the button list is the menu list restricted to type `F`: its filters
/// are type `F` followed by those of the menu list for the same request with
/// no menu type, whatever menu type the request names.
pub proof fn lemma_auth_list_is_button_list(req: SearchReq)
    ensures
        auth_filters(req) == seq![FilterView::MenuTypeIs(button_type())] + search_filters(
            SearchReq { menu_type: None, ..req },
            true,
        ),
{
    let plain = SearchReq { menu_type: None, ..req };
    assert(type_part(plain, true) =~= type_part(req, false));
    assert(search_filters(plain, true) =~= search_filters(req, false));
}

/// Law: the route checks of a change leave the changed menu itself out of
/// both counts, and leave buttons out of both; those of a creation leave
/// buttons out of the path count only.
pub proof fn lemma_route_checks_scope(edit: EditReq, add: AddReq)
    ensures
        edit_path_filters(edit).contains(FilterView::IdIsNot(edit.id@)),
        edit_name_filters(edit).contains(FilterView::IdIsNot(edit.id@)),
        edit_path_filters(edit).contains(FilterView::MenuTypeIsNot(button_type())),
        edit_name_filters(edit).contains(FilterView::MenuTypeIsNot(button_type())),
        add_path_filters(add).contains(FilterView::MenuTypeIsNot(button_type())),
        !add_name_filters(add).contains(FilterView::MenuTypeIsNot(button_type())),
{
    assert(edit_path_filters(edit)[3] == FilterView::IdIsNot(edit.id@));
    assert(edit_name_filters(edit)[2] == FilterView::IdIsNot(edit.id@));
    assert(edit_path_filters(edit)[2] == FilterView::MenuTypeIsNot(button_type()));
    assert(edit_name_filters(edit)[1] == FilterView::MenuTypeIsNot(button_type()));
    assert(add_path_filters(add)[2] == FilterView::MenuTypeIsNot(button_type()));
}

/// Law: what each route check counts. A change counts the rows with the
/// requested path under the requested parent, and separately the rows with
/// the requested name; both leave out buttons (type `F`) and the changed
/// menu itself. A creation counts the rows with the requested path (none
/// when no path is given) under the requested parent, leaving out buttons,
/// and separately every row with the requested name.
pub proof fn lemma_route_checks_exact(edit: EditReq, add: AddReq)
    ensures
        edit_path_filters(edit) =~= seq![
            FilterView::PathIs(Some(edit.path@)),
            FilterView::PidIs(edit.pid@),
            FilterView::MenuTypeIsNot("F"@),
            FilterView::IdIsNot(edit.id@),
        ],
        edit_name_filters(edit) =~= seq![
            FilterView::MenuNameIs(edit.menu_name@),
            FilterView::MenuTypeIsNot("F"@),
            FilterView::IdIsNot(edit.id@),
        ],
        add_path_filters(add) =~= seq![
            FilterView::PathIs(
                match add.path {
                    Some(p) => Some(p@),
                    None => None,
                },
            ),
            FilterView::PidIs(add.pid@),
            FilterView::MenuTypeIsNot("F"@),
        ],
        add_name_filters(add) =~= seq![FilterView::MenuNameIs(add.menu_name@)],
{
}

proof fn lemma_concat_contains(a: Seq<FilterView>, b: Seq<FilterView>, x: FilterView)
    ensures
        (a + b).contains(x) <==> (a.contains(x) || b.contains(x)),
{
    if (a + b).contains(x) {
        let i: int = choose|i: int| 0 <= i < (a + b).len() && (a + b)[i] == x;
        if i >= a.len() {
            assert(b[i - a.len()] == x);
        }
    }
    if a.contains(x) {
        let i: int = choose|i: int| 0 <= i < a.len() && a[i] == x;
        assert((a + b)[i] == x);
    }
    if b.contains(x) {
        let i: int = choose|i: int| 0 <= i < b.len() && b[i] == x;
        assert((a + b)[a.len() + i] == x);
    }
}

proof fn lemma_optional_filter(o: Option<FilterView>, x: FilterView)
    ensures
        optional_filter(o).contains(x) <==> o == Some(x),
        optional_filter(o).len() == (if o is Some {
            1int
        } else {
            0int
        }),
        forall|i: int| 0 <= i < optional_filter(o).len() ==> Some(#[trigger] optional_filter(o)[i]) == o,
{
    if o is Some {
        assert(optional_filter(o)[0] == o->0);
    }
}

/// The number of search criteria a request gives that become filters:
/// name, method, status and (when asked for) type where given and not
/// empty, and each given creation-time bound.
pub open spec fn given_criteria(req: SearchReq, with_type: bool) -> int {
    (if req.menu_name is Some && req.menu_name->0@.len() > 0 { 1int } else { 0int })
        + (if req.method is Some && req.method->0@.len() > 0 { 1int } else { 0int })
        + (if req.status is Some && req.status->0@.len() > 0 { 1int } else { 0int })
        + (if with_type && req.menu_type is Some && req.menu_type->0@.len() > 0 { 1int } else { 0int })
        + (if req.begin_time is Some { 1int } else { 0int })
        + (if req.end_time is Some { 1int } else { 0int })
}

/// Law: the menu list filters by a criterion exactly when the request gives
/// it, a text criterion left empty adding no filter; each filter carries the
/// request's text; there is one filter per given criterion and no other; the
/// menu type counts only when asked for. A request that gives nothing, or
/// only empty texts, lists every menu.
pub proof fn lemma_search_filters_exact(req: SearchReq, with_type: bool)
    ensures
        forall|t: Seq<char>|
            #[trigger] search_filters(req, with_type).contains(FilterView::MenuNameContains(t)) <==> (
            req.menu_name is Some && req.menu_name->0@ == t && t.len() > 0),
        forall|t: Seq<char>|
            #[trigger] search_filters(req, with_type).contains(FilterView::MethodIs(t)) <==> (
            req.method is Some && req.method->0@ == t && t.len() > 0),
        forall|t: Seq<char>|
            #[trigger] search_filters(req, with_type).contains(FilterView::StatusIs(t)) <==> (
            req.status is Some && req.status->0@ == t && t.len() > 0),
        forall|t: Seq<char>|
            #[trigger] search_filters(req, with_type).contains(FilterView::MenuTypeIs(t)) <==> (
            with_type && req.menu_type is Some && req.menu_type->0@ == t && t.len() > 0),
        forall|t: Seq<char>|
            #[trigger] search_filters(req, with_type).contains(FilterView::CreatedFrom(t)) <==> (
            req.begin_time is Some && req.begin_time->0@ == t),
        forall|t: Seq<char>|
            #[trigger] search_filters(req, with_type).contains(FilterView::CreatedUntil(t)) <==> (
            req.end_time is Some && req.end_time->0@ == t),
        forall|i: int|
            0 <= i < search_filters(req, with_type).len() ==> {
                let f = #[trigger] search_filters(req, with_type)[i];
                f is MenuNameContains || f is MethodIs || f is StatusIs || f is MenuTypeIs
                    || f is CreatedFrom || f is CreatedUntil
            },
        search_filters(req, with_type).len() == given_criteria(req, with_type),
        given_criteria(req, with_type) == 0 ==> search_filters(req, with_type).len() == 0,
{
    let n = name_part(req);
    let m = method_part(req);
    let st = status_part(req);
    let ty = type_part(req, with_type);
    let tm = time_part(req);
    let from_o: Option<FilterView> = match req.begin_time {
        Some(t) => Some(FilterView::CreatedFrom(t@)),
        None => None,
    };
    let until_o: Option<FilterView> = match req.end_time {
        Some(t) => Some(FilterView::CreatedUntil(t@)),
        None => None,
    };
    let all = search_filters(req, with_type);
    assert(all == n + m + st + ty + tm);
    assert forall|x: FilterView| #[trigger] all.contains(x) <==> (n.contains(x) || m.contains(x)
        || st.contains(x) || ty.contains(x) || optional_filter(from_o).contains(x) || optional_filter(
        until_o,
    ).contains(x)) by {
        lemma_concat_contains(n + m + st + ty, tm, x);
        lemma_concat_contains(n + m + st, ty, x);
        lemma_concat_contains(n + m, st, x);
        lemma_concat_contains(n, m, x);
        lemma_concat_contains(optional_filter(from_o), optional_filter(until_o), x);
        lemma_optional_filter(
            match given_text(req.menu_name) {
                Some(t) => Some(FilterView::MenuNameContains(t)),
                None => None,
            },
            x,
        );
    }
    assert forall|x: FilterView| true implies {
        &&& (n.contains(x) <==> (match given_text(req.menu_name) {
            Some(t) => Some(FilterView::MenuNameContains(t)),
            None => None,
        }) == Some(x))
        &&& (m.contains(x) <==> (match given_text(req.method) {
            Some(t) => Some(FilterView::MethodIs(t)),
            None => None,
        }) == Some(x))
        &&& (st.contains(x) <==> (match given_text(req.status) {
            Some(t) => Some(FilterView::StatusIs(t)),
            None => None,
        }) == Some(x))
        &&& (ty.contains(x) <==> (match given_text(req.menu_type) {
            Some(t) => if with_type {
                Some(FilterView::MenuTypeIs(t))
            } else {
                None
            },
            None => None,
        }) == Some(x))
        &&& (optional_filter(from_o).contains(x) <==> from_o == Some(x))
        &&& (optional_filter(until_o).contains(x) <==> until_o == Some(x))
    } by {
        lemma_optional_filter(
            match given_text(req.menu_name) {
                Some(t) => Some(FilterView::MenuNameContains(t)),
                None => None,
            },
            x,
        );
        lemma_optional_filter(
            match given_text(req.method) {
                Some(t) => Some(FilterView::MethodIs(t)),
                None => None,
            },
            x,
        );
        lemma_optional_filter(
            match given_text(req.status) {
                Some(t) => Some(FilterView::StatusIs(t)),
                None => None,
            },
            x,
        );
        lemma_optional_filter(
            match given_text(req.menu_type) {
                Some(t) => if with_type {
                    Some(FilterView::MenuTypeIs(t))
                } else {
                    None
                },
                None => None,
            },
            x,
        );
        lemma_optional_filter(from_o, x);
        lemma_optional_filter(until_o, x);
    }
    assert forall|i: int| 0 <= i < all.len() implies {
        let f = #[trigger] all[i];
        f is MenuNameContains || f is MethodIs || f is StatusIs || f is MenuTypeIs || f is CreatedFrom
            || f is CreatedUntil
    } by {
        assert(all.contains(all[i]));
    }
}

/// The page that a list request asks for.
#[derive(Debug, Clone, PartialEq)]
pub struct PageWindow {
    /// The page number, counted from 1.
    pub page_num: usize,
    /// The number of rows per page.
    pub page_size: u64,
    /// The page number counted from 0, as the paginator takes it.
    pub page_index: u64,
}

/// The page size of a list when none is requested.
pub open spec fn default_page_size() -> u64 {
    0xffff_ffff
}

/// The page that `p` asks for: page 1 and the largest `u32` as page size
/// where none is given. A page number or page size of 0, or a page whose
/// first row lies beyond the `u64` range, makes the listing fail, so they
/// are left out.
pub fn page_window(p: &PageParams) -> (r: PageWindow)
    requires
        p.page_num != Some(0usize),
        p.page_size != Some(0usize),
        ({
            let num: int = match p.page_num {
                Some(n) => n as int,
                None => 1,
            };
            let size: int = match p.page_size {
                Some(s) => s as int,
                None => default_page_size() as int,
            };
            size * (num - 1) <= u64::MAX
        }),
    ensures
        r.page_num as int == match p.page_num {
            Some(n) => n as int,
            None => 1,
        },
        r.page_size as int == match p.page_size {
            Some(s) => s as int,
            None => default_page_size() as int,
        },
        r.page_index == r.page_num - 1,
        r.page_size > 0,
{
    let page_num: usize = match p.page_num {
        Some(n) => n,
        None => 1,
    };
    let page_size: u64 = match p.page_size {
        Some(s) => s as u64,
        None => 0xffff_ffff,
    };
    PageWindow { page_num, page_size, page_index: (page_num - 1) as u64 }
}

} // verus!
