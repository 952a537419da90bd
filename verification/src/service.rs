//! The decisions of the menu service between its reads and writes: what a
//! creation or change stores, what it answers, and which permissions and
//! menus a role's listing keeps.

use vstd::prelude::*;

use crate::error::MenuError;
use crate::menu::{copy_menu_resp, MenuResp};
use crate::outside::{is_scru128_text, local_now, new_menu_id};
use crate::record::{
    added_record, edited_record, record_from_add, record_from_edit, AddReq, EditReq, MenuRecord,
};

verus! {

/// Decides a creation (`add`) once the route check has run: refused with
/// `DuplicateRoute` when the path or name is taken; otherwise the record to
/// insert, under a fresh SCRU128 identifier and stamped with the local time.
pub fn plan_add(req: &AddReq, route_taken: bool) -> (r: Result<MenuRecord, MenuError>)
    ensures
        route_taken <==> r is Err,
        r matches Err(e) ==> e == MenuError::DuplicateRoute,
        r matches Ok(rec) ==> {
            &&& rec.created_at is Some
            &&& rec@ == added_record(*req, rec.id@, rec.created_at->0)
            &&& is_scru128_text(rec.id@)
        },
{
    if route_taken {
        return Err(MenuError::DuplicateRoute);
    }
    let id = new_menu_id();
    let now = local_now();
    Ok(record_from_add(req, id, now))
}

/// The answer to a creation: the new identifier followed by ` 添加成功`.
pub fn added_message(id: &String) -> (r: String)
    ensures
        r@ == id@ + " 添加成功"@,
{
    id.clone().concat(" 添加成功")
}

/// Decides a change (`edit`) once the route check and the lookup of the menu
/// have run: refused with `DuplicateRoute` when the path or name is taken,
/// else with `MenuMissing` when the menu was not found; otherwise the record
/// that the request makes of the stored one, stamped with the local time.
pub fn plan_edit(req: &EditReq, route_taken: bool, current: Option<MenuRecord>) -> (r: Result<
    MenuRecord,
    MenuError,
>)
    ensures
        route_taken ==> r == Err::<MenuRecord, MenuError>(MenuError::DuplicateRoute),
        !route_taken && current is None ==> r == Err::<MenuRecord, MenuError>(
            MenuError::MenuMissing,
        ),
        !route_taken && current is Some ==> (r matches Ok(rec) && rec.updated_at is Some && rec@
            == edited_record(current->0, *req, rec.updated_at->0)),
{
    if route_taken {
        return Err(MenuError::DuplicateRoute);
    }
    match current {
        Some(cur) => {
            let now = local_now();
            Ok(record_from_edit(&cur, req, now))
        },
        None => Err(MenuError::MenuMissing),
    }
}

/// The answer to a change: the identifier followed by ` 修改成功`.
pub fn edited_message(id: &String) -> (r: String)
    ensures
        r@ == id@ + " 修改成功"@,
{
    id.clone().concat(" 修改成功")
}

/// What a change of a menu's API does to the permission registry and to the
/// roles: drop the old API, register the new one under the menu's name, and
/// move the roles' grants from the old (API, method) to the new one.
#[derive(Debug, Clone, PartialEq)]
pub struct ApiChange {
    pub old_api: String,
    pub old_method: String,
    pub new_api: String,
    pub new_method: String,
    pub new_menu_name: String,
}

/// The API change that an update brings, from the record before it to the
/// record the store returned: none when the API is the same.
pub fn api_change(before: &MenuRecord, after: &MenuRecord) -> (r: Option<ApiChange>)
    ensures
        r is None <==> before.api@ == after.api@,
        r matches Some(c) ==> {
            &&& c.old_api@ == before.api@
            &&& c.old_method@ == before.method@
            &&& c.new_api@ == after.api@
            &&& c.new_method@ == after.method@
            &&& c.new_menu_name@ == after.menu_name@
        },
{
    if after.api == before.api {
        None
    } else {
        Some(
            ApiChange {
                old_api: before.api.clone(),
                old_method: before.method.clone(),
                new_api: after.api.clone(),
                new_method: after.method.clone(),
                new_menu_name: after.menu_name.clone(),
            },
        )
    }
}

/// The API to drop from the permission registry when a menu is deleted:
/// that of the menu found, if one was.
pub fn deleted_api(found: &Option<MenuRecord>) -> (r: Option<String>)
    ensures
        r is Some <==> found is Some,
        r matches Some(a) ==> a@ == found->0.api@,
{
    match found {
        Some(m) => Some(m.api.clone()),
        None => None,
    }
}

/// The answer to a deletion, whether or not the menu existed.
pub fn deleted_message() -> (r: String)
    ensures
        r@ == "菜单删除成功"@,
{
    String::from_str("菜单删除成功")
}

/// The answer to `get_by_id` once the lookup has run: the menu found, or
/// `NotFound`.
pub fn found_menu(found: Option<MenuResp>) -> (r: Result<MenuResp, MenuError>)
    ensures
        found is None ==> r == Err::<MenuResp, MenuError>(MenuError::NotFound),
        found matches Some(m) ==> r == Ok::<MenuResp, MenuError>(m),
{
    match found {
        Some(m) => Ok(m),
        None => Err(MenuError::NotFound),
    }
}

/// The permissions of a role's menus (`get_role_permissions`): the APIs and
/// the identifiers of the rows, each in the order of the rows.
pub fn split_permissions(rows: &Vec<MenuRecord>) -> (r: (Vec<String>, Vec<String>))
    ensures
        r.0.len() == rows.len(),
        r.1.len() == rows.len(),
        forall|i: int| 0 <= i < rows.len() ==> (#[trigger] r.0@[i])@ == rows@[i].api@,
        forall|i: int| 0 <= i < rows.len() ==> (#[trigger] r.1@[i])@ == rows@[i].id@,
{
    let mut apis: Vec<String> = Vec::new();
    let mut ids: Vec<String> = Vec::new();
    let mut i: usize = 0;
    while i < rows.len()
        invariant
            i <= rows.len(),
            apis.len() == i,
            ids.len() == i,
            forall|k: int| 0 <= k < i ==> (#[trigger] apis@[k])@ == rows@[k].api@,
            forall|k: int| 0 <= k < i ==> (#[trigger] ids@[k])@ == rows@[k].id@,
        decreases rows.len() - i,
    {
        apis.push(rows[i].api.clone());
        ids.push(rows[i].id.clone());
        i = i + 1;
    }
    (apis, ids)
}

/// `api` is one of `apis`.
pub open spec fn api_listed(apis: Seq<String>, api: Seq<char>) -> bool {
    exists|k: int| 0 <= k < apis.len() && apis[k]@ == api
}

/// The menus whose API is one of `apis`, in their order.
pub open spec fn menus_with_api(menus: Seq<MenuResp>, apis: Seq<String>) -> Seq<MenuResp>
    decreases menus.len(),
{
    if menus.len() == 0 {
        Seq::empty()
    } else {
        let rest = menus_with_api(menus.drop_last(), apis);
        if api_listed(apis, menus.last().api@) {
            rest.push(menus.last())
        } else {
            rest
        }
    }
}

/// Law: a role's menus are routes whose API the role is permitted, and
/// every route whose API the role is permitted is among them.
pub proof fn lemma_role_menus_exact(routes: Seq<MenuResp>, apis: Seq<String>)
    ensures
        forall|j: int|
            0 <= j < menus_with_api(routes, apis).len() ==> routes.contains(
                #[trigger] menus_with_api(routes, apis)[j],
            ) && api_listed(apis, menus_with_api(routes, apis)[j].api@),
        forall|i: int|
            0 <= i < routes.len() && api_listed(apis, #[trigger] routes[i].api@) ==> menus_with_api(
                routes,
                apis,
            ).contains(routes[i]),
    decreases routes.len(),
{
    if routes.len() > 0 {
        let init = routes.drop_last();
        lemma_role_menus_exact(init, apis);
        let rest = menus_with_api(init, apis);
        let kept = menus_with_api(routes, apis);
        assert forall|j: int| 0 <= j < kept.len() implies routes.contains(#[trigger] kept[j])
            && api_listed(apis, kept[j].api@) by {
            if j < rest.len() {
                assert(kept[j] == rest[j]);
                let k: int = choose|k: int| 0 <= k < init.len() && init[k] == rest[j];
                assert(routes[k] == init[k]);
            } else {
                assert(kept[j] == routes[routes.len() - 1]);
            }
        }
        assert forall|i: int|
            0 <= i < routes.len() && api_listed(apis, #[trigger] routes[i].api@) implies kept.contains(
            routes[i],
        ) by {
            if i < routes.len() - 1 {
                assert(init[i] == routes[i]);
                let k: int = choose|k: int| 0 <= k < rest.len() && rest[k] == init[i];
                assert(kept[k] == rest[k]);
            } else {
                assert(kept[kept.len() - 1] == routes[i]);
            }
        }
    }
}

/// Law: a role's menus are the routes filtered by membership of their API in
/// the granted list: in the order of the routes, each route kept once
/// however often its API is granted, and their count is the number of
/// routes whose API is granted.
pub proof fn lemma_role_menus_filter(routes: Seq<MenuResp>, apis: Seq<String>)
    ensures
        menus_with_api(routes, apis) == routes.filter(|m: MenuResp| api_listed(apis, m.api@)),
        menus_with_api(routes, apis).len() <= routes.len(),
    decreases routes.len(),
{
    reveal(Seq::filter);
    if routes.len() > 0 {
        lemma_role_menus_filter(routes.drop_last(), apis);
    }
}

/// Law: a change keeps the creation and deletion stamps of the stored menu
/// and stamps the update.
pub proof fn lemma_edit_keeps_stamps(current: MenuRecord, req: EditReq, now: chrono::NaiveDateTime)
    ensures
        edited_record(current, req, now).created_at == current.created_at,
        edited_record(current, req, now).deleted_at == current.deleted_at,
        edited_record(current, req, now).updated_at == Some(now),
{
}

/// Law: an API is granted exactly when it occurs among the granted APIs'
/// texts.
pub proof fn lemma_api_listed_is_membership(apis: Seq<String>, api: Seq<char>)
    ensures
        api_listed(apis, api) <==> apis.map_values(|s: String| s@).contains(api),
{
    let texts = apis.map_values(|s: String| s@);
    if api_listed(apis, api) {
        let k: int = choose|k: int| 0 <= k < apis.len() && apis[k]@ == api;
        assert(texts[k] == api);
    }
    if texts.contains(api) {
        let k: int = choose|k: int| 0 <= k < texts.len() && #[trigger] texts[k] == api;
        assert(apis[k]@ == api);
    }
}

/// Whether `api` is one of `apis`.
fn lists_api(apis: &Vec<String>, api: &String) -> (r: bool)
    ensures
        r == api_listed(apis@, api@),
{
    let mut k: usize = 0;
    while k < apis.len()
        invariant
            k <= apis.len(),
            forall|j: int| 0 <= j < k ==> apis@[j]@ != api@,
        decreases apis.len() - k,
    {
        if apis[k] == *api {
            return true;
        }
        k = k + 1;
    }
    false
}

/// The menus of a role (`get_admin_menu_by_role_ids`): the routes whose API
/// is among the role's permitted APIs, in their order.
pub fn role_menus(routes: &Vec<MenuResp>, apis: &Vec<String>) -> (r: Vec<MenuResp>)
    ensures
        r@ == menus_with_api(routes@, apis@),
        r@ == routes@.filter(|m: MenuResp| api_listed(apis@, m.api@)),
{
    proof {
        lemma_role_menus_filter(routes@, apis@);
    }
    let mut res: Vec<MenuResp> = Vec::new();
    let mut i: usize = 0;
    assert(routes@.take(0) =~= Seq::<MenuResp>::empty());
    while i < routes.len()
        invariant
            i <= routes.len(),
            res@ == menus_with_api(routes@.take(i as int), apis@),
        decreases routes.len() - i,
    {
        assert(routes@.take(i + 1).drop_last() =~= routes@.take(i as int));
        if lists_api(apis, &routes[i].api) {
            res.push(copy_menu_resp(&routes[i]));
        }
        i = i + 1;
    }
    assert(routes@.take(routes.len() as int) =~= routes@);
    res
}

} // verus!
