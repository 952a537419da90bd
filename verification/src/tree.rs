//! Building the menu tree: menu rows become entries (`get_menu_data`), and
//! entries are nested under their parents (`get_menu_tree`).

use vstd::prelude::*;

use crate::menu::{copy_user_menu, MenuResp, Meta, MetaView, SysMenuTree, UserMenu, UserMenuView};
use crate::text::{has_prefix, lemma_trim_idempotent, same_text, starts_with, trim, trimmed};

verus! {

/// The entry that `get_menu_data` makes of one menu row.
pub open spec fn menu_entry(m: MenuResp) -> UserMenuView {
    let pid = trim(m.pid@);
    UserMenuView {
        meta: MetaView {
            icon: m.icon@,
            title: m.menu_name@,
            hidden: m.visible@ != "1"@,
            link: if has_prefix(m.path@, "http"@) {
                Some(m.path@)
            } else {
                None
            },
            no_cache: m.is_cache@ != "1"@,
        },
        id: m.id@,
        pid: pid,
        path: if !has_prefix(m.path@, "/"@) && pid == "0"@ {
            "/"@ + m.path@
        } else {
            m.path@
        },
        name: m.path@,
        menu_name: m.menu_name@,
        menu_type: m.menu_type@,
        always_show: if m.is_cache@ == "1"@ && pid == "0"@ {
            Some(true)
        } else {
            None
        },
        component: m.component@,
        hidden: m.visible@ == "0"@,
    }
}

/// The entries that `get_menu_data` makes of the menu rows, in order.
pub open spec fn menu_data(menus: Seq<MenuResp>) -> Seq<UserMenuView> {
    menus.map_values(|m: MenuResp| menu_entry(m))
}

/// The entries carried by tree nodes, in order.
pub open spec fn entries(nodes: Seq<SysMenuTree>) -> Seq<UserMenuView> {
    nodes.map_values(|t: SysMenuTree| t.user_menu@)
}

/// The entries whose parent is `pid`, in their order.
pub open spec fn children_of(es: Seq<UserMenuView>, pid: Seq<char>) -> Seq<UserMenuView>
    decreases es.len(),
{
    if es.len() == 0 {
        Seq::empty()
    } else {
        let rest = children_of(es.drop_last(), pid);
        if es.last().pid == pid {
            rest.push(es.last())
        } else {
            rest
        }
    }
}

/// Every chain of entries that starts under `pid`, each entry the parent of
/// the next, has fewer than `fuel` entries.
pub open spec fn depth_below(es: Seq<UserMenuView>, pid: Seq<char>, fuel: nat) -> bool
    decreases fuel,
{
    fuel > 0 && forall|i: int|
        0 <= i < es.len() && #[trigger] es[i].pid == pid ==> depth_below(
            es,
            es[i].id,
            (fuel - 1) as nat,
        )
}

/// The entries under `pid` form a finite tree: no chain of parent links
/// from `pid` comes back to an identifier it has passed. Every chain then has
/// at most one entry per element of `es`.
pub open spec fn menu_tree_finite(es: Seq<UserMenuView>, pid: Seq<char>) -> bool {
    depth_below(es, pid, es.len() + 1)
}

/// `ts` is the forest of the entries under `pid`, explored to `fuel` levels:
/// one node for each entry whose parent is `pid`, in order, carrying the
/// entry and, as its children, the forest under the entry's identifier.
pub open spec fn forest_under(
    ts: Seq<SysMenuTree>,
    es: Seq<UserMenuView>,
    pid: Seq<char>,
    fuel: nat,
) -> bool
    decreases fuel,
{
    let kids = children_of(es, pid);
    &&& fuel > 0
    &&& ts.len() == kids.len()
    &&& forall|j: int|
        0 <= j < ts.len() ==> {
            &&& (#[trigger] ts[j]).user_menu@ == kids[j]
            &&& ts[j].children is Some
            &&& forest_under(ts[j].children->0@, es, kids[j].id, (fuel - 1) as nat)
        }
}

/// `ts` is the menu tree of the entries `es` under `pid`.
pub open spec fn is_menu_forest(ts: Seq<SysMenuTree>, es: Seq<UserMenuView>, pid: Seq<char>) -> bool {
    forest_under(ts, es, pid, es.len() + 1)
}

/// `c` is a chain of entries under `pid`: indices of `es`, the first entry's
/// parent being `pid` and each next entry's parent the identifier of the one
/// before.
pub open spec fn is_chain(es: Seq<UserMenuView>, pid: Seq<char>, c: Seq<int>) -> bool {
    forall|k: int|
        0 <= k < c.len() ==> 0 <= #[trigger] c[k] < es.len() && es[c[k]].pid == (if k == 0 {
            pid
        } else {
            es[c[k - 1]].id
        })
}

/// The identifier that a chain ends at: that of its last entry, or `pid`.
pub open spec fn chain_end(es: Seq<UserMenuView>, pid: Seq<char>, c: Seq<int>) -> Seq<char> {
    if c.len() == 0 {
        pid
    } else {
        es[c.last()].id
    }
}

proof fn lemma_chain_from_shallow(es: Seq<UserMenuView>, pid: Seq<char>, f: nat) -> (c: Seq<int>)
    requires
        !depth_below(es, pid, f),
    ensures
        is_chain(es, pid, c),
        c.len() == f,
    decreases f,
{
    if f == 0 {
        Seq::empty()
    } else {
        let i: int = choose|i: int| 0 <= i < es.len() && #[trigger] es[i].pid == pid && !depth_below(es, es[i].id, (f - 1) as nat);
        let rest = lemma_chain_from_shallow(es, es[i].id, (f - 1) as nat);
        let c = seq![i] + rest;
        assert forall|k: int| 0 <= k < c.len() implies 0 <= #[trigger] c[k] < es.len() && es[c[k]].pid == (if k == 0 {
            pid
        } else {
            es[c[k - 1]].id
        }) by {
            if k > 0 {
                assert(c[k] == rest[k - 1]);
                if k > 1 {
                    assert(c[k - 1] == rest[k - 2]);
                }
            }
        }
        c
    }
}

proof fn lemma_chain_uses_depth(es: Seq<UserMenuView>, pid: Seq<char>, c: Seq<int>, f: nat)
    requires
        is_chain(es, pid, c),
        depth_below(es, pid, f),
    ensures
        f > c.len(),
        depth_below(es, chain_end(es, pid, c), (f - c.len()) as nat),
    decreases c.len(),
{
    if c.len() > 0 {
        let init = c.drop_last();
        assert forall|k: int| 0 <= k < init.len() implies 0 <= #[trigger] init[k] < es.len() && es[init[k]].pid == (if k == 0 {
            pid
        } else {
            es[init[k - 1]].id
        }) by {
            assert(init[k] == c[k]);
            if k > 0 {
                assert(init[k - 1] == c[k - 1]);
            }
        }
        lemma_chain_uses_depth(es, pid, init, f);
        let x: int = c.last();
        assert(c[c.len() - 1] == x);
        assert(es[x].pid == chain_end(es, pid, init)) by {
            if c.len() > 1 {
                assert(init.last() == c[c.len() - 2]);
            }
        }
        assert(depth_below(es, es[x].id, (f - init.len() - 1) as nat));
    }
}

proof fn lemma_cycle_unbounded(es: Seq<UserMenuView>, v: Seq<char>, d: Seq<int>, f: nat)
    requires
        d.len() > 0,
        is_chain(es, v, d),
        chain_end(es, v, d) == v,
    ensures
        !depth_below(es, v, f),
    decreases f,
{
    if depth_below(es, v, f) {
        lemma_chain_uses_depth(es, v, d, f);
        lemma_cycle_unbounded(es, v, d, (f - d.len()) as nat);
    }
}

/// Law: the nesting under `pid` ends at some depth only if it ends within as
/// many levels as there are entries, so `menu_tree_finite`, the condition
/// of `get_menu_tree`, holds whenever the nesting ends at all.
pub proof fn lemma_finite_depth_is_bounded(es: Seq<UserMenuView>, pid: Seq<char>, f: nat)
    requires
        depth_below(es, pid, f),
    ensures
        menu_tree_finite(es, pid),
{
    let n: nat = es.len();
    if !depth_below(es, pid, n + 1) {
        let c = lemma_chain_from_shallow(es, pid, n + 1);
        assert(!c.no_duplicates()) by {
            if c.no_duplicates() {
                c.unique_seq_to_set();
                vstd::set_lib::lemma_int_range(0, n as int);
                assert(c.to_set().subset_of(vstd::set_lib::set_int_range(0, n as int))) by {
                    assert forall|x: int| c.to_set().contains(x) implies vstd::set_lib::set_int_range(0, n as int).contains(x) by {
                        let k: int = choose|k: int| 0 <= k < c.len() && c[k] == x;
                        assert(0 <= c[k] < n);
                    }
                }
                vstd::set_lib::lemma_len_subset(c.to_set(), vstd::set_lib::set_int_range(0, n as int));
            }
        }
        let (a, b): (int, int) = choose|a: int, b: int| 0 <= a < c.len() && 0 <= b < c.len() && a != b && c[a] == c[b];
        let (a, b): (int, int) = if a < b { (a, b) } else { (b, a) };
        let v = es[c[a]].id;
        let d = c.subrange(a + 1, b + 1);
        assert forall|k: int| 0 <= k < d.len() implies 0 <= #[trigger] d[k] < es.len() && es[d[k]].pid == (if k == 0 {
            v
        } else {
            es[d[k - 1]].id
        }) by {
            assert(d[k] == c[a + 1 + k]);
            if k > 0 {
                assert(d[k - 1] == c[a + k]);
            }
        }
        assert(d.last() == c[b]);
        let head = c.take(a + 1);
        assert forall|k: int| 0 <= k < head.len() implies 0 <= #[trigger] head[k] < es.len() && es[head[k]].pid == (if k == 0 {
            pid
        } else {
            es[head[k - 1]].id
        }) by {
            assert(head[k] == c[k]);
            if k > 0 {
                assert(head[k - 1] == c[k - 1]);
            }
        }
        assert(head.last() == c[a]);
        lemma_chain_uses_depth(es, pid, head, f);
        lemma_cycle_unbounded(es, v, d, (f - head.len()) as nat);
    }
}

/// Law: the children of `pid` are the entries filtered by their parent being
/// `pid`, in order, each once.
pub proof fn lemma_children_of_filter(es: Seq<UserMenuView>, pid: Seq<char>)
    ensures
        children_of(es, pid) == es.filter(|e: UserMenuView| e.pid == pid),
    decreases es.len(),
{
    reveal(Seq::filter);
    if es.len() > 0 {
        lemma_children_of_filter(es.drop_last(), pid);
    }
}

proof fn lemma_children_of_step(es: Seq<UserMenuView>, pid: Seq<char>, i: int)
    requires
        0 <= i < es.len(),
    ensures
        children_of(es.take(i + 1), pid) == if es[i].pid == pid {
            children_of(es.take(i), pid).push(es[i])
        } else {
            children_of(es.take(i), pid)
        },
{
    assert(es.take(i + 1).drop_last() =~= es.take(i));
}

proof fn lemma_children_of_members(es: Seq<UserMenuView>, pid: Seq<char>)
    ensures
        forall|j: int|
            0 <= j < children_of(es, pid).len() ==> (#[trigger] children_of(es, pid)[j]).pid == pid
                && es.contains(children_of(es, pid)[j]),
        forall|i: int| 0 <= i < es.len() && #[trigger] es[i].pid == pid ==> children_of(es, pid).contains(es[i]),
    decreases es.len(),
{
    if es.len() > 0 {
        let init = es.drop_last();
        lemma_children_of_members(init, pid);
        let rest = children_of(init, pid);
        let kids = children_of(es, pid);
        assert forall|j: int| 0 <= j < kids.len() implies (#[trigger] kids[j]).pid == pid && es.contains(
            kids[j],
        ) by {
            if j < rest.len() {
                assert(kids[j] == rest[j]);
                let k: int = choose|k: int| 0 <= k < init.len() && init[k] == rest[j];
                assert(es[k] == init[k]);
            } else {
                assert(kids[j] == es[es.len() - 1]);
            }
        }
        assert forall|i: int| 0 <= i < es.len() && #[trigger] es[i].pid == pid implies kids.contains(es[i]) by {
            if i < es.len() - 1 {
                assert(init[i] == es[i]);
                let k: int = choose|k: int| 0 <= k < rest.len() && rest[k] == init[i];
                assert(kids[k] == rest[k]);
            } else {
                assert(kids[kids.len() - 1] == es[i]);
            }
        }
    }
}

/// Law: every node of the tree under `pid` carries an entry of `es` whose
/// parent is `pid`, and the children of each node carry entries whose parent
/// is that node's identifier.
pub proof fn lemma_menu_tree_parent_links(ts: Seq<SysMenuTree>, es: Seq<UserMenuView>, pid: Seq<char>)
    requires
        is_menu_forest(ts, es, pid),
    ensures
        forall|j: int|
            0 <= j < ts.len() ==> {
                &&& (#[trigger] ts[j]).user_menu.pid@ == pid
                &&& es.contains(ts[j].user_menu@)
                &&& ts[j].children is Some
                &&& forall|c: int|
                    0 <= c < ts[j].children->0@.len() ==> (#[trigger] ts[j].children->0@[c]).user_menu.pid@
                        == ts[j].user_menu.id@
            },
{
    lemma_children_of_members(es, pid);
    let kids = children_of(es, pid);
    assert forall|j: int| 0 <= j < ts.len() implies {
        &&& (#[trigger] ts[j]).user_menu.pid@ == pid
        &&& es.contains(ts[j].user_menu@)
        &&& ts[j].children is Some
        &&& forall|c: int|
            0 <= c < ts[j].children->0@.len() ==> (#[trigger] ts[j].children->0@[c]).user_menu.pid@
                == ts[j].user_menu.id@
    } by {
        assert(kids[j].pid == pid);
        assert(es.contains(kids[j]));
        let id = kids[j].id;
        let sub = ts[j].children->0@;
        lemma_children_of_members(es, id);
        assert(forest_under(sub, es, id, es.len() as nat));
        assert(sub.len() == children_of(es, id).len());
        assert forall|c: int| 0 <= c < sub.len() implies (#[trigger] sub[c]).user_menu.pid@ == ts[j].user_menu.id@ by {
            assert(sub[c].user_menu@ == children_of(es, id)[c]);
            assert(children_of(es, id)[c].pid == id);
        }
    }
}

/// Law: every entry of `es` whose parent is `pid` is carried by a node at
/// the top of the tree under `pid`, and there are as many such nodes as
/// such entries.
pub proof fn lemma_menu_tree_complete(ts: Seq<SysMenuTree>, es: Seq<UserMenuView>, pid: Seq<char>)
    requires
        is_menu_forest(ts, es, pid),
    ensures
        ts.len() == children_of(es, pid).len(),
        forall|i: int|
            0 <= i < es.len() && #[trigger] es[i].pid == pid ==> exists|j: int|
                0 <= j < ts.len() && ts[j].user_menu@ == es[i],
{
    lemma_children_of_members(es, pid);
    let kids = children_of(es, pid);
    assert forall|i: int| 0 <= i < es.len() && #[trigger] es[i].pid == pid implies exists|j: int|
        0 <= j < ts.len() && ts[j].user_menu@ == es[i] by {
        assert(kids.contains(es[i]));
        let j: int = choose|j: int| 0 <= j < kids.len() && kids[j] == es[i];
        assert(ts[j].user_menu@ == kids[j]);
    }
}

/// Law: the parent identifier of every entry that `get_menu_data` makes is
/// trimmed, so trimming it again changes nothing.
pub proof fn lemma_menu_entry_pid_trimmed(m: MenuResp)
    ensures
        trim(menu_entry(m).pid) == menu_entry(m).pid,
{
    lemma_trim_idempotent(m.pid@);
}

/// Law: what each field of the entry made of a row is. The entry keeps the
/// row's identifier, name, type, component and icon, takes the path as its
/// route name and the menu name as its title, and trims the parent. It is
/// shown always (`Some(true)`) exactly when the row is cached (`1`) and at the
/// top level (trimmed parent `0`), and otherwise carries no such mark. It is
/// hidden when the visibility code is `0`, its title hidden when the code is
/// not `1`, caching off when the cache code is not `1`, and it links out
/// exactly when the path starts with `http`. Its path is the row's path, with
/// `/` put in front only for a top-level row whose path lacks it.
pub proof fn lemma_menu_entry_fields(m: MenuResp)
    ensures
        ({
            let e = menu_entry(m);
            &&& e.id == m.id@
            &&& e.pid == trim(m.pid@)
            &&& e.name == m.path@
            &&& e.menu_name == m.menu_name@
            &&& e.menu_type == m.menu_type@
            &&& e.component == m.component@
            &&& e.meta.icon == m.icon@
            &&& e.meta.title == m.menu_name@
            &&& (e.always_show == Some(true) <==> (m.is_cache@ == "1"@ && e.pid == "0"@))
            &&& (e.always_show is None <==> !(m.is_cache@ == "1"@ && e.pid == "0"@))
            &&& (e.pid != "0"@ ==> e.always_show is None)
            &&& (e.hidden <==> m.visible@ == "0"@)
            &&& (e.meta.hidden <==> m.visible@ != "1"@)
            &&& (e.meta.no_cache <==> m.is_cache@ != "1"@)
            &&& (e.meta.link is Some <==> has_prefix(m.path@, "http"@))
            &&& (e.meta.link matches Some(l) ==> l == m.path@)
            &&& ((e.pid != "0"@ || has_prefix(m.path@, "/"@)) ==> e.path == m.path@)
            &&& ((e.pid == "0"@ && !has_prefix(m.path@, "/"@)) ==> e.path == "/"@ + m.path@)
        }),
{
}

/// Law: every top-level entry (parent `0`) that `get_menu_data` makes has a
/// path that starts with `/`.
pub proof fn lemma_top_level_path_absolute(m: MenuResp)
    requires
        menu_entry(m).pid == "0"@,
    ensures
        has_prefix(menu_entry(m).path, "/"@),
{
    reveal_strlit("/");
    if !has_prefix(m.path@, "/"@) {
        assert(("/"@ + m.path@).take(1) =~= "/"@);
    }
}

/// Makes the tree entry of one menu row.
fn menu_entry_of(m: &MenuResp) -> (r: SysMenuTree)
    ensures
        r.user_menu@ == menu_entry(*m),
        r.children is None,
{
    let pid: String = trimmed(m.pid.as_str());
    let is_root: bool = same_text(&pid, "0");
    let is_cache: bool = same_text(&m.is_cache, "1");
    let link: Option<String> = if starts_with(m.path.as_str(), "http") {
        Some(m.path.clone())
    } else {
        None
    };
    let path: String = if !starts_with(m.path.as_str(), "/") && is_root {
        String::from_str("/").concat(m.path.as_str())
    } else {
        m.path.clone()
    };
    let meta = Meta {
        icon: m.icon.clone(),
        title: m.menu_name.clone(),
        hidden: !same_text(&m.visible, "1"),
        link: link,
        no_cache: !is_cache,
    };
    let user_menu = UserMenu {
        meta: meta,
        id: m.id.clone(),
        pid: pid,
        path: path,
        name: m.path.clone(),
        menu_name: m.menu_name.clone(),
        menu_type: m.menu_type.clone(),
        always_show: if is_cache && is_root {
            Some(true)
        } else {
            None
        },
        component: m.component.clone(),
        hidden: same_text(&m.visible, "0"),
    };
    SysMenuTree { user_menu, children: None }
}

/// Turns menu rows into tree entries, one for each row and in the same
/// order, with no children yet: the parent identifier is trimmed, a
/// top-level path gets a leading `/`, and the display flags are read from the
/// `visible` and `is_cache` codes.
pub fn get_menu_data(menus: Vec<MenuResp>) -> (r: Vec<SysMenuTree>)
    ensures
        r.len() == menus.len(),
        forall|i: int|
            0 <= i < r.len() ==> (#[trigger] r[i]).user_menu@ == menu_entry(menus[i])
                && r[i].children is None,
{
    let mut res: Vec<SysMenuTree> = Vec::new();
    let mut i: usize = 0;
    while i < menus.len()
        invariant
            i <= menus.len(),
            res.len() == i,
            forall|k: int|
                0 <= k < i ==> (#[trigger] res[k]).user_menu@ == menu_entry(menus[k])
                    && res[k].children is None,
        decreases menus.len() - i,
    {
        let e = menu_entry_of(&menus[i]);
        res.push(e);
        i = i + 1;
    }
    res
}

/// The forest under `pid`, explored to `fuel` levels.
fn forest_of(menus: &Vec<SysMenuTree>, pid: &String, Ghost(fuel): Ghost<nat>) -> (r: Vec<SysMenuTree>)
    requires
        depth_below(entries(menus@), pid@, fuel),
    ensures
        forest_under(r@, entries(menus@), pid@, fuel),
    decreases fuel,
{
    let ghost es = entries(menus@);
    let mut res: Vec<SysMenuTree> = Vec::new();
    let mut i: usize = 0;
    assert(es.take(0) =~= Seq::<UserMenuView>::empty());
    while i < menus.len()
        invariant
            i <= menus.len(),
            es == entries(menus@),
            fuel > 0,
            depth_below(es, pid@, fuel),
            res@.len() == children_of(es.take(i as int), pid@).len(),
            forall|j: int|
                0 <= j < res@.len() ==> {
                    &&& (#[trigger] res@[j]).user_menu@ == children_of(es.take(i as int), pid@)[j]
                    &&& res@[j].children is Some
                    &&& forest_under(
                        res@[j].children->0@,
                        es,
                        children_of(es.take(i as int), pid@)[j].id,
                        (fuel - 1) as nat,
                    )
                },
        decreases menus.len() - i,
    {
        proof {
            lemma_children_of_step(es, pid@, i as int);
        }
        let m = &menus[i];
        assert(es[i as int] == m.user_menu@);
        if m.user_menu.pid == *pid {
            let sub = forest_of(menus, &m.user_menu.id, Ghost((fuel - 1) as nat));
            let node = SysMenuTree { user_menu: copy_user_menu(&m.user_menu), children: Some(sub) };
            res.push(node);
        }
        i = i + 1;
    }
    assert(es.take(menus.len() as int) =~= es);
    res
}

/// Nests the entries under `pid`: one node for each entry whose parent is
/// `pid`, in the order of `user_menus`, each carrying as its children the
/// tree under its own identifier. The entries under `pid` must form a
/// finite tree (`menu_tree_is_finite`); on parent links that run in a
/// circle the nesting would not end.
pub fn get_menu_tree(user_menus: Vec<SysMenuTree>, pid: String) -> (r: Vec<SysMenuTree>)
    requires
        menu_tree_finite(entries(user_menus@), pid@),
    ensures
        is_menu_forest(r@, entries(user_menus@), pid@),
{
    forest_of(&user_menus, &pid, Ghost((user_menus@.len() + 1) as nat))
}

/// Whether every chain of entries under `pid` has fewer than `fuel` entries.
fn depth_below_check(menus: &Vec<SysMenuTree>, pid: &String, fuel: u128) -> (r: bool)
    ensures
        r == depth_below(entries(menus@), pid@, fuel as nat),
    decreases fuel,
{
    let ghost es = entries(menus@);
    if fuel == 0 {
        return false;
    }
    let mut i: usize = 0;
    while i < menus.len()
        invariant
            i <= menus.len(),
            fuel > 0,
            es == entries(menus@),
            forall|k: int|
                0 <= k < i && #[trigger] es[k].pid == pid@ ==> depth_below(
                    es,
                    es[k].id,
                    (fuel - 1) as nat,
                ),
        decreases menus.len() - i,
    {
        let m = &menus[i];
        assert(es[i as int] == m.user_menu@);
        if m.user_menu.pid == *pid && !depth_below_check(menus, &m.user_menu.id, fuel - 1) {
            assert(es[i as int].pid == pid@);
            return false;
        }
        i = i + 1;
    }
    true
}

/// Whether the entries under `pid` form a finite tree, the condition on
/// which `get_menu_tree` returns.
pub fn menu_tree_is_finite(user_menus: &Vec<SysMenuTree>, pid: &String) -> (r: bool)
    ensures
        r == menu_tree_finite(entries(user_menus@), pid@),
{
    let n: u128 = user_menus.len() as u128;
    depth_below_check(user_menus, pid, n + 1)
}

/// The menu tree of menu rows, as the menu and route listings build it:
/// the rows become entries (`get_menu_data`) and are nested from the top
/// level, parent `0` (`get_menu_tree`). `None` where the entries do not form
/// a finite tree, on which the nesting would not end.
pub fn menu_tree_of(menus: Vec<MenuResp>) -> (r: Option<Vec<SysMenuTree>>)
    ensures
        r is Some <==> menu_tree_finite(menu_data(menus@), "0"@),
        r matches Some(t) ==> is_menu_forest(t@, menu_data(menus@), "0"@),
{
    let ghost rows = menus@;
    let data = get_menu_data(menus);
    assert(entries(data@) =~= menu_data(rows));
    let top = String::from_str("0");
    if menu_tree_is_finite(&data, &top) {
        Some(get_menu_tree(data, top))
    } else {
        None
    }
}

} // verus!
