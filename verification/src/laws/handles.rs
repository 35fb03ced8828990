//! Laws of allocating and freeing.

use vstd::prelude::*;

use crate::api::odbc_types::{SqlHandle, SqlInteger, SQL_DESC_ALLOC_AUTO, SQL_DESC_ALLOC_USER};
use crate::handles::dbc::{DbcStateView, DbcView};
use crate::handles::desc::{DescKind, DescView};
use crate::handles::stmt::{StmtStateView, StmtView};
use crate::handles::{HandleType, HandleView, Handles};

verus! {

/// A statement's four implicit descriptors are live, not null, and four.
pub proof fn law_implicit_descriptors_are_distinct(m: Handles, h: SqlHandle)
    requires
        crate::handles::lifecycle::well_formed(m),
        crate::handles::is_stmt(m, h),
    ensures
        ({
            let s = crate::handles::stmt_at(m, h);
            &&& s.ard != 0 && s.apd != 0 && s.ird != 0 && s.ipd != 0
            &&& s.ard != s.apd && s.ard != s.ird && s.ard != s.ipd
            &&& s.apd != s.ird && s.apd != s.ipd
            &&& s.ird != s.ipd
        }),
{
}

/// Freeing an explicit descriptor returns every statement that used it to its
/// own implicit descriptor, and leaves what every other reads.
pub proof fn law_freed_descriptor_is_used_by_none(
    m: Handles,
    desc: SqlHandle,
    h: SqlHandle,
    attribute: SqlInteger,
)
    requires
        crate::handles::lifecycle::well_formed(m),
        crate::handles::is_desc(m, desc),
        crate::handles::desc_at(m, desc).explicit(),
        crate::handles::is_stmt(m, h),
        crate::api::set_stmt_attr::is_app_desc(attribute),
    ensures
        ({
            let after = crate::handles::lifecycle::without_explicit(m, desc);
            let s = crate::handles::stmt_at(m, h);
            let read = crate::api::set_stmt_attr::attr_value(s, attribute);
            &&& !after.dom().contains(desc)
            &&& crate::handles::is_stmt(after, h)
            &&& crate::api::set_stmt_attr::attr_value(
                crate::handles::stmt_at(after, h),
                attribute,
            ) == if read == Some(desc) {
                Some(crate::api::set_stmt_attr::own_desc(s, attribute))
            } else {
                read
            }
        }),
{
}

/// Freeing a statement leaves every explicit descriptor, and every other
/// statement, as it is.
pub proof fn law_freed_statement_leaves_the_rest(m: Handles, h: SqlHandle, k: SqlHandle)
    requires
        crate::handles::lifecycle::well_formed(m),
        crate::handles::is_stmt(m, h),
        k != h,
        m.dom().contains(k),
        m[k] is Desc ==> crate::handles::desc_at(m, k).explicit(),
        m[k] !is Dbc,
    ensures
        ({
            let after = crate::handles::lifecycle::without_statement(m, h);
            after.dom().contains(k) && after[k] == m[k]
        }),
{
}

/// Freeing a statement frees its implicit descriptors with it.
pub proof fn law_freed_statement_frees_its_descriptors(m: Handles, h: SqlHandle)
    requires
        crate::handles::lifecycle::well_formed(m),
        crate::handles::is_stmt(m, h),
    ensures
        ({
            let after = crate::handles::lifecycle::without_statement(m, h);
            let s = crate::handles::stmt_at(m, h);
            &&& !after.dom().contains(h)
            &&& !after.dom().contains(s.ard)
            &&& !after.dom().contains(s.apd)
            &&& !after.dom().contains(s.ird)
            &&& !after.dom().contains(s.ipd)
        }),
{
}

/// A list without an element that it did not have, pushed and then left out.
proof fn lemma_pushed_then_left_out(list: Seq<SqlHandle>, h: SqlHandle)
    requires
        !list.contains(h),
    ensures
        crate::handles::lifecycle::without(list, h) == list,
        crate::handles::lifecycle::without(list.push(h), h) == list,
    decreases list.len(),
{
    reveal(Seq::filter);
    assert(list.push(h).drop_last() =~= list);
    if list.len() > 0 {
        lemma_pushed_then_left_out(list.drop_last(), h);
    }
}

/// Freeing an explicit descriptor right after allocating it undoes the
/// allocation.
pub proof fn law_free_desc_undoes_alloc_desc(m: Handles, dbc: SqlHandle, desc: SqlHandle)
    requires
        crate::handles::lifecycle::well_formed(m),
        crate::handles::is_dbc(m, dbc),
        crate::handles::is_fresh(m, desc),
    ensures
        crate::handles::lifecycle::without_explicit(
            crate::handles::lifecycle::with_explicit(m, dbc, desc),
            desc,
        ) == m,
{
    lemma_pushed_then_left_out(crate::handles::dbc_at(m, dbc).inner.descriptors, desc);
}

/// Freeing a statement right after allocating it undoes the allocation.
pub proof fn law_free_stmt_undoes_alloc_stmt(m: Handles, stmt: SqlHandle, s: StmtView)
    requires
        crate::handles::lifecycle::well_formed(m),
        crate::handles::is_dbc(m, s.parent_dbc),
        crate::handles::is_fresh(m, stmt),
        crate::handles::fresh_implicit(m, s),
        stmt != s.ard && stmt != s.apd && stmt != s.ird && stmt != s.ipd,
    ensures
        crate::handles::lifecycle::without_statement(
            crate::handles::lifecycle::with_statement(m, stmt, s),
            stmt,
        ) == m,
{
    lemma_pushed_then_left_out(crate::handles::dbc_at(m, s.parent_dbc).inner.statements, stmt);
}

/// Discarding a new statement that was given no handle undoes making it.
pub proof fn law_discard_undoes_new(m: Handles, s: StmtView)
    requires
        crate::handles::fresh_implicit(m, s),
    ensures
        crate::handles::without_implicit(crate::handles::with_implicit(m, s), s) == m,
{
}

/// No live object refers to one that is gone, or to one that it may not use. A
/// statement has a live connection, which lists it, four live descriptors, one
/// in each role, and in place of the first two, if at all, live explicit
/// descriptors of its connection. A descriptor has a live connection, and a
/// connection a live environment, live statements and live explicit descriptors
/// of its own, and a cursor on one of those statements at most.
pub proof fn law_no_object_refers_to_one_that_is_gone(m: Handles, h: SqlHandle)
    requires
        crate::handles::lifecycle::well_formed(m),
        m.dom().contains(h),
    ensures
        h != 0,
        match m[h] {
            HandleView::Env(_) => true,
            HandleView::Stmt(s) => {
                let live = |d: SqlHandle, kind: DescKind|
                    m.dom().contains(d) && m[d] is Desc && m[d]->Desc_0.kind == kind
                        && m[d]->Desc_0.parent_dbc == s.parent_dbc;
                &&& m.dom().contains(s.parent_dbc) && m[s.parent_dbc] is Dbc
                &&& m[s.parent_dbc]->Dbc_0.inner.statements.contains(h)
                &&& live(s.ard, DescKind::AppRow)
                &&& live(s.apd, DescKind::AppParam)
                &&& live(s.ird, DescKind::ImpRow)
                &&& live(s.ipd, DescKind::ImpParam)
                &&& s.inner.active_ard matches Some(d) ==> live(d, DescKind::Ad)
                &&& s.inner.active_apd matches Some(d) ==> live(d, DescKind::Ad)
            },
            HandleView::Desc(d) => {
                &&& m.dom().contains(d.parent_dbc) && m[d.parent_dbc] is Dbc
                &&& d.inner.header.alloc_type == d.alloc_type
                &&& d.inner.header.array_size >= 1
                &&& d.kind == DescKind::Ad <==> d.alloc_type == SQL_DESC_ALLOC_USER
                &&& d.kind == DescKind::Ad
                    ==> m[d.parent_dbc]->Dbc_0.inner.descriptors.contains(h)
            },
            HandleView::Dbc(d) => {
                &&& m.dom().contains(d.parent_env) && m[d.parent_env] is Env
                &&& forall|x: SqlHandle| #[trigger]
                    d.inner.statements.contains(x) ==> m.dom().contains(x) && m[x] is Stmt
                        && m[x]->Stmt_0.parent_dbc == h
                &&& forall|x: SqlHandle| #[trigger]
                    d.inner.descriptors.contains(x) ==> m.dom().contains(x) && m[x] is Desc
                        && m[x]->Desc_0.kind == DescKind::Ad && m[x]->Desc_0.parent_dbc == h
                &&& d.inner.active_stmt matches Some(x) ==> d.inner.statements.contains(x)
            },
        },
{
    let explicit_kind = |x: SqlHandle|
        m.dom().contains(x) && m[x] is Desc && m[x]->Desc_0.explicit() ==> m[x]->Desc_0.kind
            == DescKind::Ad;
    assert forall|x: SqlHandle| m.dom().contains(x) implies #[trigger] explicit_kind(x) by {
        assert(crate::handles::lifecycle::handle_wf(m, x));
    }
    assert(crate::handles::lifecycle::handle_wf(m, h));
    match m[h] {
        HandleView::Dbc(d) => {
            assert forall|x: SqlHandle| #[trigger] d.inner.descriptors.contains(x) implies m[x]
                is Desc && m[x]->Desc_0.kind == DescKind::Ad by {
                assert(explicit_kind(x));
            }
        },
        HandleView::Stmt(s) => {
            if let Some(d) = s.inner.active_ard {
                assert(explicit_kind(d));
            }
            if let Some(d) = s.inner.active_apd {
                assert(explicit_kind(d));
            }
        },
        _ => {},
    }
}

/// Allocating a statement adds it, four blank implicit descriptors of its
/// connection, one in each role, and its handle at the end of the connection's
/// list. Everything else stays.
pub proof fn law_what_a_new_statement_adds(m: Handles, h: SqlHandle, s: StmtView, k: SqlHandle)
    requires
        crate::handles::is_dbc(m, s.parent_dbc),
        crate::handles::is_fresh(m, h),
        crate::handles::fresh_implicit(m, s),
        h != s.ard && h != s.apd && h != s.ird && h != s.ipd,
    ensures
        ({
            let after = crate::handles::lifecycle::with_statement(m, h, s);
            let blank = |kind: DescKind|
                HandleView::Desc(DescView::fresh(kind, SQL_DESC_ALLOC_AUTO, s.parent_dbc));
            let before = m[s.parent_dbc]->Dbc_0;
            let dbc = after[s.parent_dbc]->Dbc_0;
            &&& after.dom().contains(k) <==> m.dom().contains(k) || k == h || k == s.ard || k
                == s.apd || k == s.ird || k == s.ipd
            &&& after[h] == HandleView::Stmt(s)
            &&& after[s.ard] == blank(DescKind::AppRow)
            &&& after[s.apd] == blank(DescKind::AppParam)
            &&& after[s.ird] == blank(DescKind::ImpRow)
            &&& after[s.ipd] == blank(DescKind::ImpParam)
            &&& after[s.parent_dbc] is Dbc
            &&& dbc == DbcView {
                inner: DbcStateView { statements: dbc.inner.statements, ..before.inner },
                ..before
            }
            &&& dbc.inner.statements == before.inner.statements.push(h)
            &&& m.dom().contains(k) && k != s.parent_dbc ==> after[k] == m[k]
        }),
{
}

/// A statement in blank is of the connection and has the descriptors that were
/// asked for.
pub proof fn law_a_blank_statement_is_as_asked(
    parent_dbc: SqlHandle,
    ard: SqlHandle,
    apd: SqlHandle,
    ird: SqlHandle,
    ipd: SqlHandle,
)
    ensures
        ({
            let s = StmtView::fresh(parent_dbc, ard, apd, ird, ipd);
            &&& s.object_type == HandleType::Stmt
            &&& s.parent_dbc == parent_dbc
            &&& s.ard == ard && s.apd == apd && s.ird == ird && s.ipd == ipd
            &&& s.inner == StmtStateView::fresh()
        }),
{
}

/// Allocating an explicit descriptor adds it, blank, and its handle at the end
/// of the connection's list. Everything else stays.
pub proof fn law_what_a_new_descriptor_adds(
    m: Handles,
    dbc: SqlHandle,
    h: SqlHandle,
    k: SqlHandle,
)
    requires
        crate::handles::is_dbc(m, dbc),
        crate::handles::is_fresh(m, h),
    ensures
        ({
            let after = crate::handles::lifecycle::with_explicit(m, dbc, h);
            let before = m[dbc]->Dbc_0;
            let connection = after[dbc]->Dbc_0;
            &&& after.dom().contains(k) <==> m.dom().contains(k) || k == h
            &&& after[h] == HandleView::Desc(
                DescView::fresh(DescKind::Ad, SQL_DESC_ALLOC_USER, dbc),
            )
            &&& after[dbc] is Dbc
            &&& connection == DbcView {
                inner: DbcStateView {
                    descriptors: connection.inner.descriptors,
                    ..before.inner
                },
                ..before
            }
            &&& connection.inner.descriptors == before.inner.descriptors.push(h)
            &&& m.dom().contains(k) && k != dbc ==> after[k] == m[k]
        }),
{
}

/// Taking a handle off a list takes off that handle, wherever it stands, and
/// keeps the others in their order.
pub proof fn law_off_a_list(first: Seq<SqlHandle>, x: SqlHandle, h: SqlHandle)
    ensures
        crate::handles::lifecycle::without(first.push(x), h) == if x == h {
            crate::handles::lifecycle::without(first, h)
        } else {
            crate::handles::lifecycle::without(first, h).push(x)
        },
        crate::handles::lifecycle::without(Seq::empty(), h) == Seq::<SqlHandle>::empty(),
{
    reveal(Seq::filter);
    assert(first.push(x).drop_last() =~= first);
}

/// Freeing an explicit descriptor takes its handle away, and off its
/// connection's list; a statement that used it as its ARD or its APD uses none
/// in that role, and is otherwise as it was. Everything else stays.
pub proof fn law_what_freeing_a_descriptor_changes(m: Handles, desc: SqlHandle, k: SqlHandle)
    requires
        crate::handles::is_desc(m, desc),
    ensures
        ({
            let after = crate::handles::lifecycle::without_explicit(m, desc);
            let dbc = m[desc]->Desc_0.parent_dbc;
            &&& after.dom().contains(k) <==> m.dom().contains(k) && k != desc
            &&& after.dom().contains(k) ==> match m[k] {
                HandleView::Stmt(s) => {
                    let t = after[k]->Stmt_0;
                    &&& after[k] is Stmt
                    &&& t == StmtView {
                        inner: StmtStateView {
                            active_ard: t.inner.active_ard,
                            active_apd: t.inner.active_apd,
                            ..s.inner
                        },
                        ..s
                    }
                    &&& t.inner.active_ard != Some(desc) && t.inner.active_apd != Some(desc)
                    &&& s.inner.active_ard != Some(desc) ==> t.inner.active_ard
                        == s.inner.active_ard
                    &&& s.inner.active_ard == Some(desc) ==> t.inner.active_ard is None
                    &&& s.inner.active_apd != Some(desc) ==> t.inner.active_apd
                        == s.inner.active_apd
                    &&& s.inner.active_apd == Some(desc) ==> t.inner.active_apd is None
                },
                HandleView::Dbc(d) => {
                    let e = after[k]->Dbc_0;
                    &&& after[k] is Dbc
                    &&& k != dbc ==> e == d
                    &&& e == DbcView {
                        inner: DbcStateView { descriptors: e.inner.descriptors, ..d.inner },
                        ..d
                    }
                    &&& k == dbc ==> e.inner.descriptors == crate::handles::lifecycle::without(
                        d.inner.descriptors,
                        desc,
                    )
                },
                _ => after[k] == m[k],
            }
        }),
{
}

/// Freeing a statement takes its handle and those of its implicit descriptors
/// away, and its handle off its connection's list; the connection has no cursor
/// open if it was this statement's. Everything else stays.
pub proof fn law_what_freeing_a_statement_changes(m: Handles, h: SqlHandle, k: SqlHandle)
    requires
        crate::handles::lifecycle::well_formed(m),
        crate::handles::is_stmt(m, h),
    ensures
        ({
            let after = crate::handles::lifecycle::without_statement(m, h);
            let s = m[h]->Stmt_0;
            let before = m[s.parent_dbc]->Dbc_0;
            let dbc = after[s.parent_dbc]->Dbc_0;
            &&& after.dom().contains(k) <==> m.dom().contains(k) && k != h && k != s.ard && k
                != s.apd && k != s.ird && k != s.ipd
            &&& after.dom().contains(k) && k != s.parent_dbc ==> after[k] == m[k]
            &&& after.dom().contains(s.parent_dbc) && after[s.parent_dbc] is Dbc
            &&& dbc == DbcView {
                inner: DbcStateView {
                    statements: dbc.inner.statements,
                    active_stmt: dbc.inner.active_stmt,
                    ..before.inner
                },
                ..before
            }
            &&& dbc.inner.statements == crate::handles::lifecycle::without(
                before.inner.statements,
                h,
            )
            &&& before.inner.active_stmt == Some(h) ==> dbc.inner.active_stmt is None
            &&& before.inner.active_stmt != Some(h) ==> dbc.inner.active_stmt
                == before.inner.active_stmt
        }),
{
}

/// Discarding a statement takes its four implicit descriptors away, and nothing
/// else.
pub proof fn law_what_discarding_a_statement_changes(m: Handles, s: StmtView, k: SqlHandle)
    ensures
        ({
            let after = crate::handles::without_implicit(m, s);
            &&& after.dom().contains(k) <==> m.dom().contains(k) && k != s.ard && k != s.apd && k
                != s.ird && k != s.ipd
            &&& after.dom().contains(k) ==> after[k] == m[k]
        }),
{
}

} // verus!
