//! Allocating and freeing handles, and what holds between the objects of a
//! [`HandleTable`] throughout.
//!
//! An environment has connections, a connection has statements and explicit
//! descriptors, and a statement has its four implicit descriptors. The
//! operations here keep that order, so that no live object refers to one that
//! is gone.

use vstd::prelude::*;

use std::sync::Arc;

use tokio::runtime::Runtime;

use super::dbc::{DbcHandle, DbcStateView, DbcView};
use super::desc::{DescHandle, DescKind, DescView};
use super::env::{EnvHandle, EnvView};
use super::stmt::{StmtHandle, StmtView};
use super::{HandleTable, HandleType, HandleView, Handles, Slot};
use crate::api::odbc_types::{
    SqlHandle, SqlReturn, SQL_DESC_ALLOC_AUTO, SQL_DESC_ALLOC_USER, SQL_INVALID_HANDLE,
    SQL_NULL_HANDLE, SQL_SUCCESS,
};

verus! {

/// Whether `d` is a live implicit descriptor in the given role, on the given
/// connection.
pub open spec fn implicit_in(m: Handles, d: SqlHandle, kind: DescKind, dbc: SqlHandle) -> bool {
    &&& super::is_desc(m, d)
    &&& super::desc_at(m, d).kind == kind
    &&& super::desc_at(m, d).alloc_type == SQL_DESC_ALLOC_AUTO
    &&& super::desc_at(m, d).parent_dbc == dbc
}

/// Whether `d` is a live explicit descriptor of the given connection.
pub open spec fn explicit_on(m: Handles, d: SqlHandle, dbc: SqlHandle) -> bool {
    &&& super::is_desc(m, d)
    &&& super::desc_at(m, d).explicit()
    &&& super::desc_at(m, d).parent_dbc == dbc
}

/// A statement is listed by a live connection, has its own four descriptors,
/// and uses, instead of its ARD and APD, live explicit descriptors of the same
/// connection only.
pub open spec fn stmt_wf(m: Handles, h: SqlHandle) -> bool {
    let s = super::stmt_at(m, h);
    &&& s.object_type == HandleType::Stmt
    &&& super::is_dbc(m, s.parent_dbc)
    &&& super::dbc_at(m, s.parent_dbc).inner.statements.contains(h)
    &&& implicit_in(m, s.ard, DescKind::AppRow, s.parent_dbc)
    &&& implicit_in(m, s.apd, DescKind::AppParam, s.parent_dbc)
    &&& implicit_in(m, s.ird, DescKind::ImpRow, s.parent_dbc)
    &&& implicit_in(m, s.ipd, DescKind::ImpParam, s.parent_dbc)
    &&& s.inner.active_ard matches Some(d) ==> explicit_on(m, d, s.parent_dbc)
    &&& s.inner.active_apd matches Some(d) ==> explicit_on(m, d, s.parent_dbc)
    &&& s.inner.wf()
}

/// Whether `h` is a live statement with the implicit descriptor `d`.
pub open spec fn owns(m: Handles, h: SqlHandle, d: SqlHandle) -> bool {
    let s = super::stmt_at(m, h);
    &&& super::is_stmt(m, h)
    &&& d == s.ard || d == s.apd || d == s.ird || d == s.ipd
}

/// A descriptor is on a live connection, which lists it if it is explicit; it
/// belongs to a live statement if it is not; its two allocation types agree
/// with each other and with its kind; and its rowset has at least one row.
pub open spec fn desc_wf(m: Handles, h: SqlHandle) -> bool {
    let d = super::desc_at(m, h);
    &&& d.object_type == HandleType::Desc
    &&& super::is_dbc(m, d.parent_dbc)
    &&& d.inner.header.alloc_type == d.alloc_type
    &&& d.inner.header.array_size > 0
    &&& d.alloc_type == SQL_DESC_ALLOC_AUTO || d.alloc_type == SQL_DESC_ALLOC_USER
    &&& d.explicit() <==> d.kind == DescKind::Ad
    &&& d.explicit() ==> super::dbc_at(m, d.parent_dbc).inner.descriptors.contains(h)
    &&& !d.explicit() ==> exists|x: SqlHandle| owns(m, x, h)
}

/// A connection is on a live environment, lists its statements and its
/// explicit descriptors once each, and has an open cursor on one of its own
/// statements only.
pub open spec fn dbc_wf(m: Handles, h: SqlHandle) -> bool {
    let d = super::dbc_at(m, h);
    &&& d.object_type == HandleType::Dbc
    &&& super::is_env(m, d.parent_env)
    &&& d.inner.wf()
    &&& d.inner.statements.no_duplicates()
    &&& d.inner.descriptors.no_duplicates()
    &&& forall|x: SqlHandle| #[trigger]
        d.inner.statements.contains(x) ==> super::is_stmt(m, x) && super::stmt_at(m, x).parent_dbc
            == h
    &&& forall|x: SqlHandle| #[trigger]
        d.inner.descriptors.contains(x) ==> explicit_on(m, x, h)
    &&& d.inner.active_stmt matches Some(x) ==> d.inner.statements.contains(x)
}

/// What holds of the object at `h`.
pub open spec fn handle_wf(m: Handles, h: SqlHandle) -> bool {
    match m[h] {
        HandleView::Env(e) => e.object_type == HandleType::Env,
        HandleView::Dbc(_) => dbc_wf(m, h),
        HandleView::Stmt(_) => stmt_wf(m, h),
        HandleView::Desc(_) => desc_wf(m, h),
    }
}

/// No two statements share an implicit descriptor.
pub open spec fn unshared(m: Handles) -> bool {
    forall|a: SqlHandle, b: SqlHandle|
        #![trigger m.dom().contains(a), m.dom().contains(b)]
        super::is_stmt(m, a) && super::is_stmt(m, b) && a != b ==> {
            &&& super::stmt_at(m, a).ard != super::stmt_at(m, b).ard
            &&& super::stmt_at(m, a).apd != super::stmt_at(m, b).apd
            &&& super::stmt_at(m, a).ird != super::stmt_at(m, b).ird
            &&& super::stmt_at(m, a).ipd != super::stmt_at(m, b).ipd
        }
}

/// The invariant of a table: the null handle is not live, every object is in
/// order, and implicit descriptors have one owner.
pub open spec fn well_formed(m: Handles) -> bool {
    &&& !m.dom().contains(0)
    &&& forall|h: SqlHandle| #[trigger] m.dom().contains(h) ==> handle_wf(m, h)
    &&& unshared(m)
}

/// `m` with a new statement `s` at `h`, its implicit descriptors, and its
/// entry in the connection's list.
pub open spec fn with_statement(m: Handles, h: SqlHandle, s: StmtView) -> Handles {
    let d = super::dbc_at(m, s.parent_dbc);
    super::with_implicit(m, s).insert(h, HandleView::Stmt(s)).insert(
        s.parent_dbc,
        HandleView::Dbc(
            DbcView {
                inner: DbcStateView { statements: d.inner.statements.push(h), ..d.inner },
                ..d
            },
        ),
    )
}

/// `m` with a new explicit descriptor at `h`, and its entry in the
/// connection's list.
pub open spec fn with_explicit(m: Handles, dbc: SqlHandle, h: SqlHandle) -> Handles {
    let d = super::dbc_at(m, dbc);
    m.insert(
        h,
        HandleView::Desc(DescView::fresh(DescKind::Ad, SQL_DESC_ALLOC_USER, dbc)),
    ).insert(
        dbc,
        HandleView::Dbc(
            DbcView {
                inner: DbcStateView { descriptors: d.inner.descriptors.push(h), ..d.inner },
                ..d
            },
        ),
    )
}

/// A list without `h`.
pub open spec fn without(list: Seq<SqlHandle>, h: SqlHandle) -> Seq<SqlHandle> {
    list.filter(|x: SqlHandle| x != h)
}

/// `m` without the explicit descriptor `h`: its connection no longer lists it,
/// every statement that used it is back on its own descriptor, and nothing
/// else changes.
pub open spec fn without_explicit(m: Handles, h: SqlHandle) -> Handles {
    let dbc = super::desc_at(m, h).parent_dbc;
    Map::new(
        |k: SqlHandle| m.dom().contains(k) && k != h,
        |k: SqlHandle|
            match m[k] {
                HandleView::Stmt(s) => HandleView::Stmt(s.detached(h)),
                HandleView::Dbc(d) => if k == dbc {
                    HandleView::Dbc(
                        DbcView {
                            inner: DbcStateView {
                                descriptors: without(d.inner.descriptors, h),
                                ..d.inner
                            },
                            ..d
                        },
                    )
                } else {
                    m[k]
                },
                _ => m[k],
            },
    )
}

/// `m` without the statement `h` and its implicit descriptors: its connection
/// no longer lists it nor counts its cursor as open, and nothing else changes.
pub open spec fn without_statement(m: Handles, h: SqlHandle) -> Handles {
    let s = super::stmt_at(m, h);
    let d = super::dbc_at(m, s.parent_dbc);
    super::without_implicit(m.remove(h), s).insert(
        s.parent_dbc,
        HandleView::Dbc(
            DbcView {
                inner: DbcStateView {
                    statements: without(d.inner.statements, h),
                    active_stmt: if d.inner.active_stmt == Some(h) {
                        None
                    } else {
                        d.inner.active_stmt
                    },
                    ..d.inner
                },
                ..d
            },
        ),
    )
}

/// Copies a list, leaving `h` out.
fn list_without(list: &Vec<SqlHandle>, h: SqlHandle) -> (kept: Vec<SqlHandle>)
    ensures
        kept@ == without(list@, h),
{
    let mut kept: Vec<SqlHandle> = Vec::new();
    let mut i: usize = 0;
    assert(kept@ =~= without(list@.take(0), h)) by {
        reveal(Seq::filter);
    }
    while i < list.len()
        invariant
            0 <= i <= list@.len(),
            kept@ == without(list@.take(i as int), h),
        decreases list.len() - i,
    {
        let x: SqlHandle = list[i];
        proof {
            reveal(Seq::filter);
            assert(list@.take(i + 1).drop_last() =~= list@.take(i as int));
        }
        if x != h {
            kept.push(x);
        }
        i = i + 1;
    }
    assert(list@.take(i as int) =~= list@);
    kept
}

impl HandleTable {
    /// Allocates an environment.
    pub fn alloc_env(&mut self, runtime: Arc<Runtime>) -> (h: SqlHandle)
        ensures
            super::is_fresh(old(self)@, h),
            final(self)@ == old(self)@.insert(
                h,
                HandleView::Env((EnvView { object_type: HandleType::Env, runtime })),
            ),
            well_formed(old(self)@) ==> well_formed(final(self)@),
    {
        let h = self.insert(Slot::Env(EnvHandle::new(runtime)));
        proof {
            if well_formed(old(self)@) {
                lemma_env_added_well_formed(
                    old(self)@,
                    h,
                    EnvView { object_type: HandleType::Env, runtime },
                );
            }
        }
        h
    }

    /// Allocates a connection on an environment.
    pub fn alloc_dbc(&mut self, env: SqlHandle, runtime: Arc<Runtime>) -> (h: SqlHandle)
        requires
            super::is_env(old(self)@, env),
        ensures
            super::is_fresh(old(self)@, h),
            final(self)@ == old(self)@.insert(h, HandleView::Dbc(DbcView::fresh(env, runtime))),
            well_formed(old(self)@) ==> well_formed(final(self)@),
    {
        let h = self.insert(Slot::Dbc(DbcHandle::new(env, runtime)));
        proof {
            if well_formed(old(self)@) {
                lemma_dbc_added_well_formed(old(self)@, h, env, runtime);
            }
        }
        h
    }

    /// Allocates a statement on a connection, with its four implicit
    /// descriptors.
    pub fn alloc_stmt(&mut self, dbc: SqlHandle) -> (h: SqlHandle)
        requires
            super::is_dbc(old(self)@, dbc),
        ensures
            super::is_fresh(old(self)@, h),
            super::is_stmt(final(self)@, h),
            ({
                let s = super::stmt_at(final(self)@, h);
                &&& s == StmtView::fresh(dbc, s.ard, s.apd, s.ird, s.ipd)
                &&& super::fresh_implicit(old(self)@, s)
                &&& h != s.ard && h != s.apd && h != s.ird && h != s.ipd
                &&& final(self)@ == with_statement(old(self)@, h, s)
            }),
            well_formed(old(self)@) ==> well_formed(final(self)@),
    {
        let stmt = StmtHandle::new(self, dbc);
        let ghost s = stmt@;
        let h = self.insert(Slot::Stmt(stmt));
        let connection = self.dbc_mut(dbc);
        connection.inner.statements.push(h);
        proof {
            if well_formed(old(self)@) {
                lemma_with_statement_well_formed(old(self)@, h, s);
            }
        }
        h
    }

    /// Allocates an explicit descriptor on a connection.
    pub fn alloc_desc(&mut self, dbc: SqlHandle) -> (h: SqlHandle)
        requires
            super::is_dbc(old(self)@, dbc),
        ensures
            super::is_fresh(old(self)@, h),
            final(self)@ == with_explicit(old(self)@, dbc, h),
            well_formed(old(self)@) ==> well_formed(final(self)@),
    {
        let h = self.insert_desc(DescHandle::new(DescKind::Ad, SQL_DESC_ALLOC_USER, dbc));
        let connection = self.dbc_mut(dbc);
        connection.inner.descriptors.push(h);
        proof {
            if well_formed(old(self)@) {
                lemma_with_explicit_well_formed(old(self)@, dbc, h);
            }
        }
        h
    }

    /// Frees an explicit descriptor. Every statement that uses it goes back to
    /// its own implicit descriptor first.
    pub fn free_desc(&mut self, desc: SqlHandle) -> (ret: SqlReturn)
        requires
            well_formed(old(self)@),
            desc != SQL_NULL_HANDLE ==> super::is_desc(old(self)@, desc) && super::desc_at(
                old(self)@,
                desc,
            ).explicit(),
        ensures
            desc == SQL_NULL_HANDLE ==> ret == SQL_INVALID_HANDLE && final(self)@ == old(self)@,
            desc != SQL_NULL_HANDLE ==> ret == SQL_SUCCESS && final(self)@ == without_explicit(
                old(self)@,
                desc,
            ),
            well_formed(final(self)@),
    {
        if desc == SQL_NULL_HANDLE {
            return SQL_INVALID_HANDLE;
        }
        let ghost m = self@;
        let dbc = self.desc(desc).parent_dbc;
        let ghost statements = super::dbc_at(m, dbc).inner.statements;
        assert(m.dom().contains(desc) && m.dom().contains(dbc));
        let count = self.dbc(dbc).inner.statements.len();
        let mut i: usize = 0;
        while i < count
            invariant
                well_formed(m),
                super::is_dbc(m, dbc),
                statements == super::dbc_at(m, dbc).inner.statements,
                count == statements.len(),
                0 <= i <= count,
                self@.dom() == m.dom(),
                forall|k: SqlHandle| #[trigger]
                    m.dom().contains(k) ==> self@[k] == (if statements.take(i as int).contains(k) {
                        HandleView::Stmt(super::stmt_at(m, k).detached(desc))
                    } else {
                        m[k]
                    }),
            decreases count - i,
        {
            proof {
                assert(m.dom().contains(dbc));
                assert(dbc_wf(m, dbc));
                lemma_take_one_more(statements, i as int);
                assert(statements.contains(statements[i as int]));
            }
            let h = self.dbc(dbc).inner.statements[i];
            assert(m.dom().contains(h));
            let stmt = self.stmt_mut(h);
            if stmt.inner.active_ard == Some(desc) {
                stmt.inner.active_ard = None;
            }
            if stmt.inner.active_apd == Some(desc) {
                stmt.inner.active_apd = None;
            }
            i = i + 1;
        }
        assert(statements.take(i as int) =~= statements);
        let kept = list_without(&self.dbc(dbc).inner.descriptors, desc);
        let connection = self.dbc_mut(dbc);
        connection.inner.descriptors = kept;
        self.remove(desc);
        proof {
            lemma_foreign_statement_unaffected(m, desc);
            assert(self@ =~= without_explicit(m, desc));
            lemma_without_explicit_well_formed(m, desc);
        }
        SQL_SUCCESS
    }

    /// Discards a statement that is not in the table, with the four implicit
    /// descriptors that it owns there.
    pub fn discard_stmt(&mut self, stmt: StmtHandle)
        requires
            super::is_desc(old(self)@, stmt.ard),
            super::is_desc(old(self)@, stmt.apd),
            super::is_desc(old(self)@, stmt.ird),
            super::is_desc(old(self)@, stmt.ipd),
            stmt.ard != stmt.apd && stmt.ard != stmt.ird && stmt.ard != stmt.ipd,
            stmt.apd != stmt.ird && stmt.apd != stmt.ipd,
            stmt.ird != stmt.ipd,
        ensures
            final(self)@ == super::without_implicit(old(self)@, stmt@),
    {
        self.remove(stmt.ard);
        self.remove(stmt.apd);
        self.remove(stmt.ird);
        self.remove(stmt.ipd);
    }

    /// Frees a statement, and the implicit descriptors it owns. Explicit
    /// descriptors that it used belong to the connection and stay.
    pub fn free_stmt(&mut self, stmt: SqlHandle) -> (ret: SqlReturn)
        requires
            well_formed(old(self)@),
            stmt != SQL_NULL_HANDLE ==> super::is_stmt(old(self)@, stmt),
        ensures
            stmt == SQL_NULL_HANDLE ==> ret == SQL_INVALID_HANDLE && final(self)@ == old(self)@,
            stmt != SQL_NULL_HANDLE ==> ret == SQL_SUCCESS && final(self)@ == without_statement(
                old(self)@,
                stmt,
            ),
            well_formed(final(self)@),
    {
        if stmt == SQL_NULL_HANDLE {
            return SQL_INVALID_HANDLE;
        }
        let ghost m = self@;
        assert(m.dom().contains(stmt));
        let dbc = self.stmt(stmt).parent_dbc;
        match self.remove(stmt) {
            Slot::Stmt(s) => self.discard_stmt(s),
            _ => vstd::pervasive::unreached(),
        }
        let kept = list_without(&self.dbc(dbc).inner.statements, stmt);
        let connection = self.dbc_mut(dbc);
        connection.inner.statements = kept;
        if connection.inner.active_stmt == Some(stmt) {
            connection.inner.active_stmt = None;
        }
        proof {
            lemma_without_statement_well_formed(m, stmt);
        }
        SQL_SUCCESS
    }
}

/// A statement that uses a descriptor is listed by the descriptor's
/// connection; any other is the same detached from it.
proof fn lemma_foreign_statement_unaffected(m: Handles, desc: SqlHandle)
    requires
        well_formed(m),
        super::is_desc(m, desc),
    ensures
        forall|k: SqlHandle| #[trigger]
            m.dom().contains(k) && m[k] is Stmt && !super::dbc_at(
                m,
                super::desc_at(m, desc).parent_dbc,
            ).inner.statements.contains(k) ==> super::stmt_at(m, k).detached(desc)
                == super::stmt_at(m, k),
{
    let dbc = super::desc_at(m, desc).parent_dbc;
    assert forall|k: SqlHandle| #[trigger]
        m.dom().contains(k) && m[k] is Stmt && !super::dbc_at(m, dbc).inner.statements.contains(
            k,
        ) implies super::stmt_at(m, k).detached(desc) == super::stmt_at(m, k) by {
        assert(stmt_wf(m, k));
    }
}

/// What the first `i + 1` elements of a list are.
proof fn lemma_take_one_more(list: Seq<SqlHandle>, i: int)
    requires
        0 <= i < list.len(),
        list.no_duplicates(),
    ensures
        forall|x: SqlHandle| #[trigger]
            list.take(i + 1).contains(x) <==> list.take(i).contains(x) || x == list[i],
        forall|x: SqlHandle| #[trigger] list.take(i).contains(x) ==> list.contains(x),
        !list.take(i).contains(list[i]),
{
    assert forall|x: SqlHandle| #[trigger] list.take(i).contains(x) implies list.contains(x)
        && list.take(i + 1).contains(x) by {
        let j = choose|j: int| 0 <= j < i && list.take(i)[j] == x;
        assert(list[j] == x);
        assert(list.take(i + 1)[j] == x);
    }
    assert(list.take(i + 1)[i] == list[i]);
    assert forall|x: SqlHandle| #[trigger] list.take(i + 1).contains(x) implies list.take(
        i,
    ).contains(x) || x == list[i] by {
        let more = list.take(i + 1);
        let j = choose|j: int| 0 <= j < more.len() && more[j] == x;
        if j < i {
            assert(list.take(i)[j] == x);
        }
    }
}

/// What `without` keeps and drops.
proof fn lemma_without(list: Seq<SqlHandle>, h: SqlHandle)
    requires
        list.no_duplicates(),
    ensures
        without(list, h).no_duplicates(),
        forall|x: SqlHandle| #[trigger]
            without(list, h).contains(x) <==> list.contains(x) && x != h,
    decreases list.len(),
{
    reveal(Seq::filter);
    if list.len() > 0 {
        let rest = list.drop_last();
        let last = list.last();
        lemma_without(rest, h);
        assert(list =~= rest.push(last));
        assert(!rest.contains(last));
        assert(without(list, h) =~= if last != h {
            without(rest, h).push(last)
        } else {
            without(rest, h)
        });
        assert(!without(rest, h).contains(last));
        assert(without(list, h).no_duplicates()) by {
            let kept = without(rest, h);
            assert forall|i: int, j: int|
                0 <= i < without(list, h).len() && 0 <= j < without(list, h).len() && i
                    != j implies without(list, h)[i] != without(list, h)[j] by {
                if i < kept.len() {
                    assert(kept.contains(kept[i]));
                }
                if j < kept.len() {
                    assert(kept.contains(kept[j]));
                }
            }
        }
        assert forall|x: SqlHandle| #[trigger] without(list, h).contains(x) implies list.contains(x)
            && x != h by {
            if x != last {
                assert(without(rest, h).contains(x));
            }
        }
        assert forall|x: SqlHandle| list.contains(x) && x != h implies #[trigger] without(
            list,
            h,
        ).contains(x) by {
            if x == last {
                assert(without(list, h).last() == x);
            } else {
                assert(rest.contains(x));
                assert(without(rest, h).contains(x));
                let i = choose|i: int|
                    0 <= i < without(rest, h).len() && without(rest, h)[i] == x;
                assert(without(list, h)[i] == x);
            }
        }
    }
}

/// Freeing an explicit descriptor keeps the table in order: in particular, no
/// statement is left with a descriptor that is gone.
pub proof fn lemma_without_explicit_well_formed(m: Handles, h: SqlHandle)
    requires
        well_formed(m),
        super::is_desc(m, h),
        super::desc_at(m, h).explicit(),
    ensures
        well_formed(without_explicit(m, h)),
{
    let after = without_explicit(m, h);
    let dbc = super::desc_at(m, h).parent_dbc;
    assert(m.dom().contains(h) && m.dom().contains(dbc));
    lemma_without(super::dbc_at(m, dbc).inner.descriptors, h);
    assert forall|k: SqlHandle| #[trigger] after.dom().contains(k) implies handle_wf(after, k) by {
        assert(m.dom().contains(k));
        assert(handle_wf(m, k));
        lemma_owner_kept(m, after, k);
    }
    lemma_unshared_kept(m, after);
}

/// Freeing a statement keeps the table in order: in particular, it takes no
/// descriptor from another statement.
pub proof fn lemma_without_statement_well_formed(m: Handles, h: SqlHandle)
    requires
        well_formed(m),
        super::is_stmt(m, h),
    ensures
        well_formed(without_statement(m, h)),
{
    let after = without_statement(m, h);
    let s = super::stmt_at(m, h);
    assert(m.dom().contains(h));
    assert(stmt_wf(m, h));
    assert(m.dom().contains(s.parent_dbc));
    lemma_without(super::dbc_at(m, s.parent_dbc).inner.statements, h);
    assert forall|k: SqlHandle| #[trigger] after.dom().contains(k) implies handle_wf(after, k) by {
        assert(m.dom().contains(k));
        assert(handle_wf(m, k));
        lemma_owner_kept(m, after, k);
    }
    lemma_unshared_kept(m, after);
}

/// A new environment keeps the table in order.
pub proof fn lemma_env_added_well_formed(m: Handles, h: SqlHandle, e: EnvView)
    requires
        well_formed(m),
        super::is_fresh(m, h),
        e.object_type == HandleType::Env,
    ensures
        well_formed(m.insert(h, HandleView::Env(e))),
{
    let after = m.insert(h, HandleView::Env(e));
    assert forall|k: SqlHandle| #[trigger] after.dom().contains(k) implies handle_wf(after, k) by {
        if k != h {
            assert(m.dom().contains(k));
            assert(handle_wf(m, k));
            lemma_owner_kept(m, after, k);
        }
    }
    lemma_unshared_kept(m, after);
}

/// A new connection on a live environment keeps the table in order.
pub proof fn lemma_dbc_added_well_formed(
    m: Handles,
    h: SqlHandle,
    env: SqlHandle,
    runtime: Arc<Runtime>,
)
    requires
        well_formed(m),
        super::is_fresh(m, h),
        super::is_env(m, env),
    ensures
        well_formed(m.insert(h, HandleView::Dbc(DbcView::fresh(env, runtime)))),
{
    let after = m.insert(h, HandleView::Dbc(DbcView::fresh(env, runtime)));
    assert forall|k: SqlHandle| #[trigger] after.dom().contains(k) implies handle_wf(after, k) by {
        if k != h {
            assert(m.dom().contains(k));
            assert(handle_wf(m, k));
            lemma_owner_kept(m, after, k);
        }
    }
    lemma_unshared_kept(m, after);
}

/// Where the statements are the same, implicit descriptors stay unshared.
proof fn lemma_unshared_kept(m: Handles, after: Handles)
    requires
        unshared(m),
        forall|k: SqlHandle| #[trigger]
            after.dom().contains(k) && after[k] is Stmt ==> super::is_stmt(m, k) && super::stmt_at(
                m,
                k,
            ).ard == super::stmt_at(after, k).ard && super::stmt_at(m, k).apd == super::stmt_at(
                after,
                k,
            ).apd && super::stmt_at(m, k).ird == super::stmt_at(after, k).ird && super::stmt_at(
                m,
                k,
            ).ipd == super::stmt_at(after, k).ipd,
    ensures
        unshared(after),
{
    assert forall|a: SqlHandle, b: SqlHandle|
        #![trigger after.dom().contains(a), after.dom().contains(b)]
        super::is_stmt(after, a) && super::is_stmt(after, b) && a != b implies {
        &&& super::stmt_at(after, a).ard != super::stmt_at(after, b).ard
        &&& super::stmt_at(after, a).apd != super::stmt_at(after, b).apd
        &&& super::stmt_at(after, a).ird != super::stmt_at(after, b).ird
        &&& super::stmt_at(after, a).ipd != super::stmt_at(after, b).ipd
    } by {
        assert(m.dom().contains(a) && m.dom().contains(b));
    }
}

/// Where the owner of an implicit descriptor stays, it still owns it.
proof fn lemma_owner_kept(m: Handles, after: Handles, d: SqlHandle)
    requires
        m.dom().contains(d),
        handle_wf(m, d),
        forall|x: SqlHandle| #[trigger]
            owns(m, x, d) ==> super::is_stmt(after, x) && super::stmt_at(after, x).ard
                == super::stmt_at(m, x).ard && super::stmt_at(after, x).apd == super::stmt_at(
                m,
                x,
            ).apd && super::stmt_at(after, x).ird == super::stmt_at(m, x).ird && super::stmt_at(
                after,
                x,
            ).ipd == super::stmt_at(m, x).ipd,
    ensures
        m[d] is Desc && !super::desc_at(m, d).explicit() ==> exists|x: SqlHandle|
            owns(after, x, d),
{
    if m[d] is Desc && !super::desc_at(m, d).explicit() {
        let x = choose|x: SqlHandle| owns(m, x, d);
        assert(owns(after, x, d));
    }
}

/// A list with one more element at its end.
proof fn lemma_pushed(list: Seq<SqlHandle>, h: SqlHandle)
    ensures
        forall|x: SqlHandle| #[trigger] list.push(h).contains(x) <==> list.contains(x) || x == h,
        list.no_duplicates() && !list.contains(h) ==> list.push(h).no_duplicates(),
{
    let more = list.push(h);
    assert(more[list.len() as int] == h);
    assert forall|x: SqlHandle| list.contains(x) implies #[trigger] more.contains(x) by {
        let i = choose|i: int| 0 <= i < list.len() && list[i] == x;
        assert(more[i] == x);
    }
    assert forall|x: SqlHandle| #[trigger] more.contains(x) implies list.contains(x) || x == h by {
        let i = choose|i: int| 0 <= i < more.len() && more[i] == x;
        if i < list.len() {
            assert(list[i] == x);
        }
    }
}

/// A new explicit descriptor on a live connection keeps the table in order.
pub proof fn lemma_with_explicit_well_formed(m: Handles, dbc: SqlHandle, h: SqlHandle)
    requires
        well_formed(m),
        super::is_fresh(m, h),
        super::is_dbc(m, dbc),
    ensures
        well_formed(with_explicit(m, dbc, h)),
{
    let after = with_explicit(m, dbc, h);
    assert(m.dom().contains(dbc));
    assert(dbc_wf(m, dbc));
    lemma_pushed(super::dbc_at(m, dbc).inner.descriptors, h);
    assert forall|k: SqlHandle| #[trigger] after.dom().contains(k) implies handle_wf(after, k) by {
        if k != h {
            assert(m.dom().contains(k));
            assert(handle_wf(m, k));
            lemma_owner_kept(m, after, k);
        }
    }
    lemma_unshared_kept(m, after);
}

/// A new statement on a live connection keeps the table in order.
pub proof fn lemma_with_statement_well_formed(m: Handles, h: SqlHandle, s: StmtView)
    requires
        well_formed(m),
        super::is_dbc(m, s.parent_dbc),
        super::is_fresh(m, h),
        super::fresh_implicit(m, s),
        h != s.ard && h != s.apd && h != s.ird && h != s.ipd,
        s == StmtView::fresh(s.parent_dbc, s.ard, s.apd, s.ird, s.ipd),
    ensures
        well_formed(with_statement(m, h, s)),
{
    let after = with_statement(m, h, s);
    assert(m.dom().contains(s.parent_dbc));
    assert(dbc_wf(m, s.parent_dbc));
    lemma_pushed(super::dbc_at(m, s.parent_dbc).inner.statements, h);
    assert forall|k: SqlHandle| #[trigger] after.dom().contains(k) implies handle_wf(after, k) by {
        if m.dom().contains(k) {
            assert(handle_wf(m, k));
            lemma_owner_kept(m, after, k);
        } else if k != h {
            assert(owns(after, h, k));
        }
    }
    assert(unshared(after)) by {
        assert forall|a: SqlHandle, b: SqlHandle|
            #![trigger after.dom().contains(a), after.dom().contains(b)]
            super::is_stmt(after, a) && super::is_stmt(after, b) && a != b implies {
            &&& super::stmt_at(after, a).ard != super::stmt_at(after, b).ard
            &&& super::stmt_at(after, a).apd != super::stmt_at(after, b).apd
            &&& super::stmt_at(after, a).ird != super::stmt_at(after, b).ird
            &&& super::stmt_at(after, a).ipd != super::stmt_at(after, b).ipd
        } by {
            if a != h {
                assert(m.dom().contains(a));
                assert(stmt_wf(m, a));
            }
            if b != h {
                assert(m.dom().contains(b));
                assert(stmt_wf(m, b));
            }
        }
    }
}

/// A statement whose state changes keeps the table in order, as long as it
/// keeps its identity, its own order, and to descriptors that it may use.
pub proof fn lemma_stmt_changed_well_formed(m: Handles, h: SqlHandle, s: StmtView)
    requires
        well_formed(m),
        super::is_stmt(m, h),
        s == (StmtView { inner: s.inner, ..super::stmt_at(m, h) }),
        s.inner.wf(),
        s.inner.active_ard matches Some(d) ==> explicit_on(m, d, s.parent_dbc),
        s.inner.active_apd matches Some(d) ==> explicit_on(m, d, s.parent_dbc),
    ensures
        well_formed(m.insert(h, HandleView::Stmt(s))),
{
    let after = m.insert(h, HandleView::Stmt(s));
    assert(m.dom().contains(h));
    assert(stmt_wf(m, h));
    assert forall|k: SqlHandle| #[trigger] after.dom().contains(k) implies handle_wf(after, k) by {
        assert(m.dom().contains(k));
        assert(handle_wf(m, k));
        lemma_owner_kept(m, after, k);
    }
    lemma_unshared_kept(m, after);
}

} // verus!
