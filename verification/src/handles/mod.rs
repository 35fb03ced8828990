//! The driver's handles, and the table that gives each its address.
//!
//! A handle is an opaque word to an application. Here it is the address of an
//! object in a [`HandleTable`].

use vstd::prelude::*;

use crate::api::odbc_types::SqlHandle;

pub mod dbc;
pub mod desc;
pub mod env;
pub mod lifecycle;
pub mod stmt;

use dbc::{DbcHandle, DbcView};
use desc::{DescHandle, DescKind, DescView};
use env::{EnvHandle, EnvView};
use stmt::{StmtHandle, StmtView};

verus! {

/// What a handle refers to.
#[derive(Debug, Clone, Copy, PartialEq, Eq, Structural)]
pub enum HandleType {
    Env,
    Dbc,
    Stmt,
    Desc,
    /// Nothing: never allocated, or freed since.
    Invalid,
}

/// A handle object that knows its own type.
pub trait HasObjectType: Sized {
    /// The type it is stamped with.
    spec fn object_type_spec(&self) -> HandleType;

    /// Whether `other` differs from `self` in its stamp at most.
    spec fn same_but_object_type(&self, other: Self) -> bool;

    /// Access to the stamp.
    fn object_type_mut(&mut self) -> (object_type: &mut HandleType)
        ensures
            *object_type == old(self).object_type_spec(),
            final(self).object_type_spec() == *final(object_type),
            old(self).same_but_object_type(*final(self)),
    ;
}

/// One place in a [`HandleTable`].
enum Slot {
    Env(EnvHandle),
    Dbc(DbcHandle),
    Stmt(StmtHandle),
    Desc(DescHandle),
    Freed,
}

/// Every object that a handle can refer to.
pub struct HandleTable {
    /// The object of handle `h` is at `h - 1`.
    slots: Vec<Slot>,
}

/// What an object of a [`HandleTable`] holds.
pub enum HandleView {
    Env(EnvView),
    Dbc(DbcView),
    Stmt(StmtView),
    Desc(DescView),
}

/// The live handles, with what their objects hold.
pub type Handles = Map<SqlHandle, HandleView>;

/// Whether `h` is a live environment handle.
pub open spec fn is_env(m: Handles, h: SqlHandle) -> bool {
    m.dom().contains(h) && m[h] is Env
}

/// Whether `h` is a live connection handle.
pub open spec fn is_dbc(m: Handles, h: SqlHandle) -> bool {
    m.dom().contains(h) && m[h] is Dbc
}

/// Whether `h` is a live statement handle.
pub open spec fn is_stmt(m: Handles, h: SqlHandle) -> bool {
    m.dom().contains(h) && m[h] is Stmt
}

/// Whether `h` is a live descriptor handle.
pub open spec fn is_desc(m: Handles, h: SqlHandle) -> bool {
    m.dom().contains(h) && m[h] is Desc
}

pub open spec fn env_at(m: Handles, h: SqlHandle) -> EnvView {
    m[h]->Env_0
}

pub open spec fn dbc_at(m: Handles, h: SqlHandle) -> DbcView {
    m[h]->Dbc_0
}

pub open spec fn stmt_at(m: Handles, h: SqlHandle) -> StmtView {
    m[h]->Stmt_0
}

pub open spec fn desc_at(m: Handles, h: SqlHandle) -> DescView {
    m[h]->Desc_0
}

/// Whether `h` is not null and refers to nothing in `m`.
pub open spec fn is_fresh(m: Handles, h: SqlHandle) -> bool {
    h != 0 && !m.dom().contains(h)
}

/// Whether the implicit descriptors of `s` are fresh in `m`, and four.
pub open spec fn fresh_implicit(m: Handles, s: StmtView) -> bool {
    &&& is_fresh(m, s.ard)
    &&& is_fresh(m, s.apd)
    &&& is_fresh(m, s.ird)
    &&& is_fresh(m, s.ipd)
    &&& s.ard != s.apd && s.ard != s.ird && s.ard != s.ipd
    &&& s.apd != s.ird && s.apd != s.ipd
    &&& s.ird != s.ipd
}

/// `m` with the four implicit descriptors of a new statement.
pub open spec fn with_implicit(m: Handles, s: StmtView) -> Handles {
    let implicit = |kind: DescKind|
        HandleView::Desc(
            DescView::fresh(kind, crate::api::odbc_types::SQL_DESC_ALLOC_AUTO, s.parent_dbc),
        );
    m.insert(s.ard, implicit(DescKind::AppRow)).insert(
        s.apd,
        implicit(DescKind::AppParam),
    ).insert(s.ird, implicit(DescKind::ImpRow)).insert(s.ipd, implicit(DescKind::ImpParam))
}

/// `m` without the four implicit descriptors of a statement.
pub open spec fn without_implicit(m: Handles, s: StmtView) -> Handles {
    m.remove(s.ard).remove(s.apd).remove(s.ird).remove(s.ipd)
}

impl Slot {
    spec fn holds(self) -> Option<HandleView> {
        match self {
            Slot::Env(e) => Some(HandleView::Env(e@)),
            Slot::Dbc(d) => Some(HandleView::Dbc(d@)),
            Slot::Stmt(s) => Some(HandleView::Stmt(s@)),
            Slot::Desc(d) => Some(HandleView::Desc(d@)),
            Slot::Freed => None,
        }
    }
}

impl View for HandleTable {
    type V = Handles;

    closed spec fn view(&self) -> Handles {
        Map::new(
            |h: SqlHandle| 1 <= h <= self.slots@.len() && self.slots@[h - 1].holds() is Some,
            |h: SqlHandle| self.slots@[h - 1].holds()->0,
        )
    }
}

impl HandleTable {
    /// A table without objects.
    pub fn new() -> (handles: Self)
        ensures
            handles@ == Map::<SqlHandle, HandleView>::empty(),
            lifecycle::well_formed(handles@),
    {
        let handles = HandleTable { slots: Vec::new() };
        assert(handles@ =~= Map::<SqlHandle, HandleView>::empty());
        handles
    }

    /// What `h` refers to.
    pub fn object_type(&self, h: SqlHandle) -> (object_type: HandleType)
        ensures
            object_type == (if !self@.dom().contains(h) {
                HandleType::Invalid
            } else {
                match self@[h] {
                    HandleView::Env(_) => HandleType::Env,
                    HandleView::Dbc(_) => HandleType::Dbc,
                    HandleView::Stmt(_) => HandleType::Stmt,
                    HandleView::Desc(_) => HandleType::Desc,
                }
            }),
    {
        if h < 1 || h > self.slots.len() {
            return HandleType::Invalid;
        }
        match &self.slots[h - 1] {
            Slot::Env(_) => HandleType::Env,
            Slot::Dbc(_) => HandleType::Dbc,
            Slot::Stmt(_) => HandleType::Stmt,
            Slot::Desc(_) => HandleType::Desc,
            Slot::Freed => HandleType::Invalid,
        }
    }

    /// The environment at `h`.
    pub fn env(&self, h: SqlHandle) -> (env: &EnvHandle)
        requires
            is_env(self@, h),
        ensures
            env@ == env_at(self@, h),
    {
        match &self.slots[h - 1] {
            Slot::Env(e) => e,
            _ => vstd::pervasive::unreached(),
        }
    }

    /// The connection at `h`.
    pub fn dbc(&self, h: SqlHandle) -> (dbc: &DbcHandle)
        requires
            is_dbc(self@, h),
        ensures
            dbc@ == dbc_at(self@, h),
    {
        match &self.slots[h - 1] {
            Slot::Dbc(d) => d,
            _ => vstd::pervasive::unreached(),
        }
    }

    /// Mutable counterpart of [`Self::dbc`].
    pub fn dbc_mut(&mut self, h: SqlHandle) -> (dbc: &mut DbcHandle)
        requires
            is_dbc(old(self)@, h),
        ensures
            dbc@ == dbc_at(old(self)@, h),
            final(self)@ == old(self)@.insert(h, HandleView::Dbc(final(dbc)@)),
    {
        match &mut self.slots[h - 1] {
            Slot::Dbc(d) => d,
            _ => vstd::pervasive::unreached(),
        }
    }

    /// The statement at `h`.
    pub fn stmt(&self, h: SqlHandle) -> (stmt: &StmtHandle)
        requires
            is_stmt(self@, h),
        ensures
            stmt@ == stmt_at(self@, h),
    {
        match &self.slots[h - 1] {
            Slot::Stmt(s) => s,
            _ => vstd::pervasive::unreached(),
        }
    }

    /// Mutable counterpart of [`Self::stmt`].
    pub fn stmt_mut(&mut self, h: SqlHandle) -> (stmt: &mut StmtHandle)
        requires
            is_stmt(old(self)@, h),
        ensures
            stmt@ == stmt_at(old(self)@, h),
            final(self)@ == old(self)@.insert(h, HandleView::Stmt(final(stmt)@)),
    {
        match &mut self.slots[h - 1] {
            Slot::Stmt(s) => s,
            _ => vstd::pervasive::unreached(),
        }
    }

    /// The descriptor at `h`.
    pub fn desc(&self, h: SqlHandle) -> (desc: &DescHandle)
        requires
            is_desc(self@, h),
        ensures
            desc@ == desc_at(self@, h),
    {
        match &self.slots[h - 1] {
            Slot::Desc(d) => d,
            _ => vstd::pervasive::unreached(),
        }
    }

    /// Gives an object an address that no other has had.
    fn insert(&mut self, slot: Slot) -> (h: SqlHandle)
        requires
            slot.holds() is Some,
        ensures
            is_fresh(old(self)@, h),
            final(self)@ == old(self)@.insert(h, slot.holds()->0),
    {
        self.slots.push(slot);
        let h = self.slots.len();
        assert(self@ =~= old(self)@.insert(h, slot.holds()->0));
        h
    }

    /// Takes the object at `h` out of the table.
    fn remove(&mut self, h: SqlHandle) -> (slot: Slot)
        requires
            old(self)@.dom().contains(h),
        ensures
            slot.holds() == Some(old(self)@[h]),
            final(self)@ == old(self)@.remove(h),
    {
        let mut slot = Slot::Freed;
        std::mem::swap(&mut self.slots[h - 1], &mut slot);
        assert(self@ =~= old(self)@.remove(h));
        slot
    }

    /// Gives a descriptor its address.
    pub(crate) fn insert_desc(&mut self, desc: DescHandle) -> (h: SqlHandle)
        ensures
            is_fresh(old(self)@, h),
            final(self)@ == old(self)@.insert(h, HandleView::Desc(desc@)),
    {
        self.insert(Slot::Desc(desc))
    }
}

} // verus!
