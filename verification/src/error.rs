//! Diagnostic records and the operations every handle's state shares on them.

use vstd::prelude::*;

use crate::api::odbc_types::SqlInteger;

verus! {

/// One diagnostic record of a handle.
#[derive(Debug, Clone)]
pub struct DiagRecord {
    /// Five-character SQLSTATE.
    pub sql_state: &'static str,
    /// Native (server or driver) error code; zero for a driver diagnostic.
    pub native_error: SqlInteger,
    pub message: String,
}

/// What a [`DiagRecord`] holds.
pub struct DiagView {
    pub sql_state: Seq<char>,
    pub native_error: SqlInteger,
    pub message: Seq<char>,
}

impl View for DiagRecord {
    type V = DiagView;

    open spec fn view(&self) -> DiagView {
        DiagView {
            sql_state: self.sql_state@,
            native_error: self.native_error,
            message: self.message@,
        }
    }
}

/// What a list of diagnostic records holds, oldest first.
pub open spec fn diag_views(records: Seq<DiagRecord>) -> Seq<DiagView> {
    records.map_values(|r: DiagRecord| r@)
}

/// A handle state that carries diagnostic records.
pub trait HasDiagnostics: Sized {
    /// The diagnostics, oldest first.
    spec fn diags(&self) -> Seq<DiagView>;

    /// Whether `other` differs from `self` in its diagnostics at most.
    spec fn same_but_diags(&self, other: Self) -> bool;

    /// The diagnostic records, oldest first.
    fn diag_records(&self) -> (records: &[DiagRecord])
        ensures
            diag_views(records@) == self.diags(),
    ;

    /// Mutable counterpart of [`Self::diag_records`].
    fn diag_records_mut(&mut self) -> (records: &mut Vec<DiagRecord>)
        ensures
            diag_views(records@) == old(self).diags(),
            diag_views(final(records)@) == final(self).diags(),
            old(self).same_but_diags(*final(self)),
    ;
}

/// Discards every diagnostic. ODBC has each call on a handle start this way.
pub fn free_errors<T: HasDiagnostics>(state: &mut T)
    ensures
        final(state).diags() == Seq::<DiagView>::empty(),
        old(state).same_but_diags(*final(state)),
{
    let records = state.diag_records_mut();
    records.clear();
}

/// Adds one diagnostic after those already there.
pub fn post_sql_error<T: HasDiagnostics>(
    state: &mut T,
    sql_state: &'static str,
    native_error: SqlInteger,
    message: &str,
)
    ensures
        final(state).diags() == old(state).diags().push(
            (DiagView { sql_state: sql_state@, native_error, message: message@ }),
        ),
        old(state).same_but_diags(*final(state)),
{
    let record = DiagRecord { sql_state, native_error, message: message.to_owned() };
    let ghost added = record;
    let records = state.diag_records_mut();
    let ghost before = records@;
    records.push(record);
    assert(diag_views(records@) =~= diag_views(before).push(added@));
}

} // verus!
