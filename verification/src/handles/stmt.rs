//! Statement handles.

use vstd::prelude::*;

use std::collections::VecDeque;

use mssql_tds::connection::tds_client::{PreparedStatement, StatementId};
use mssql_tds::datatypes::column_values::ColumnValues;
use mssql_tds::datatypes::sqldatatypes::TdsDataType;
use mssql_tds::query::metadata::{ColumnMetadata, PlpEncoding};

use super::dbc::DbcHandle;
use super::desc::{DescHandle, DescKind};
use super::{HandleTable, HandleType, HasObjectType};
use crate::api::odbc_types::{
    SqlHandle, SqlLen, SqlPointer, SqlSmallInt, SqlULen, SqlUSmallInt, SQL_BIND_BY_COLUMN,
    SQL_DESC_ALLOC_AUTO, SQL_NULL_PTR,
};
use crate::error::{DiagRecord, DiagView, HasDiagnostics};
use crate::params::BoundParam;

verus! {

/// State of a streamed (PLP) column across repeated `SQLGetData` calls.
#[derive(Debug)]
pub struct ActivePlpStream {
    /// 1-based column ordinal being streamed.
    pub column: usize,
    /// Wire encoding of the column.
    pub encoding: PlpEncoding,
    /// Trailing odd wire byte from the previous read, awaiting its pair.
    pub pending_byte: Option<u8>,
    /// High surrogate whose low half lands in the next chunk.
    pub pending_high_surrogate: Option<u16>,
}

/// An application buffer bound to a result column by `SQLBindCol`.
///
/// The addresses belong to the application, which keeps them valid until it
/// unbinds or rebinds the column or frees the statement. They are written
/// through only during a bound fetch, never at bind time.
#[derive(Debug, Clone, Copy)]
pub struct ColumnBinding {
    /// 1-based column number, as passed to `SQLBindCol`.
    pub column_number: SqlUSmallInt,
    /// The requested `SQL_C_*` target type.
    pub target_type: SqlSmallInt,
    /// Start of the application's buffer, or of its array when the rowset
    /// holds more than one row.
    pub target_value_ptr: SqlPointer,
    /// Capacity of one element of the buffer, in bytes.
    pub buffer_length: SqlLen,
    /// Receives the length/indicator of each row, or null if not wanted.
    pub strlen_or_ind_ptr: SqlPointer,
}

pub const STMT_STATE_EXEC_STARTED: u32 = 0x0000_0100;

pub const STMT_STATE_PREPARED: u32 = 0x0000_0200;

pub const STMT_STATE_CURSOR_OPEN: u32 = 0x0000_0800;

pub const STMT_STATE_EXEC_CONTEXT: u32 = 0x0000_1000;

/// A block fetch is between taking its snapshot of the bindings and finishing
/// its writes. The fetch does not keep the statement locked across network
/// I/O, so this flag is what keeps a rebind from moving a buffer it is still
/// writing through: what would move one is refused while it is set.
pub const STMT_STATE_FETCH_IN_PROGRESS: u32 = 0x0000_2000;

/// A prepared statement together with the marker count of its SQL, so that the
/// two can only be set together.
#[derive(Debug)]
pub struct PreparedPlan {
    pub stmt: PreparedStatement,
    /// Number of parameter markers in the statement's SQL.
    pub marker_count: usize,
}

/// What a [`PreparedPlan`] holds.
pub struct PlanView {
    pub sql: Seq<char>,
    /// The identity of the server's handle; `None` until the first execution.
    pub id: Option<StatementId>,
    pub marker_count: usize,
}

impl View for PreparedPlan {
    type V = PlanView;

    open spec fn view(&self) -> PlanView {
        PlanView {
            sql: crate::external::prepared_sql(self.stmt),
            id: crate::external::prepared_id(self.stmt),
            marker_count: self.marker_count,
        }
    }
}

/// What `SQLDescribeParam` inferred of one parameter.
#[derive(Debug, Clone, Copy, PartialEq, Eq, Structural)]
pub struct ParameterDescription {
    pub data_type: SqlSmallInt,
    pub parameter_size: SqlULen,
    pub decimal_digits: SqlSmallInt,
    pub nullable: SqlSmallInt,
}

/// Statement handle.
#[derive(Debug)]
pub struct StmtHandle {
    pub object_type: HandleType,
    /// The owning connection. Fixed at construction.
    pub parent_dbc: SqlHandle,
    /// The four implicit descriptors, allocated with the statement and freed
    /// with it. These are not the active ARD and APD, which an application can
    /// exchange: see `StmtState::active_ard`. IRD and IPD cannot be exchanged.
    pub ard: SqlHandle,
    pub apd: SqlHandle,
    pub ird: SqlHandle,
    pub ipd: SqlHandle,
    pub inner: StmtState,
}

/// Mutable state of a statement.
#[derive(Debug)]
pub struct StmtState {
    pub diag_records: Vec<DiagRecord>,
    /// Column metadata from the most recent execution.
    pub column_metadata: Vec<ColumnMetadata>,
    /// What `SQLPrepare` stored. The server-side prepare waits for the first
    /// execution, which fills in the statement's identity.
    pub prepared: Option<PreparedPlan>,
    /// Metadata inferred by `SQLDescribeParam`, by parameter ordinal.
    pub parameter_metadata: Vec<ParameterDescription>,
    /// Parameters bound by `SQLBindParameter`, at `ParameterNumber - 1`. A
    /// `None` slot is a gap left by binding a higher ordinal first.
    pub bound_params: Vec<Option<BoundParam>>,
    /// The identity of a superseded prepared statement, whose server handle
    /// awaits release. `None` whenever `prepared` holds a live identity.
    pub pending_unprepare: Option<StatementId>,
    /// The cursor is on a row ready for `SQLGetData`.
    pub row_positioned: bool,
    /// The value most recently read off the row, with its 1-based column.
    pub last_captured: Option<(usize, ColumnValues)>,
    /// Base type of `last_captured` when its column is `sql_variant`, with the
    /// 1-based column.
    pub last_variant_base: Option<(usize, TdsDataType)>,
    /// The last read consumed the row's final column.
    pub row_exhausted: bool,
    /// The column being streamed, if any.
    pub active_plp: Option<ActivePlpStream>,
    /// 1-based column of the last successful `SQLGetData` on this row.
    pub current_row_last_col: usize,
    /// Where the next chunk of a partly read column starts, with its 1-based
    /// column.
    pub partial_text_offset: Option<(usize, usize)>,
    /// Rows affected by the last execution; `-1` when not available.
    pub row_count: i64,
    /// Row counts of a batch that are still to be reported.
    pub pending_row_counts: VecDeque<i64>,
    /// `SQL_ATTR_ROW_ARRAY_SIZE`: rows per block fetch.
    pub row_array_size: SqlULen,
    /// `SQL_ATTR_ROWS_FETCHED_PTR`; null when unset.
    pub rows_fetched_ptr: SqlPointer,
    /// `SQL_ATTR_ROW_STATUS_PTR`; null when unset.
    pub row_status_ptr: SqlPointer,
    /// `SQL_ATTR_ROW_BIND_TYPE`: `SQL_BIND_BY_COLUMN`, or the byte size of a
    /// row structure.
    pub row_bind_type: SqlULen,
    /// `SQL_ATTR_ROW_BIND_OFFSET_PTR`; null when unset.
    pub row_bind_offset_ptr: SqlPointer,
    /// Columns bound by `SQLBindCol`, at most one entry per column, ordered by
    /// column number. Bindings outlive a result set.
    pub bindings: Vec<ColumnBinding>,
    /// `SQL_ATTR_APP_ROW_DESC`: an explicit descriptor, or `None` for the
    /// statement's own.
    pub active_ard: Option<SqlHandle>,
    /// `SQL_ATTR_APP_PARAM_DESC`; see `active_ard`.
    pub active_apd: Option<SqlHandle>,
    /// `STMT_STATE_*` flags.
    pub state_flags: u32,
}

/// What a [`StmtState`] holds.
#[verifier::ext_equal]
pub struct StmtStateView {
    pub diags: Seq<DiagView>,
    pub column_metadata: Seq<ColumnMetadata>,
    pub prepared: Option<PlanView>,
    pub parameter_metadata: Seq<ParameterDescription>,
    pub bound_params: Seq<Option<BoundParam>>,
    pub pending_unprepare: Option<StatementId>,
    pub row_positioned: bool,
    pub last_captured: Option<(usize, ColumnValues)>,
    pub last_variant_base: Option<(usize, TdsDataType)>,
    pub row_exhausted: bool,
    pub active_plp: Option<ActivePlpStream>,
    pub current_row_last_col: usize,
    pub partial_text_offset: Option<(usize, usize)>,
    pub row_count: i64,
    pub pending_row_counts: Seq<i64>,
    pub row_array_size: SqlULen,
    pub rows_fetched_ptr: SqlPointer,
    pub row_status_ptr: SqlPointer,
    pub row_bind_type: SqlULen,
    pub row_bind_offset_ptr: SqlPointer,
    pub bindings: Seq<ColumnBinding>,
    pub active_ard: Option<SqlHandle>,
    pub active_apd: Option<SqlHandle>,
    pub state_flags: u32,
}

impl View for StmtState {
    type V = StmtStateView;

    open spec fn view(&self) -> StmtStateView {
        StmtStateView {
            diags: crate::error::diag_views(self.diag_records@),
            column_metadata: self.column_metadata@,
            prepared: match self.prepared {
                Some(plan) => Some(plan@),
                None => None,
            },
            parameter_metadata: self.parameter_metadata@,
            bound_params: self.bound_params@,
            pending_unprepare: self.pending_unprepare,
            row_positioned: self.row_positioned,
            last_captured: self.last_captured,
            last_variant_base: self.last_variant_base,
            row_exhausted: self.row_exhausted,
            active_plp: self.active_plp,
            current_row_last_col: self.current_row_last_col,
            partial_text_offset: self.partial_text_offset,
            row_count: self.row_count,
            pending_row_counts: self.pending_row_counts@,
            row_array_size: self.row_array_size,
            rows_fetched_ptr: self.rows_fetched_ptr,
            row_status_ptr: self.row_status_ptr,
            row_bind_type: self.row_bind_type,
            row_bind_offset_ptr: self.row_bind_offset_ptr,
            bindings: self.bindings@,
            active_ard: self.active_ard,
            active_apd: self.active_apd,
            state_flags: self.state_flags,
        }
    }
}

/// Whether the bindings are in ascending column order, one per column. A fetch
/// reads a forward-only row, so it depends on this.
pub open spec fn ordered(bindings: Seq<ColumnBinding>) -> bool {
    forall|i: int, j: int|
        0 <= i < j < bindings.len() ==> (#[trigger] bindings[i]).column_number < (
        #[trigger] bindings[j]).column_number
}

/// The bindings of the columns before `column`.
pub open spec fn bound_before(bindings: Seq<ColumnBinding>, column: SqlUSmallInt) -> Seq<
    ColumnBinding,
> {
    bindings.filter(|b: ColumnBinding| b.column_number < column)
}

/// The bindings of the columns after `column`.
pub open spec fn bound_after(bindings: Seq<ColumnBinding>, column: SqlUSmallInt) -> Seq<
    ColumnBinding,
> {
    bindings.filter(|b: ColumnBinding| b.column_number > column)
}

/// The bindings of every column but `column`.
pub open spec fn unbound(bindings: Seq<ColumnBinding>, column: SqlUSmallInt) -> Seq<ColumnBinding> {
    bindings.filter(|b: ColumnBinding| b.column_number != column)
}

/// The bindings with one column bound, whatever it was bound to before.
pub open spec fn rebound(bindings: Seq<ColumnBinding>, binding: ColumnBinding) -> Seq<
    ColumnBinding,
> {
    bound_before(bindings, binding.column_number).push(binding) + bound_after(
        bindings,
        binding.column_number,
    )
}

impl StmtStateView {
    /// The state of a statement that nothing was done with.
    pub open spec fn fresh() -> StmtStateView {
        StmtStateView {
            diags: Seq::empty(),
            column_metadata: Seq::empty(),
            prepared: None,
            parameter_metadata: Seq::empty(),
            bound_params: Seq::empty(),
            pending_unprepare: None,
            row_positioned: false,
            last_captured: None,
            last_variant_base: None,
            row_exhausted: false,
            active_plp: None,
            current_row_last_col: 0,
            partial_text_offset: None,
            row_count: -1i64,
            pending_row_counts: Seq::empty(),
            row_array_size: 1,
            rows_fetched_ptr: 0,
            row_status_ptr: 0,
            row_bind_type: SQL_BIND_BY_COLUMN,
            row_bind_offset_ptr: 0,
            bindings: Seq::empty(),
            active_ard: None,
            active_apd: None,
            state_flags: 0,
        }
    }

    /// The same state, no longer on any row.
    pub open spec fn off_row(self) -> StmtStateView {
        StmtStateView {
            row_positioned: false,
            last_captured: None,
            last_variant_base: None,
            row_exhausted: false,
            active_plp: None,
            current_row_last_col: 0,
            partial_text_offset: None,
            ..self
        }
    }

    /// Whether the prepared statement, if any, holds a live identity.
    pub open spec fn materialized(self) -> bool {
        self.prepared matches Some(plan) && plan.id is Some
    }

    /// The same state with the prepared statement's identity, if it has one,
    /// moved to where identities await release.
    pub open spec fn orphaned(self) -> StmtStateView {
        match self.prepared {
            Some(plan) => match plan.id {
                Some(id) => StmtStateView {
                    prepared: Some(PlanView { id: None, ..plan }),
                    pending_unprepare: Some(id),
                    ..self
                },
                None => self,
            },
            None => self,
        }
    }

    /// The identity that waits for release and loses its place when the live
    /// one is moved there.
    pub open spec fn forgotten(self) -> Option<StatementId> {
        if self.materialized() {
            self.pending_unprepare
        } else {
            None
        }
    }

    /// Whether any of the flags in `mask` is set.
    pub open spec fn has_flag(self, mask: u32) -> bool {
        self.state_flags & mask != 0
    }

    /// No identity waits for release while another is live.
    pub open spec fn one_identity(self) -> bool {
        self.materialized() ==> self.pending_unprepare is None
    }

    /// What every statement keeps: a rowset of at least one row, ordered
    /// bindings, and one identity at a time.
    pub open spec fn wf(self) -> bool {
        &&& self.row_array_size > 0
        &&& ordered(self.bindings)
        &&& self.one_identity()
    }
}

/// In a sequence whose first `split` elements satisfy `keep` and whose others
/// do not, filtering keeps just the first `split`.
proof fn lemma_filter_prefix(
    s: Seq<ColumnBinding>,
    keep: spec_fn(ColumnBinding) -> bool,
    split: int,
)
    requires
        0 <= split <= s.len(),
        forall|i: int| 0 <= i < split ==> keep(s[i]),
        forall|i: int| split <= i < s.len() ==> !keep(s[i]),
    ensures
        s.filter(keep) == s.take(split),
    decreases s.len(),
{
    reveal(Seq::filter);
    if s.len() == 0 {
        assert(s.take(split) =~= s);
    } else {
        let rest = s.drop_last();
        if split == s.len() {
            lemma_filter_prefix(rest, keep, split - 1);
            assert(rest.take(split - 1).push(s.last()) =~= s.take(split));
        } else {
            lemma_filter_prefix(rest, keep, split);
            assert(rest.take(split) =~= s.take(split));
        }
    }
}

/// In a sequence whose first `split` elements do not satisfy `keep` and whose
/// others do, filtering drops just the first `split`.
proof fn lemma_filter_suffix(
    s: Seq<ColumnBinding>,
    keep: spec_fn(ColumnBinding) -> bool,
    split: int,
)
    requires
        0 <= split <= s.len(),
        forall|i: int| 0 <= i < split ==> !keep(s[i]),
        forall|i: int| split <= i < s.len() ==> keep(s[i]),
    ensures
        s.filter(keep) == s.skip(split),
    decreases s.len(),
{
    reveal(Seq::filter);
    if s.len() == 0 {
        assert(s.skip(split) =~= s);
    } else {
        let rest = s.drop_last();
        if split == s.len() {
            lemma_filter_suffix(rest, keep, split - 1);
            assert(rest.skip(split - 1) =~= s.skip(split));
        } else {
            lemma_filter_suffix(rest, keep, split);
            assert(rest.skip(split).push(s.last()) =~= s.skip(split));
        }
    }
}

impl StmtState {
    /// Whether any of the flags in `mask` is set.
    pub fn has_state(&self, mask: u32) -> (yes: bool)
        ensures
            yes == self@.has_flag(mask),
            yes <==> self.state_flags & mask != 0,
    {
        (self.state_flags & mask) != 0
    }

    /// Sets the flags in `mask`.
    pub fn set_state(&mut self, mask: u32)
        ensures
            final(self)@ == (StmtStateView {
                state_flags: old(self).state_flags | mask,
                ..old(self)@
            }),
    {
        self.state_flags = self.state_flags | mask;
    }

    /// Clears the flags in `mask`.
    pub fn clear_state(&mut self, mask: u32)
        ensures
            final(self)@ == (StmtStateView {
                state_flags: old(self).state_flags & !mask,
                ..old(self)@
            }),
    {
        self.state_flags = self.state_flags & !mask;
    }

    /// Binds, or rebinds, one column. A column is bound once at most, so an
    /// existing entry is replaced in place.
    pub fn set_binding(&mut self, binding: ColumnBinding)
        requires
            ordered(old(self).bindings@),
        ensures
            final(self)@ == (StmtStateView {
                bindings: rebound(old(self)@.bindings, binding),
                ..old(self)@
            }),
            ordered(final(self).bindings@),
            forall|i: int, j: int|
                #![trigger final(self).bindings@[i], final(self).bindings@[j]]
                0 <= i < j < final(self).bindings@.len() ==> final(self).bindings@[i].column_number
                    < final(self).bindings@[j].column_number,
            final(self).bindings@.contains(binding),
    {
        let column = binding.column_number;
        let ghost before = self.bindings@;
        let mut low: usize = 0;
        let mut high: usize = self.bindings.len();
        while low < high
            invariant
                low <= high <= self.bindings@.len(),
                self.bindings@ == before,
                ordered(before),
                forall|i: int| 0 <= i < low ==> (#[trigger] before[i]).column_number < column,
                forall|i: int|
                    high <= i < before.len() ==> (#[trigger] before[i]).column_number >= column,
            decreases high - low,
        {
            let middle: usize = low + (high - low) / 2;
            if self.bindings[middle].column_number < column {
                low = middle + 1;
            } else {
                high = middle;
            }
        }
        proof {
            lemma_filter_prefix(before, |b: ColumnBinding| b.column_number < column, low as int);
        }
        if low < self.bindings.len() && self.bindings[low].column_number == column {
            proof {
                lemma_filter_suffix(before, |b: ColumnBinding| b.column_number > column, low + 1);
            }
            self.bindings.set(low, binding);
        } else {
            proof {
                lemma_filter_suffix(
                    before,
                    |b: ColumnBinding| b.column_number > column,
                    low as int,
                );
            }
            self.bindings.insert(low, binding);
        }
        assert(self.bindings@ =~= rebound(before, binding));
        assert(self.bindings@[low as int] == binding);
    }

    /// Removes one column's binding, if it has one.
    pub fn clear_binding(&mut self, column_number: SqlUSmallInt)
        ensures
            final(self)@ == (StmtStateView {
                bindings: unbound(old(self)@.bindings, column_number),
                ..old(self)@
            }),
    {
        let mut kept: Vec<ColumnBinding> = Vec::new();
        let mut i: usize = 0;
        assert(kept@ =~= unbound(self.bindings@.take(0), column_number)) by {
            reveal(Seq::filter);
        }
        while i < self.bindings.len()
            invariant
                0 <= i <= self.bindings@.len(),
                *self == *old(self),
                kept@ == unbound(self.bindings@.take(i as int), column_number),
            decreases self.bindings.len() - i,
        {
            let binding = self.bindings[i];
            proof {
                reveal(Seq::filter);
                assert(self.bindings@.take(i + 1).drop_last() =~= self.bindings@.take(i as int));
            }
            if binding.column_number != column_number {
                kept.push(binding);
            }
            i = i + 1;
        }
        assert(self.bindings@.take(i as int) =~= self.bindings@);
        self.bindings = kept;
    }

    /// Drops every column binding.
    pub fn clear_bindings(&mut self)
        ensures
            final(self)@ == (StmtStateView { bindings: Seq::empty(), ..old(self)@ }),
    {
        self.bindings.clear();
    }

    /// Clears all row-stream state: the cursor is on no row, and no column is
    /// being read.
    pub fn reset_row_stream(&mut self)
        ensures
            final(self)@ == old(self)@.off_row(),
            !final(self).row_positioned,
            final(self).last_captured is None,
            final(self).last_variant_base is None,
            !final(self).row_exhausted,
            final(self).active_plp is None,
            final(self).current_row_last_col == 0,
            final(self).partial_text_offset is None,
    {
        self.row_positioned = false;
        self.last_captured = None;
        self.last_variant_base = None;
        self.row_exhausted = false;
        self.active_plp = None;
        self.current_row_last_col = 0;
        self.partial_text_offset = None;
    }

    /// Positions the row stream on a freshly fetched row, of which nothing has
    /// been read.
    pub fn begin_row(&mut self)
        ensures
            final(self)@ == (StmtStateView { row_positioned: true, ..old(self)@.off_row() }),
            final(self).row_positioned,
            final(self).last_captured is None,
            final(self).last_variant_base is None,
            !final(self).row_exhausted,
            final(self).active_plp is None,
            final(self).current_row_last_col == 0,
            final(self).partial_text_offset is None,
    {
        self.reset_row_stream();
        self.row_positioned = true;
    }

    /// Notes that the server handle of `id` awaits release. One noted before
    /// and not released yet is forgotten, and returned.
    pub fn defer_unprepare(&mut self, id: StatementId) -> (forgotten: Option<StatementId>)
        ensures
            forgotten == old(self).pending_unprepare,
            *final(self) == (StmtState { pending_unprepare: Some(id), ..*old(self) }),
    {
        let forgotten = self.pending_unprepare.take();
        self.pending_unprepare = Some(id);
        forgotten
    }

    /// Moves the prepared statement's live identity, if it has one, to where it
    /// awaits release, and keeps its SQL, so that the next execution prepares
    /// it again. Called when the prepared plan is superseded; no network I/O.
    ///
    /// An identity that was waiting already is forgotten, and returned: its
    /// server handle stays until the connection ends.
    pub fn orphan_prepared_handle(&mut self) -> (forgotten: Option<StatementId>)
        ensures
            forgotten == old(self)@.forgotten(),
            final(self)@ == old(self)@.orphaned(),
    {
        let taken = match self.prepared.as_mut() {
            Some(plan) => plan.stmt.take_id(),
            None => None,
        };
        match taken {
            Some(id) => self.defer_unprepare(id),
            None => None,
        }
    }
}

impl HasDiagnostics for StmtState {
    open spec fn diags(&self) -> Seq<DiagView> {
        self@.diags
    }

    open spec fn same_but_diags(&self, other: Self) -> bool {
        other == (StmtState { diag_records: other.diag_records, ..*self })
    }

    fn diag_records(&self) -> &[DiagRecord] {
        self.diag_records.as_slice()
    }

    fn diag_records_mut(&mut self) -> &mut Vec<DiagRecord> {
        &mut self.diag_records
    }
}

/// What a [`StmtHandle`] holds.
pub struct StmtView {
    pub object_type: HandleType,
    pub parent_dbc: SqlHandle,
    pub ard: SqlHandle,
    pub apd: SqlHandle,
    pub ird: SqlHandle,
    pub ipd: SqlHandle,
    pub inner: StmtStateView,
}

impl View for StmtHandle {
    type V = StmtView;

    open spec fn view(&self) -> StmtView {
        StmtView {
            object_type: self.object_type,
            parent_dbc: self.parent_dbc,
            ard: self.ard,
            apd: self.apd,
            ird: self.ird,
            ipd: self.ipd,
            inner: self.inner@,
        }
    }
}

impl StmtView {
    /// A statement that nothing was done with, with the given implicit
    /// descriptors.
    pub open spec fn fresh(
        parent_dbc: SqlHandle,
        ard: SqlHandle,
        apd: SqlHandle,
        ird: SqlHandle,
        ipd: SqlHandle,
    ) -> StmtView {
        StmtView {
            object_type: HandleType::Stmt,
            parent_dbc,
            ard,
            apd,
            ird,
            ipd,
            inner: StmtStateView::fresh(),
        }
    }

    /// The same statement, back on its own implicit descriptors where it used
    /// `desc`.
    pub open spec fn detached(self, desc: SqlHandle) -> StmtView {
        StmtView {
            inner: StmtStateView {
                active_ard: if self.inner.active_ard == Some(desc) {
                    None
                } else {
                    self.inner.active_ard
                },
                active_apd: if self.inner.active_apd == Some(desc) {
                    None
                } else {
                    self.inner.active_apd
                },
                ..self.inner
            },
            ..self
        }
    }
}

impl StmtHandle {
    /// A new statement on the connection `parent_dbc`. Its four implicit
    /// descriptors are allocated in `handles`, and go when the statement is
    /// freed, or discarded if it never gets a handle of its own.
    pub fn new(handles: &mut HandleTable, parent_dbc: SqlHandle) -> (stmt: Self)
        ensures
            stmt@ == StmtView::fresh(parent_dbc, stmt.ard, stmt.apd, stmt.ird, stmt.ipd),
            super::fresh_implicit(old(handles)@, stmt@),
            final(handles)@ == super::with_implicit(old(handles)@, stmt@),
    {
        let ard = handles.insert_desc(
            DescHandle::new(DescKind::AppRow, SQL_DESC_ALLOC_AUTO, parent_dbc),
        );
        let apd = handles.insert_desc(
            DescHandle::new(DescKind::AppParam, SQL_DESC_ALLOC_AUTO, parent_dbc),
        );
        let ird = handles.insert_desc(
            DescHandle::new(DescKind::ImpRow, SQL_DESC_ALLOC_AUTO, parent_dbc),
        );
        let ipd = handles.insert_desc(
            DescHandle::new(DescKind::ImpParam, SQL_DESC_ALLOC_AUTO, parent_dbc),
        );
        let stmt = StmtHandle {
            object_type: HandleType::Stmt,
            parent_dbc,
            ard,
            apd,
            ird,
            ipd,
            inner: StmtState {
                diag_records: Vec::new(),
                column_metadata: Vec::new(),
                prepared: None,
                parameter_metadata: Vec::new(),
                bound_params: Vec::new(),
                pending_unprepare: None,
                row_positioned: false,
                last_captured: None,
                last_variant_base: None,
                row_exhausted: false,
                active_plp: None,
                current_row_last_col: 0,
                partial_text_offset: None,
                row_count: -1,
                pending_row_counts: VecDeque::new(),
                row_array_size: 1,
                rows_fetched_ptr: SQL_NULL_PTR,
                row_status_ptr: SQL_NULL_PTR,
                row_bind_type: SQL_BIND_BY_COLUMN,
                row_bind_offset_ptr: SQL_NULL_PTR,
                bindings: Vec::new(),
                active_ard: None,
                active_apd: None,
                state_flags: 0,
            },
        };
        assert(stmt.inner@ =~= StmtStateView::fresh());
        stmt
    }

    /// The connection that this statement was allocated on.
    pub fn parent_dbc<'a>(&self, handles: &'a HandleTable) -> (dbc: &'a DbcHandle)
        requires
            super::is_dbc(handles@, self.parent_dbc),
        ensures
            dbc@ == super::dbc_at(handles@, self.parent_dbc),
    {
        handles.dbc(self.parent_dbc)
    }
}

impl HasObjectType for StmtHandle {
    open spec fn object_type_spec(&self) -> HandleType {
        self.object_type
    }

    open spec fn same_but_object_type(&self, other: Self) -> bool {
        other == (StmtHandle { object_type: other.object_type, ..*self })
    }

    fn object_type_mut(&mut self) -> &mut HandleType {
        &mut self.object_type
    }
}

} // verus!
