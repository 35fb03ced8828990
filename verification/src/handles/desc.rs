//! Descriptor header and record data model (ARD/APD/IRD/IPD).
//!
//! One record shape ([`DescRecord`]) and one header shape ([`DescHeader`])
//! serve every descriptor kind; [`classify_field`] is the single table that
//! says which field applies to which kind, and whether it can be written.
//!
//! A descriptor stores its own copy of the fields that ODBC also exposes as
//! statement attributes (`SQL_DESC_ARRAY_SIZE`, `SQL_DESC_BIND_TYPE`,
//! `SQL_DESC_ARRAY_STATUS_PTR`, `SQL_DESC_ROWS_PROCESSED_PTR`); the two copies
//! are not aliased. Catalog-style descriptive fields (`SQL_DESC_LABEL`,
//! `SQL_DESC_TABLE_NAME` and the like) are not descriptor storage and are
//! classified as undefined.

use vstd::prelude::*;

use super::{HandleType, HasObjectType};
use crate::api::odbc_types::{
    SqlHandle, SqlInteger, SqlLen, SqlPointer, SqlSmallInt, SqlULen, SqlUSmallInt, SQL_C_DEFAULT,
    SQL_DATETIME, SQL_DESC_ALLOC_AUTO, SQL_DESC_ALLOC_TYPE, SQL_DESC_ALLOC_USER,
    SQL_DESC_ARRAY_SIZE, SQL_DESC_ARRAY_STATUS_PTR, SQL_DESC_BIND_OFFSET_PTR, SQL_DESC_BIND_TYPE,
    SQL_DESC_CONCISE_TYPE, SQL_DESC_COUNT, SQL_DESC_DATA_PTR, SQL_DESC_DATETIME_INTERVAL_CODE,
    SQL_DESC_INDICATOR_PTR, SQL_DESC_LENGTH, SQL_DESC_NAME, SQL_DESC_NULLABLE,
    SQL_DESC_OCTET_LENGTH, SQL_DESC_OCTET_LENGTH_PTR, SQL_DESC_PARAMETER_TYPE, SQL_DESC_PRECISION,
    SQL_DESC_ROWS_PROCESSED_PTR, SQL_DESC_SCALE, SQL_DESC_TYPE, SQL_DESC_UNNAMED, SQL_NULLABLE,
    SQL_NULL_PTR, SQL_PARAM_INPUT, SQL_ROWSET_SIZE_DEFAULT, SQL_TYPE_DATE, SQL_TYPE_TIMESTAMP,
};
use crate::error::{DiagRecord, DiagView, HasDiagnostics};

verus! {

/// The descriptor shapes: the four that every statement owns from creation
/// (application/implementation row/parameter), and the one that an application
/// allocates explicitly.
#[derive(Debug, Clone, Copy, PartialEq, Eq, Structural)]
pub enum DescKind {
    AppRow,
    AppParam,
    ImpRow,
    ImpParam,
    /// An explicitly allocated application descriptor. It has no fixed
    /// row-or-parameter role: it can be one statement's ARD and another's APD
    /// at the same time.
    Ad,
}

impl DescKind {
    /// `true` for the descriptors an application binds directly; `false` for
    /// the driver-owned implementation descriptors (IRD/IPD).
    pub fn is_application(self) -> (yes: bool)
        ensures
            yes == (self != DescKind::ImpRow && self != DescKind::ImpParam),
    {
        matches!(self, DescKind::AppRow | DescKind::AppParam | DescKind::Ad)
    }
}

/// Descriptor handle.
#[derive(Debug)]
pub struct DescHandle {
    pub object_type: HandleType,
    pub kind: DescKind,
    /// `SQL_DESC_ALLOC_TYPE`: `SQL_DESC_ALLOC_AUTO` for a statement's implicit
    /// descriptors, `SQL_DESC_ALLOC_USER` for an explicit one. The header holds
    /// the copy that applications read; the two never diverge, because the
    /// field is read-only for every kind.
    pub alloc_type: SqlSmallInt,
    /// The owning connection. Fixed at construction.
    pub parent_dbc: SqlHandle,
    pub inner: DescState,
}

/// Header fields (`RecNumber == 0`). Which of them apply to a descriptor is
/// decided by [`classify_field`], not by their presence here.
#[derive(Debug, Clone, Copy)]
pub struct DescHeader {
    /// `SQL_DESC_ALLOC_TYPE`.
    pub alloc_type: SqlSmallInt,
    /// `SQL_DESC_ARRAY_SIZE`. ARD/APD only.
    pub array_size: SqlULen,
    /// `SQL_DESC_ARRAY_STATUS_PTR`. All kinds.
    pub array_status_ptr: SqlPointer,
    /// `SQL_DESC_BIND_OFFSET_PTR`. ARD/APD only.
    pub bind_offset_ptr: SqlPointer,
    /// `SQL_DESC_BIND_TYPE`. ARD/APD only. `SQLINTEGER` wide, unlike the
    /// statement attribute `SQL_ATTR_ROW_BIND_TYPE`, which is `SQLULEN`.
    pub bind_type: SqlInteger,
    /// `SQL_DESC_ROWS_PROCESSED_PTR`. IRD/IPD only.
    pub rows_processed_ptr: SqlPointer,
}

impl DescHeader {
    /// The header of a new descriptor of the given `SQL_DESC_ALLOC_TYPE`.
    pub open spec fn fresh(alloc_type: SqlSmallInt) -> DescHeader {
        DescHeader {
            alloc_type,
            array_size: 1,
            array_status_ptr: 0,
            bind_offset_ptr: 0,
            bind_type: 0,
            rows_processed_ptr: 0,
        }
    }
}

impl Default for DescHeader {
    fn default() -> (header: Self)
        ensures
            header == DescHeader::fresh(SQL_DESC_ALLOC_AUTO),
    {
        DescHeader {
            alloc_type: SQL_DESC_ALLOC_AUTO,
            array_size: SQL_ROWSET_SIZE_DEFAULT,
            array_status_ptr: SQL_NULL_PTR,
            bind_offset_ptr: SQL_NULL_PTR,
            // Column-wise binding.
            bind_type: 0,
            rows_processed_ptr: SQL_NULL_PTR,
        }
    }
}

/// One descriptor record (`RecNumber >= 1`). A field's validity for a kind is
/// decided by [`classify_field`].
#[derive(Debug, Clone)]
pub struct DescRecord {
    /// `SQL_DESC_CONCISE_TYPE`. `SQL_DESC_TYPE` is derived from it.
    pub concise_type: SqlSmallInt,
    /// `SQL_DESC_DATETIME_INTERVAL_CODE`. Zero when not a datetime type.
    pub datetime_interval_code: SqlSmallInt,
    /// `SQL_DESC_LENGTH`.
    pub length: SqlULen,
    /// `SQL_DESC_OCTET_LENGTH`.
    pub octet_length: SqlLen,
    /// `SQL_DESC_PRECISION`.
    pub precision: SqlSmallInt,
    /// `SQL_DESC_SCALE`.
    pub scale: SqlSmallInt,
    /// `SQL_DESC_NULLABLE`. IRD/IPD only, never writable.
    pub nullable: SqlSmallInt,
    /// `SQL_DESC_NAME`. IRD/IPD only, writable on IPD only. `SQL_DESC_UNNAMED`
    /// is derived from it.
    pub name: String,
    /// `SQL_DESC_PARAMETER_TYPE`. IPD only.
    pub parameter_type: SqlSmallInt,
    /// `SQL_DESC_DATA_PTR`. ARD/APD only; an address that is stored and handed
    /// back, never read through.
    pub data_ptr: SqlPointer,
    /// `SQL_DESC_INDICATOR_PTR`. ARD/APD only; see `data_ptr`.
    pub indicator_ptr: SqlPointer,
    /// `SQL_DESC_OCTET_LENGTH_PTR`. ARD/APD only; see `data_ptr`.
    pub octet_length_ptr: SqlPointer,
}

/// What a [`DescRecord`] holds.
pub struct DescRecordView {
    pub concise_type: SqlSmallInt,
    pub datetime_interval_code: SqlSmallInt,
    pub length: SqlULen,
    pub octet_length: SqlLen,
    pub precision: SqlSmallInt,
    pub scale: SqlSmallInt,
    pub nullable: SqlSmallInt,
    pub name: Seq<char>,
    pub parameter_type: SqlSmallInt,
    pub data_ptr: SqlPointer,
    pub indicator_ptr: SqlPointer,
    pub octet_length_ptr: SqlPointer,
}

impl View for DescRecord {
    type V = DescRecordView;

    open spec fn view(&self) -> DescRecordView {
        DescRecordView {
            concise_type: self.concise_type,
            datetime_interval_code: self.datetime_interval_code,
            length: self.length,
            octet_length: self.octet_length,
            precision: self.precision,
            scale: self.scale,
            nullable: self.nullable,
            name: self.name@,
            parameter_type: self.parameter_type,
            data_ptr: self.data_ptr,
            indicator_ptr: self.indicator_ptr,
            octet_length_ptr: self.octet_length_ptr,
        }
    }
}

/// The verbose form of a concise type: the datetime family is one verbose
/// type, and every other type is its own.
pub open spec fn verbose_of(concise_type: SqlSmallInt) -> SqlSmallInt {
    if SQL_TYPE_DATE <= concise_type <= SQL_TYPE_TIMESTAMP {
        SQL_DATETIME
    } else {
        concise_type
    }
}

/// A record of a `kind` descriptor that nothing has written to: zero, null and
/// empty throughout, except that an application record takes its type from the
/// column or parameter it is bound to, and an implementation parameter is a
/// nullable input.
pub open spec fn fresh_record(kind: DescKind) -> DescRecordView {
    DescRecordView {
        concise_type: match kind {
            DescKind::ImpRow | DescKind::ImpParam => 0,
            _ => SQL_C_DEFAULT,
        },
        datetime_interval_code: 0,
        length: 0,
        octet_length: 0,
        precision: 0,
        scale: 0,
        nullable: if kind == DescKind::ImpParam {
            SQL_NULLABLE
        } else {
            0
        },
        name: Seq::empty(),
        parameter_type: if kind == DescKind::ImpParam {
            SQL_PARAM_INPUT
        } else {
            0
        },
        data_ptr: 0,
        indicator_ptr: 0,
        octet_length_ptr: 0,
    }
}

impl DescRecord {
    /// A freshly grown record of a descriptor of the given kind.
    pub fn default_for(kind: DescKind) -> (record: Self)
        ensures
            record@ == fresh_record(kind),
    {
        let (concise_type, parameter_type, nullable) = match kind {
            DescKind::AppRow | DescKind::AppParam | DescKind::Ad => (SQL_C_DEFAULT, 0, 0),
            DescKind::ImpParam => (0, SQL_PARAM_INPUT, SQL_NULLABLE),
            DescKind::ImpRow => (0, 0, 0),
        };
        DescRecord {
            concise_type,
            datetime_interval_code: 0,
            length: 0,
            octet_length: 0,
            precision: 0,
            scale: 0,
            nullable,
            name: String::new(),
            parameter_type,
            data_ptr: SQL_NULL_PTR,
            indicator_ptr: SQL_NULL_PTR,
            octet_length_ptr: SQL_NULL_PTR,
        }
    }

    /// `SQL_DESC_TYPE`, the verbose form of `concise_type`. Interval types are
    /// not folded: SQL Server has none.
    pub fn verbose_type(&self) -> (verbose: SqlSmallInt)
        ensures
            verbose == verbose_of(self.concise_type),
            self.concise_type < SQL_TYPE_DATE || self.concise_type > SQL_TYPE_TIMESTAMP ==> verbose
                == self.concise_type,
            SQL_TYPE_DATE <= self.concise_type <= SQL_TYPE_TIMESTAMP ==> verbose == SQL_DATETIME,
    {
        if SQL_TYPE_DATE <= self.concise_type && self.concise_type <= SQL_TYPE_TIMESTAMP {
            SQL_DATETIME
        } else {
            self.concise_type
        }
    }
}

/// Mutable state of a descriptor.
#[derive(Debug)]
pub struct DescState {
    pub diag_records: Vec<DiagRecord>,
    pub header: DescHeader,
    /// `records[0]` is record number 1.
    pub records: Vec<DescRecord>,
}

/// What a [`DescState`] holds.
#[verifier::ext_equal]
pub struct DescStateView {
    pub diags: Seq<DiagView>,
    pub header: DescHeader,
    pub records: Seq<DescRecordView>,
}

/// What a list of records holds.
pub open spec fn record_views(records: Seq<DescRecord>) -> Seq<DescRecordView> {
    records.map_values(|r: DescRecord| r@)
}

impl View for DescState {
    type V = DescStateView;

    open spec fn view(&self) -> DescStateView {
        DescStateView {
            diags: crate::error::diag_views(self.diag_records@),
            header: self.header,
            records: record_views(self.records@),
        }
    }
}

impl DescStateView {
    /// Whether record number `record_number` exists.
    pub open spec fn has_record(self, record_number: int) -> bool {
        1 <= record_number <= self.records.len()
    }
}

/// `records` made `count` long: a longer list loses its tail, a shorter one is
/// continued with fresh records, and what stays is left as it is.
pub open spec fn resized(records: Seq<DescRecordView>, count: nat, kind: DescKind) -> Seq<
    DescRecordView,
> {
    Seq::new(
        count,
        |i: int|
            if i < records.len() {
                records[i]
            } else {
                fresh_record(kind)
            },
    )
}

impl DescState {
    /// The record at 1-based `record_number`, or `None` if there is none.
    pub fn record(&self, record_number: SqlSmallInt) -> (found: Option<&DescRecord>)
        ensures
            self@.has_record(record_number as int) <==> found is Some,
            found is Some <==> 1 <= record_number <= self.records@.len(),
            found matches Some(record) ==> *record == self.records@[record_number - 1],
    {
        if record_number < 1 {
            return None;
        }
        let index: usize = record_number as usize - 1;
        if index < self.records.len() {
            Some(&self.records[index])
        } else {
            None
        }
    }

    /// Mutable counterpart of [`Self::record`].
    pub fn record_mut(&mut self, record_number: SqlSmallInt) -> (found: Option<&mut DescRecord>)
        ensures
            old(self)@.has_record(record_number as int) <==> found is Some,
            found is Some <==> 1 <= record_number <= old(self).records@.len(),
            found matches Some(record) ==> {
                &&& *record == old(self).records@[record_number - 1]
                &&& final(self).records@ == old(self).records@.update(
                    record_number - 1,
                    *final(record),
                )
                &&& final(self).header == old(self).header
                &&& final(self).diag_records == old(self).diag_records
            },
            found is None ==> *final(self) == *old(self),
    {
        if record_number < 1 {
            return None;
        }
        let index: usize = record_number as usize - 1;
        if index < self.records.len() {
            Some(&mut self.records[index])
        } else {
            None
        }
    }

    /// Grows or shrinks the record list to `count`, as writing
    /// `SQL_DESC_COUNT` does.
    pub fn set_record_count(&mut self, count: usize, kind: DescKind)
        ensures
            final(self)@ == (DescStateView {
                records: resized(old(self)@.records, count as nat, kind),
                ..old(self)@
            }),
            final(self).records@.len() == count,
            forall|i: int|
                0 <= i < count && i < old(self).records@.len() ==> final(self).records@[i] == old(
                    self,
                ).records@[i],
    {
        if count < self.records.len() {
            self.records.truncate(count);
        } else {
            while self.records.len() < count
                invariant
                    old(self).records@.len() <= self.records@.len() <= count,
                    self.header == old(self).header,
                    self.diag_records == old(self).diag_records,
                    forall|i: int|
                        0 <= i < old(self).records@.len() ==> self.records@[i] == old(
                            self,
                        ).records@[i],
                    forall|i: int|
                        old(self).records@.len() <= i < self.records@.len()
                            ==> (#[trigger] self.records@[i])@ == fresh_record(kind),
                decreases count - self.records.len(),
            {
                self.records.push(DescRecord::default_for(kind));
            }
        }
        assert(self@.records =~= resized(old(self)@.records, count as nat, kind));
    }
}

/// What a [`DescHandle`] holds.
pub struct DescView {
    pub object_type: HandleType,
    pub kind: DescKind,
    pub alloc_type: SqlSmallInt,
    pub parent_dbc: SqlHandle,
    pub inner: DescStateView,
}

impl View for DescHandle {
    type V = DescView;

    open spec fn view(&self) -> DescView {
        DescView {
            object_type: self.object_type,
            kind: self.kind,
            alloc_type: self.alloc_type,
            parent_dbc: self.parent_dbc,
            inner: self.inner@,
        }
    }
}

impl DescView {
    /// A descriptor that nothing has written to.
    pub open spec fn fresh(
        kind: DescKind,
        alloc_type: SqlSmallInt,
        parent_dbc: SqlHandle,
    ) -> DescView {
        DescView {
            object_type: HandleType::Desc,
            kind,
            alloc_type,
            parent_dbc,
            inner: DescStateView {
                diags: Seq::empty(),
                header: DescHeader::fresh(alloc_type),
                records: Seq::empty(),
            },
        }
    }

    /// Whether an application allocated this descriptor.
    pub open spec fn explicit(self) -> bool {
        self.alloc_type == SQL_DESC_ALLOC_USER
    }
}

impl DescHandle {
    pub fn new(kind: DescKind, alloc_type: SqlSmallInt, parent_dbc: SqlHandle) -> (handle: Self)
        ensures
            handle@ == DescView::fresh(kind, alloc_type, parent_dbc),
            handle.object_type == HandleType::Desc,
            handle.kind == kind,
            handle.alloc_type == alloc_type,
            handle.parent_dbc == parent_dbc,
            handle.inner.diag_records@.len() == 0,
            handle.inner.records@.len() == 0,
            handle.inner.header.alloc_type == alloc_type,
            handle.inner.header.array_size == SQL_ROWSET_SIZE_DEFAULT,
            handle.inner.header.bind_type == 0,
            handle.inner.header.array_status_ptr == 0,
            handle.inner.header.bind_offset_ptr == 0,
            handle.inner.header.rows_processed_ptr == 0,
    {
        let handle = DescHandle {
            object_type: HandleType::Desc,
            kind,
            alloc_type,
            parent_dbc,
            inner: DescState {
                diag_records: Vec::new(),
                header: DescHeader { alloc_type, ..DescHeader::default() },
                records: Vec::new(),
            },
        };
        assert(handle.inner@ =~= DescView::fresh(kind, alloc_type, parent_dbc).inner);
        handle
    }

    /// `true` for an explicitly allocated descriptor, `false` for one of the
    /// four that a statement owns from creation.
    pub fn is_explicit(&self) -> (yes: bool)
        ensures
            yes == self@.explicit(),
            yes <==> self.alloc_type == SQL_DESC_ALLOC_USER,
    {
        self.alloc_type == SQL_DESC_ALLOC_USER
    }
}

impl HasObjectType for DescHandle {
    open spec fn object_type_spec(&self) -> HandleType {
        self.object_type
    }

    open spec fn same_but_object_type(&self, other: Self) -> bool {
        other == (DescHandle { object_type: other.object_type, ..*self })
    }

    fn object_type_mut(&mut self) -> &mut HandleType {
        &mut self.object_type
    }
}

impl HasDiagnostics for DescState {
    open spec fn diags(&self) -> Seq<DiagView> {
        self@.diags
    }

    open spec fn same_but_diags(&self, other: Self) -> bool {
        other == (DescState { diag_records: other.diag_records, ..*self })
    }

    fn diag_records(&self) -> &[DiagRecord] {
        self.diag_records.as_slice()
    }

    fn diag_records_mut(&mut self) -> &mut Vec<DiagRecord> {
        &mut self.diag_records
    }
}

/// Where a `SQL_DESC_*` field's value lives.
#[derive(Debug, Clone, Copy, PartialEq, Eq, Structural)]
pub enum FieldScope {
    /// `RecordNumber` must be `0`; the value applies to the whole descriptor.
    Header,
    /// `RecordNumber` must be `>= 1`; the value applies to one record.
    Record,
}

/// A field's supported operations for one descriptor kind.
#[derive(Debug, Clone, Copy, PartialEq, Eq, Structural)]
pub struct FieldAccess {
    pub scope: FieldScope,
    pub writable: bool,
}

/// The fields of the header.
pub open spec fn is_header_field(field: SqlUSmallInt) -> bool {
    ||| field == SQL_DESC_ALLOC_TYPE
    ||| field == SQL_DESC_COUNT
    ||| field == SQL_DESC_ARRAY_SIZE
    ||| field == SQL_DESC_ARRAY_STATUS_PTR
    ||| field == SQL_DESC_BIND_OFFSET_PTR
    ||| field == SQL_DESC_BIND_TYPE
    ||| field == SQL_DESC_ROWS_PROCESSED_PTR
}

/// The record fields that every descriptor has.
pub open spec fn is_common_record_field(field: SqlUSmallInt) -> bool {
    ||| field == SQL_DESC_TYPE
    ||| field == SQL_DESC_CONCISE_TYPE
    ||| field == SQL_DESC_DATETIME_INTERVAL_CODE
    ||| field == SQL_DESC_LENGTH
    ||| field == SQL_DESC_OCTET_LENGTH
    ||| field == SQL_DESC_PRECISION
    ||| field == SQL_DESC_SCALE
}

/// The fields that only application descriptors have.
pub open spec fn is_application_field(field: SqlUSmallInt) -> bool {
    ||| field == SQL_DESC_ARRAY_SIZE
    ||| field == SQL_DESC_BIND_OFFSET_PTR
    ||| field == SQL_DESC_BIND_TYPE
    ||| field == SQL_DESC_DATA_PTR
    ||| field == SQL_DESC_INDICATOR_PTR
    ||| field == SQL_DESC_OCTET_LENGTH_PTR
}

/// The fields that both implementation descriptors, and they alone, have.
pub open spec fn is_implementation_field(field: SqlUSmallInt) -> bool {
    ||| field == SQL_DESC_ROWS_PROCESSED_PTR
    ||| field == SQL_DESC_NULLABLE
    ||| field == SQL_DESC_NAME
    ||| field == SQL_DESC_UNNAMED
}

/// Whether a descriptor of this kind has the field.
pub open spec fn field_defined(kind: DescKind, field: SqlUSmallInt) -> bool {
    ||| field == SQL_DESC_ALLOC_TYPE
    ||| field == SQL_DESC_COUNT
    ||| field == SQL_DESC_ARRAY_STATUS_PTR
    ||| is_common_record_field(field)
    ||| match kind {
        DescKind::AppRow | DescKind::AppParam | DescKind::Ad => is_application_field(field),
        DescKind::ImpRow => is_implementation_field(field),
        DescKind::ImpParam => is_implementation_field(field) || field == SQL_DESC_PARAMETER_TYPE,
    }
}

/// Whether an application may write a field that the kind has: never the
/// allocation type or the nullability, and on an IRD only the two pointers
/// through which a fetch reports back.
pub open spec fn field_writable(kind: DescKind, field: SqlUSmallInt) -> bool {
    &&& field != SQL_DESC_ALLOC_TYPE
    &&& field != SQL_DESC_NULLABLE
    &&& kind == DescKind::ImpRow ==> field == SQL_DESC_ARRAY_STATUS_PTR || field
        == SQL_DESC_ROWS_PROCESSED_PTR
}

/// What a descriptor of this kind allows on a field; `None` if it has no such
/// field.
pub open spec fn field_access(kind: DescKind, field: SqlUSmallInt) -> Option<FieldAccess> {
    if field_defined(kind, field) {
        Some(
            FieldAccess {
                scope: if is_header_field(field) {
                    FieldScope::Header
                } else {
                    FieldScope::Record
                },
                writable: field_writable(kind, field),
            },
        )
    } else {
        None
    }
}

/// Classifies a `SQL_DESC_*` field identifier for a descriptor kind.
///
/// `None` covers both an identifier that is no descriptor field here and a
/// field that the kind does not have; ODBC reports either as `HY091`.
pub fn classify_field(kind: DescKind, field: SqlUSmallInt) -> (access: Option<FieldAccess>)
    ensures
        access == field_access(kind, field),
        kind != DescKind::ImpRow ==> (access matches Some(a) ==> (a.writable <==> field
            != SQL_DESC_ALLOC_TYPE && field != SQL_DESC_NULLABLE)),
        kind == DescKind::ImpRow ==> (access matches Some(a) ==> (a.writable <==> field
            == SQL_DESC_ARRAY_STATUS_PTR || field == SQL_DESC_ROWS_PROCESSED_PTR)),
{
    let is_ad = kind.is_application();
    let is_ird = matches!(kind, DescKind::ImpRow);
    let is_ipd = matches!(kind, DescKind::ImpParam);

    let (scope, writable) = match field {
        // ---- Header fields ----------------------------------------------
        SQL_DESC_ALLOC_TYPE => (FieldScope::Header, false),
        SQL_DESC_COUNT => (FieldScope::Header, !is_ird),
        SQL_DESC_ARRAY_SIZE if is_ad => (FieldScope::Header, true),
        SQL_DESC_ARRAY_STATUS_PTR => (FieldScope::Header, true),
        SQL_DESC_BIND_OFFSET_PTR if is_ad => (FieldScope::Header, true),
        SQL_DESC_BIND_TYPE if is_ad => (FieldScope::Header, true),
        SQL_DESC_ROWS_PROCESSED_PTR if is_ird || is_ipd => (FieldScope::Header, true),

        // ---- Record fields common to every kind -------------------------
        SQL_DESC_TYPE
        | SQL_DESC_CONCISE_TYPE
        | SQL_DESC_DATETIME_INTERVAL_CODE
        | SQL_DESC_LENGTH
        | SQL_DESC_OCTET_LENGTH
        | SQL_DESC_PRECISION
        | SQL_DESC_SCALE => (FieldScope::Record, !is_ird),

        // ---- Record fields specific to application descriptors ----------
        SQL_DESC_DATA_PTR if is_ad => (FieldScope::Record, true),
        SQL_DESC_INDICATOR_PTR if is_ad => (FieldScope::Record, true),
        SQL_DESC_OCTET_LENGTH_PTR if is_ad => (FieldScope::Record, true),

        // ---- Record fields specific to implementation descriptors -------
        SQL_DESC_NULLABLE if is_ird || is_ipd => (FieldScope::Record, false),
        SQL_DESC_NAME if is_ird || is_ipd => (FieldScope::Record, is_ipd),
        // Derived from the name on read; the one legal write, on an IPD,
        // clears the parameter name.
        SQL_DESC_UNNAMED if is_ird || is_ipd => (FieldScope::Record, is_ipd),
        SQL_DESC_PARAMETER_TYPE if is_ipd => (FieldScope::Record, true),

        _ => return None,
    };
    Some(FieldAccess { scope, writable })
}

} // verus!
