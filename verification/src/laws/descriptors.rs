//! Laws of descriptors.

use vstd::prelude::*;

use crate::api::odbc_types::{
    SqlHandle, SqlSmallInt, SqlUSmallInt, SQL_C_DEFAULT, SQL_DATETIME, SQL_DESC_ALLOC_TYPE,
    SQL_DESC_ALLOC_USER, SQL_DESC_ARRAY_SIZE, SQL_DESC_ARRAY_STATUS_PTR, SQL_DESC_BIND_OFFSET_PTR,
    SQL_DESC_BIND_TYPE, SQL_DESC_CONCISE_TYPE, SQL_DESC_COUNT, SQL_DESC_DATA_PTR,
    SQL_DESC_DATETIME_INTERVAL_CODE, SQL_DESC_INDICATOR_PTR, SQL_DESC_LENGTH, SQL_DESC_NAME,
    SQL_DESC_NULLABLE, SQL_DESC_OCTET_LENGTH, SQL_DESC_OCTET_LENGTH_PTR, SQL_DESC_PARAMETER_TYPE,
    SQL_DESC_PRECISION, SQL_DESC_ROWS_PROCESSED_PTR, SQL_DESC_SCALE, SQL_DESC_TYPE,
    SQL_DESC_UNNAMED, SQL_NULLABLE, SQL_PARAM_INPUT, SQL_ROWSET_SIZE_DEFAULT, SQL_TYPE_DATE,
    SQL_TYPE_TIMESTAMP,
};
use crate::handles::desc::{
    DescHeader, DescKind, DescRecordView, DescStateView, DescView, FieldScope,
};
use crate::handles::HandleType;

verus! {

/// The application descriptors, implicit and explicit, have the same fields
/// with the same access.
pub proof fn law_application_kinds_classify_alike(field: SqlUSmallInt)
    ensures
        crate::handles::desc::field_access(DescKind::Ad, field)
            == crate::handles::desc::field_access(DescKind::AppRow, field),
        crate::handles::desc::field_access(DescKind::Ad, field)
            == crate::handles::desc::field_access(DescKind::AppParam, field),
{
}

/// On an IRD every field is read-only but the two pointers through which a
/// fetch reports back, and those two can be written wherever they exist.
pub proof fn law_ird_is_read_only(kind: DescKind, field: SqlUSmallInt)
    ensures
        crate::handles::desc::field_access(DescKind::ImpRow, field) matches Some(access) ==> (
        access.writable <==> field == SQL_DESC_ARRAY_STATUS_PTR || field
            == SQL_DESC_ROWS_PROCESSED_PTR),
        (field == SQL_DESC_ARRAY_STATUS_PTR || field == SQL_DESC_ROWS_PROCESSED_PTR) ==> (
        crate::handles::desc::field_access(kind, field) matches Some(access) ==> access.writable),
{
}

/// On every kind but the IRD a field that the kind has can be written, unless
/// it is the allocation type or the nullability, which no kind can write.
pub proof fn law_what_can_be_written(kind: DescKind, field: SqlUSmallInt)
    requires
        kind != DescKind::ImpRow,
    ensures
        crate::handles::desc::field_access(kind, field) matches Some(access) ==> (access.writable
            <==> field != SQL_DESC_ALLOC_TYPE && field != SQL_DESC_NULLABLE),
{
}

/// Which kinds have a field: all of them the allocation type, the count, the
/// status pointer and what describes a type; the application descriptors where
/// the data is; the implementation descriptors what it is called and may be,
/// and how much was done; and the IPD alone the direction of a parameter. There
/// are no other fields.
pub proof fn law_which_kinds_have_a_field(kind: DescKind, field: SqlUSmallInt)
    ensures
        ({
            let application = kind == DescKind::AppRow || kind == DescKind::AppParam || kind
                == DescKind::Ad;
            crate::handles::desc::field_access(kind, field) is Some <==> {
                ||| field == SQL_DESC_ALLOC_TYPE
                ||| field == SQL_DESC_COUNT
                ||| field == SQL_DESC_ARRAY_STATUS_PTR
                ||| field == SQL_DESC_TYPE
                ||| field == SQL_DESC_CONCISE_TYPE
                ||| field == SQL_DESC_DATETIME_INTERVAL_CODE
                ||| field == SQL_DESC_LENGTH
                ||| field == SQL_DESC_OCTET_LENGTH
                ||| field == SQL_DESC_PRECISION
                ||| field == SQL_DESC_SCALE
                ||| field == SQL_DESC_ARRAY_SIZE && application
                ||| field == SQL_DESC_BIND_OFFSET_PTR && application
                ||| field == SQL_DESC_BIND_TYPE && application
                ||| field == SQL_DESC_DATA_PTR && application
                ||| field == SQL_DESC_INDICATOR_PTR && application
                ||| field == SQL_DESC_OCTET_LENGTH_PTR && application
                ||| field == SQL_DESC_ROWS_PROCESSED_PTR && !application
                ||| field == SQL_DESC_NULLABLE && !application
                ||| field == SQL_DESC_NAME && !application
                ||| field == SQL_DESC_UNNAMED && !application
                ||| field == SQL_DESC_PARAMETER_TYPE && kind == DescKind::ImpParam
            }
        }),
{
}

/// Where a field lives: in the header what is said once of a descriptor, and in
/// a record everything else.
pub proof fn law_where_a_field_lives(kind: DescKind, field: SqlUSmallInt)
    ensures
        crate::handles::desc::field_access(kind, field) matches Some(access) ==> (access.scope
            == FieldScope::Header <==> field == SQL_DESC_ALLOC_TYPE || field == SQL_DESC_COUNT
            || field == SQL_DESC_ARRAY_SIZE || field == SQL_DESC_ARRAY_STATUS_PTR || field
            == SQL_DESC_BIND_OFFSET_PTR || field == SQL_DESC_BIND_TYPE || field
            == SQL_DESC_ROWS_PROCESSED_PTR),
{
}

/// A field that can be written on an IRD can be written on every other kind that
/// has it.
pub proof fn law_ird_is_the_strictest(kind: DescKind, field: SqlUSmallInt)
    ensures
        crate::handles::desc::field_access(DescKind::ImpRow, field) matches Some(ird) ==> (
        crate::handles::desc::field_access(kind, field) matches Some(other) ==> (ird.writable
            ==> other.writable)),
{
}

/// The allocation type is a header field that every kind has and none can
/// write, so a descriptor's two copies of it never diverge.
pub proof fn law_alloc_type_is_fixed(kind: DescKind)
    ensures
        crate::handles::desc::field_access(kind, SQL_DESC_ALLOC_TYPE) matches Some(access)
            && access.scope == FieldScope::Header && !access.writable,
{
}

/// Whether a field is in the header or in a record does not depend on the kind.
pub proof fn law_scope_is_of_the_field(a: DescKind, b: DescKind, field: SqlUSmallInt)
    ensures
        crate::handles::desc::field_access(a, field) matches Some(x) ==> (
        crate::handles::desc::field_access(b, field) matches Some(y) ==> x.scope == y.scope),
{
}

/// The verbose type is its own verbose type.
pub proof fn law_verbose_type_is_settled(concise_type: SqlSmallInt)
    ensures
        crate::handles::desc::verbose_of(crate::handles::desc::verbose_of(concise_type))
            == crate::handles::desc::verbose_of(concise_type),
{
}

/// A type outside the datetime family is reported as it is, and one inside it
/// as the family.
pub proof fn law_only_datetime_types_fold(concise_type: SqlSmallInt)
    ensures
        concise_type < SQL_TYPE_DATE || concise_type > SQL_TYPE_TIMESTAMP
            ==> crate::handles::desc::verbose_of(concise_type) == concise_type,
        SQL_TYPE_DATE <= concise_type <= SQL_TYPE_TIMESTAMP ==> crate::handles::desc::verbose_of(
            concise_type,
        ) == SQL_DATETIME,
{
}

/// Two types that are reported alike are the same, or both of the datetime
/// family, the family itself among it.
pub proof fn law_reported_types_tell_types_apart(a: SqlSmallInt, b: SqlSmallInt)
    requires
        crate::handles::desc::verbose_of(a) == crate::handles::desc::verbose_of(b),
    ensures
        a == b || ((a == SQL_DATETIME || SQL_TYPE_DATE <= a <= SQL_TYPE_TIMESTAMP) && (b
            == SQL_DATETIME || SQL_TYPE_DATE <= b <= SQL_TYPE_TIMESTAMP)),
{
}

/// A new descriptor has no records and no diagnostics, a rowset of the default
/// size bound by column, and null pointers; it is of the kind, allocation type
/// and connection that were asked for, and says the same allocation type in its
/// header.
pub proof fn law_a_new_descriptor_is_blank(
    kind: DescKind,
    alloc_type: SqlSmallInt,
    parent_dbc: SqlHandle,
)
    ensures
        ({
            let d = DescView::fresh(kind, alloc_type, parent_dbc);
            &&& d.object_type == HandleType::Desc
            &&& d.kind == kind
            &&& d.alloc_type == alloc_type
            &&& d.parent_dbc == parent_dbc
            &&& d.inner.diags.len() == 0
            &&& d.inner.records.len() == 0
            &&& d.inner.header.alloc_type == alloc_type
            &&& d.inner.header.array_size == SQL_ROWSET_SIZE_DEFAULT
            &&& d.inner.header.array_size == 1
            &&& d.inner.header.bind_type == 0
            &&& d.inner.header.array_status_ptr == 0
            &&& d.inner.header.bind_offset_ptr == 0
            &&& d.inner.header.rows_processed_ptr == 0
            &&& d.explicit() <==> alloc_type == SQL_DESC_ALLOC_USER
        }),
{
}

/// How a descriptor is allocated shows in its allocation type and nowhere else.
pub proof fn law_new_headers_differ_in_allocation_type(a: SqlSmallInt, b: SqlSmallInt)
    ensures
        DescHeader::fresh(a) == (DescHeader { alloc_type: a, ..DescHeader::fresh(b) }),
{
}

/// A new record is zero, null and nameless throughout, but for the type of an
/// application record, which follows what it is bound to, and the direction and
/// nullability of a parameter.
pub proof fn law_a_new_record_is_blank(kind: DescKind)
    ensures
        ({
            let r = crate::handles::desc::fresh_record(kind);
            let application = kind == DescKind::AppRow || kind == DescKind::AppParam || kind
                == DescKind::Ad;
            &&& application ==> r.concise_type == SQL_C_DEFAULT
            &&& !application ==> r.concise_type == 0
            &&& kind == DescKind::ImpParam ==> r.parameter_type == SQL_PARAM_INPUT && r.nullable
                == SQL_NULLABLE
            &&& kind != DescKind::ImpParam ==> r.parameter_type == 0 && r.nullable == 0
            &&& r.datetime_interval_code == 0
            &&& r.length == 0
            &&& r.octet_length == 0
            &&& r.precision == 0
            &&& r.scale == 0
            &&& r.name.len() == 0
            &&& r.data_ptr == 0
            &&& r.indicator_ptr == 0
            &&& r.octet_length_ptr == 0
        }),
{
}

/// A record exists from number one to the count, and nowhere else.
pub proof fn law_records_are_numbered_from_one(state: DescStateView, number: int)
    ensures
        state.has_record(number) <==> 0 < number && number - 1 < state.records.len(),
{
}

/// Resizing keeps every record that is in both lists, makes every further one
/// fresh, and does nothing when the length is the same.
pub proof fn law_resize_keeps_existing_records(
    records: Seq<DescRecordView>,
    count: nat,
    kind: DescKind,
    i: int,
)
    requires
        0 <= i < count,
    ensures
        crate::handles::desc::resized(records, count, kind).len() == count,
        i < records.len() ==> crate::handles::desc::resized(records, count, kind)[i] == records[i],
        i >= records.len() ==> crate::handles::desc::resized(records, count, kind)[i]
            == crate::handles::desc::fresh_record(kind),
        count == records.len() ==> crate::handles::desc::resized(records, count, kind) == records,
{
}

/// Shrinking discards for good: records that come back by growing again are
/// fresh.
pub proof fn law_discarded_records_come_back_fresh(
    records: Seq<DescRecordView>,
    fewer: nat,
    more: nat,
    kind: DescKind,
)
    requires
        fewer <= records.len(),
        fewer <= more,
    ensures
        crate::handles::desc::resized(
            crate::handles::desc::resized(records, fewer, kind),
            more,
            kind,
        ) == records.take(fewer as int) + Seq::new(
            (more - fewer) as nat,
            |i: int| crate::handles::desc::fresh_record(kind),
        ),
{
}

} // verus!
