//! Descriptors: field classification, records, and handles.

use mssql_odbc::api::odbc_types::{
    SqlUSmallInt, SQL_C_DEFAULT, SQL_DATETIME, SQL_DESC_ALLOC_AUTO, SQL_DESC_ALLOC_TYPE,
    SQL_DESC_ALLOC_USER, SQL_DESC_ARRAY_SIZE, SQL_DESC_ARRAY_STATUS_PTR, SQL_DESC_BIND_OFFSET_PTR,
    SQL_DESC_BIND_TYPE, SQL_DESC_CONCISE_TYPE, SQL_DESC_COUNT, SQL_DESC_DATA_PTR,
    SQL_DESC_DATETIME_INTERVAL_CODE, SQL_DESC_INDICATOR_PTR, SQL_DESC_LENGTH, SQL_DESC_NAME,
    SQL_DESC_NULLABLE, SQL_DESC_OCTET_LENGTH, SQL_DESC_OCTET_LENGTH_PTR, SQL_DESC_PARAMETER_TYPE,
    SQL_DESC_PRECISION, SQL_DESC_ROWS_PROCESSED_PTR, SQL_DESC_SCALE, SQL_DESC_TYPE,
    SQL_DESC_UNNAMED, SQL_INTEGER, SQL_NULLABLE, SQL_NULL_HANDLE, SQL_PARAM_INPUT,
    SQL_ROWSET_SIZE_DEFAULT, SQL_TYPE_DATE, SQL_TYPE_TIMESTAMP,
};
use mssql_odbc::error::{post_sql_error, HasDiagnostics};
use mssql_odbc::handles::desc::{
    classify_field, DescHandle, DescHeader, DescKind, DescRecord, DescState, FieldScope,
};
use mssql_odbc::handles::{HandleType, HasObjectType};

const ALL_KINDS: [DescKind; 5] = [
    DescKind::AppRow,
    DescKind::AppParam,
    DescKind::ImpRow,
    DescKind::ImpParam,
    DescKind::Ad,
];

#[test]
fn alloc_type_is_read_only_header_field_everywhere() {
    for kind in ALL_KINDS {
        let access = classify_field(kind, SQL_DESC_ALLOC_TYPE).unwrap();
        assert_eq!(access.scope, FieldScope::Header);
        assert!(!access.writable, "{kind:?}");
    }
}

#[test]
fn count_is_writable_everywhere_except_ird() {
    for kind in ALL_KINDS {
        let access = classify_field(kind, SQL_DESC_COUNT).unwrap();
        assert_eq!(access.scope, FieldScope::Header);
        assert_eq!(access.writable, kind != DescKind::ImpRow, "{kind:?}");
    }
}

#[test]
fn array_size_and_bind_fields_are_ad_only() {
    for field in [
        SQL_DESC_ARRAY_SIZE,
        SQL_DESC_BIND_OFFSET_PTR,
        SQL_DESC_BIND_TYPE,
    ] {
        assert!(classify_field(DescKind::AppRow, field).is_some());
        assert!(classify_field(DescKind::AppParam, field).is_some());
        assert!(classify_field(DescKind::ImpRow, field).is_none());
        assert!(classify_field(DescKind::ImpParam, field).is_none());
    }
}

#[test]
fn rows_processed_ptr_is_implementation_only() {
    assert!(classify_field(DescKind::AppRow, SQL_DESC_ROWS_PROCESSED_PTR).is_none());
    assert!(classify_field(DescKind::AppParam, SQL_DESC_ROWS_PROCESSED_PTR).is_none());
    assert!(classify_field(DescKind::ImpRow, SQL_DESC_ROWS_PROCESSED_PTR).is_some());
    assert!(classify_field(DescKind::ImpParam, SQL_DESC_ROWS_PROCESSED_PTR).is_some());
}

#[test]
fn array_status_ptr_is_writable_on_every_kind_including_ird() {
    for kind in ALL_KINDS {
        let access = classify_field(kind, SQL_DESC_ARRAY_STATUS_PTR).unwrap();
        assert!(access.writable, "{kind:?}");
    }
}

#[test]
fn common_record_fields_are_read_only_on_ird_only() {
    for field in [
        SQL_DESC_TYPE,
        SQL_DESC_CONCISE_TYPE,
        SQL_DESC_DATETIME_INTERVAL_CODE,
        SQL_DESC_LENGTH,
        SQL_DESC_OCTET_LENGTH,
        SQL_DESC_PRECISION,
        SQL_DESC_SCALE,
    ] {
        for kind in ALL_KINDS {
            let access = classify_field(kind, field).unwrap();
            assert_eq!(access.scope, FieldScope::Record);
            assert_eq!(
                access.writable,
                kind != DescKind::ImpRow,
                "{kind:?} {field}"
            );
        }
    }
}

#[test]
fn data_and_indicator_pointer_fields_are_ad_only() {
    for field in [
        SQL_DESC_DATA_PTR,
        SQL_DESC_INDICATOR_PTR,
        SQL_DESC_OCTET_LENGTH_PTR,
    ] {
        assert!(classify_field(DescKind::AppRow, field).unwrap().writable);
        assert!(classify_field(DescKind::AppParam, field).unwrap().writable);
        assert!(classify_field(DescKind::ImpRow, field).is_none());
        assert!(classify_field(DescKind::ImpParam, field).is_none());
    }
}

#[test]
fn nullable_is_read_only_on_ird_and_ipd_only() {
    assert!(classify_field(DescKind::AppRow, SQL_DESC_NULLABLE).is_none());
    assert!(classify_field(DescKind::AppParam, SQL_DESC_NULLABLE).is_none());
    for kind in [DescKind::ImpRow, DescKind::ImpParam] {
        let access = classify_field(kind, SQL_DESC_NULLABLE).unwrap();
        assert!(!access.writable, "{kind:?}");
    }
}

#[test]
fn name_is_writable_on_ipd_but_not_ird() {
    assert!(classify_field(DescKind::AppRow, SQL_DESC_NAME).is_none());
    assert!(classify_field(DescKind::AppParam, SQL_DESC_NAME).is_none());
    assert!(
        !classify_field(DescKind::ImpRow, SQL_DESC_NAME)
            .unwrap()
            .writable
    );
    assert!(
        classify_field(DescKind::ImpParam, SQL_DESC_NAME)
            .unwrap()
            .writable
    );
}

/// `SQL_DESC_UNNAMED` is derived from the name on read, and writable on an IPD
/// only, to clear the parameter name.
#[test]
fn unnamed_is_writable_only_on_ipd() {
    assert!(classify_field(DescKind::AppRow, SQL_DESC_UNNAMED).is_none());
    assert!(classify_field(DescKind::AppParam, SQL_DESC_UNNAMED).is_none());
    assert!(
        !classify_field(DescKind::ImpRow, SQL_DESC_UNNAMED)
            .unwrap()
            .writable
    );
    assert!(
        classify_field(DescKind::ImpParam, SQL_DESC_UNNAMED)
            .unwrap()
            .writable
    );
}

#[test]
fn parameter_type_is_ipd_only() {
    assert!(classify_field(DescKind::AppRow, SQL_DESC_PARAMETER_TYPE).is_none());
    assert!(classify_field(DescKind::AppParam, SQL_DESC_PARAMETER_TYPE).is_none());
    assert!(classify_field(DescKind::ImpRow, SQL_DESC_PARAMETER_TYPE).is_none());
    assert!(
        classify_field(DescKind::ImpParam, SQL_DESC_PARAMETER_TYPE)
            .unwrap()
            .writable
    );
}

#[test]
fn unknown_field_id_is_none_for_every_kind() {
    for kind in ALL_KINDS {
        assert!(classify_field(kind, 0xFFFF).is_none());
    }
}

#[test]
fn new_descriptor_starts_with_no_records_and_default_header() {
    let handle = DescHandle::new(DescKind::AppParam, SQL_DESC_ALLOC_AUTO, SQL_NULL_HANDLE);
    let state = &handle.inner;
    assert!(state.records.is_empty());
    assert_eq!(state.header.alloc_type, SQL_DESC_ALLOC_AUTO);
    assert_eq!(state.header.array_size, SQL_ROWSET_SIZE_DEFAULT);
}

#[test]
fn new_explicit_descriptor_reports_alloc_user_on_both_copies() {
    let dbc = 0x1234;
    let handle = DescHandle::new(DescKind::Ad, SQL_DESC_ALLOC_USER, dbc);
    assert!(handle.is_explicit());
    assert_eq!(handle.parent_dbc, dbc);
    assert_eq!(
        handle.inner.header.alloc_type,
        SQL_DESC_ALLOC_USER
    );
}

#[test]
fn set_record_count_grows_with_kind_defaults() {
    let mut state = DescState {
        diag_records: Vec::new(),
        header: DescHeader::default(),
        records: Vec::new(),
    };
    state.set_record_count(3, DescKind::AppParam);
    assert_eq!(state.records.len(), 3);
    for record in &state.records {
        assert_eq!(record.concise_type, SQL_C_DEFAULT);
    }

    // Fresh state: growing an IPD default-fills the IPD-specific fields
    // (mixing kinds on one growing state isn't a real scenario: a
    // descriptor's kind never changes after creation).
    let mut ipd_state = DescState {
        diag_records: Vec::new(),
        header: DescHeader::default(),
        records: Vec::new(),
    };
    ipd_state.set_record_count(1, DescKind::ImpParam);
    assert_eq!(ipd_state.records.len(), 1);
    assert_eq!(ipd_state.records[0].parameter_type, SQL_PARAM_INPUT);
    assert_eq!(ipd_state.records[0].nullable, SQL_NULLABLE);
}

#[test]
fn set_record_count_shrink_discards_trailing_records_and_preserves_the_rest() {
    let mut state = DescState {
        diag_records: Vec::new(),
        header: DescHeader::default(),
        records: Vec::new(),
    };
    state.set_record_count(3, DescKind::AppRow);
    if let Some(r) = state.record_mut(1) {
        r.concise_type = 42;
    }
    state.set_record_count(1, DescKind::AppRow);
    assert_eq!(state.records.len(), 1);
    assert_eq!(state.record(1).unwrap().concise_type, 42);
    assert!(state.record(2).is_none());
}

#[test]
fn record_and_record_mut_reject_zero_and_negative() {
    let mut state = DescState {
        diag_records: Vec::new(),
        header: DescHeader::default(),
        records: Vec::new(),
    };
    state.set_record_count(1, DescKind::AppRow);
    assert!(state.record(0).is_none());
    assert!(state.record(-1).is_none());
    assert!(state.record_mut(0).is_none());
}

#[test]
fn verbose_type_collapses_datetime_family_and_passes_through_others() {
    let mut record = DescRecord::default_for(DescKind::ImpRow);
    record.concise_type = SQL_TYPE_DATE;
    assert_eq!(record.verbose_type(), SQL_DATETIME);
    record.concise_type = SQL_TYPE_TIMESTAMP;
    assert_eq!(record.verbose_type(), SQL_DATETIME);
    record.concise_type = SQL_INTEGER;
    assert_eq!(record.verbose_type(), SQL_INTEGER);
}

fn empty_state() -> DescState {
    DescState { diag_records: Vec::new(), header: DescHeader::default(), records: Vec::new() }
}

#[test]
fn application_kinds_are_the_bound_ones() {
    let application: Vec<_> = ALL_KINDS.into_iter().filter(|k| k.is_application()).collect();
    assert_eq!(application, vec![DescKind::AppRow, DescKind::AppParam, DescKind::Ad]);
}

#[test]
fn application_kinds_classify_every_field_alike() {
    for field in 0..=SqlUSmallInt::MAX {
        let explicit = classify_field(DescKind::Ad, field);
        assert_eq!(explicit, classify_field(DescKind::AppRow, field));
        assert_eq!(explicit, classify_field(DescKind::AppParam, field));
    }
}

#[test]
fn ird_writes_reach_two_fields_only() {
    let writable: Vec<SqlUSmallInt> = (0..=SqlUSmallInt::MAX)
        .filter(|f| classify_field(DescKind::ImpRow, *f).is_some_and(|a| a.writable))
        .collect();
    assert_eq!(writable.len(), 2);
    assert!(writable.contains(&SQL_DESC_ARRAY_STATUS_PTR));
    assert!(writable.contains(&SQL_DESC_ROWS_PROCESSED_PTR));
}

#[test]
fn scope_does_not_depend_on_the_kind() {
    for field in 0..=SqlUSmallInt::MAX {
        let scopes: Vec<FieldScope> =
            ALL_KINDS.into_iter().filter_map(|k| classify_field(k, field)).map(|a| a.scope).collect();
        assert!(scopes.iter().all(|s| *s == scopes[0]), "{field}");
    }
}

#[test]
fn each_kind_has_its_number_of_fields() {
    let counts: Vec<usize> = ALL_KINDS
        .into_iter()
        .map(|k| (0..=SqlUSmallInt::MAX).filter(|f| classify_field(k, *f).is_some()).count())
        .collect();
    assert_eq!(counts, vec![16, 16, 14, 15, 16]);
}

#[test]
fn fresh_records_by_kind() {
    for kind in ALL_KINDS {
        let record = DescRecord::default_for(kind);
        let (concise_type, parameter_type, nullable) = match kind {
            DescKind::AppRow | DescKind::AppParam | DescKind::Ad => (SQL_C_DEFAULT, 0, 0),
            DescKind::ImpParam => (0, SQL_PARAM_INPUT, SQL_NULLABLE),
            // An unpopulated column is zero throughout.
            DescKind::ImpRow => (0, 0, 0),
        };
        assert_eq!(record.concise_type, concise_type, "{kind:?}");
        assert_eq!(record.parameter_type, parameter_type, "{kind:?}");
        assert_eq!(record.nullable, nullable, "{kind:?}");
        assert_eq!(
            (record.datetime_interval_code, record.length, record.octet_length),
            (0, 0, 0)
        );
        assert_eq!((record.precision, record.scale), (0, 0));
        assert_eq!((record.data_ptr, record.indicator_ptr, record.octet_length_ptr), (0, 0, 0));
        assert!(record.name.is_empty());
    }
}

#[test]
fn records_exist_from_one_to_the_count() {
    let mut state = empty_state();
    assert!(state.record(1).is_none());
    state.set_record_count(2, DescKind::ImpParam);
    assert!(state.record(1).is_some());
    assert!(state.record(2).is_some());
    assert!(state.record(3).is_none());
    assert!(state.record_mut(3).is_none());
    assert!(state.record_mut(-7).is_none());
    assert!(state.record(i16::MIN).is_none());
    assert!(state.record(i16::MAX).is_none());
}

#[test]
fn records_that_come_back_are_fresh() {
    let mut state = empty_state();
    state.set_record_count(2, DescKind::AppRow);
    state.record_mut(1).unwrap().length = 11;
    state.record_mut(2).unwrap().length = 22;
    // The same count does nothing.
    state.set_record_count(2, DescKind::AppRow);
    assert_eq!(state.record(2).unwrap().length, 22);
    state.set_record_count(1, DescKind::AppRow);
    state.set_record_count(3, DescKind::AppRow);
    let lengths: Vec<_> = state.records.iter().map(|r| r.length).collect();
    assert_eq!(lengths, vec![11, 0, 0]);
    state.set_record_count(0, DescKind::AppRow);
    assert!(state.records.is_empty());
}

#[test]
fn resizing_leaves_header_and_diagnostics() {
    let mut state = empty_state();
    state.header.array_size = 9;
    post_sql_error(&mut state, "01000", 0, "kept");
    state.set_record_count(4, DescKind::Ad);
    assert_eq!(state.header.array_size, 9);
    assert_eq!(state.diag_records().len(), 1);
    assert_eq!(state.diag_records()[0].message, "kept");
}

#[test]
fn verbose_types_at_the_edges_of_the_datetime_family() {
    let mut record = DescRecord::default_for(DescKind::ImpRow);
    for (concise, verbose) in [(90, 90), (91, 9), (92, 9), (93, 9), (94, 94), (9, 9), (-9, -9)] {
        record.concise_type = concise;
        assert_eq!(record.verbose_type(), verbose);
    }
}

#[test]
fn default_header_values() {
    let header = DescHeader::default();
    assert_eq!(header.alloc_type, SQL_DESC_ALLOC_AUTO);
    assert_eq!((header.array_size, header.bind_type), (1, 0));
    assert_eq!((header.array_status_ptr, header.bind_offset_ptr, header.rows_processed_ptr), (0, 0, 0));
}

#[test]
fn implicit_descriptor_is_not_explicit() {
    let mut handle = DescHandle::new(DescKind::ImpRow, SQL_DESC_ALLOC_AUTO, 77);
    assert!(!handle.is_explicit());
    assert_eq!((handle.kind, handle.parent_dbc), (DescKind::ImpRow, 77));
    assert_eq!(*handle.object_type_mut(), HandleType::Desc);
}
