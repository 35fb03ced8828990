//! Statement attributes: what is stored, read back, substituted and refused.

use std::sync::Arc;

use mssql_odbc::api::odbc_types::{
    SqlHandle, SqlInteger, SqlPointer, SqlReturn, SqlULen, SQL_ATTR_APP_PARAM_DESC,
    SQL_ATTR_APP_ROW_DESC, SQL_ATTR_CONCURRENCY, SQL_ATTR_CURSOR_TYPE, SQL_ATTR_IMP_PARAM_DESC,
    SQL_ATTR_IMP_ROW_DESC, SQL_ATTR_PARAMSET_SIZE, SQL_ATTR_PARAMS_PROCESSED_PTR,
    SQL_ATTR_PARAM_BIND_TYPE, SQL_ATTR_PARAM_STATUS_PTR, SQL_ATTR_ROWS_FETCHED_PTR,
    SQL_ATTR_ROW_ARRAY_SIZE, SQL_ATTR_ROW_BIND_OFFSET_PTR, SQL_ATTR_ROW_BIND_TYPE,
    SQL_ATTR_ROW_STATUS_PTR, SQL_BIND_BY_COLUMN, SQL_CONCUR_READ_ONLY, SQL_CURSOR_FORWARD_ONLY,
    SQL_ERROR, SQL_INVALID_HANDLE, SQL_NULL_HANDLE, SQL_SUCCESS, SQL_SUCCESS_WITH_INFO,
};
use mssql_odbc::api::set_stmt_attr::{
    sql_get_stmt_attr_w, sql_set_stmt_attr_w, validate_descriptor_association,
};
use mssql_odbc::api::sqlstate::{
    DiagMsg, SQLSTATE_01S02, SQLSTATE_HY010, SQLSTATE_HY017, SQLSTATE_HY024, SQLSTATE_HY092,
    SQLSTATE_HYC00,
};
use mssql_odbc::handles::stmt::STMT_STATE_FETCH_IN_PROGRESS;
use mssql_odbc::handles::{HandleTable, HandleType};
use tokio::runtime::Runtime;

/// An address that stands for an application's variable.
const APPLICATION_ADDRESS: SqlPointer = 0x7ffe_1000;

struct TestHandles {
    handles: HandleTable,
    env: SqlHandle,
    dbc: SqlHandle,
    stmt: SqlHandle,
}

impl TestHandles {
    fn with_env_dbc_stmt() -> Self {
        let runtime = Arc::new(Runtime::new().unwrap());
        let mut handles = HandleTable::new();
        let env = handles.alloc_env(runtime.clone());
        let dbc = handles.alloc_dbc(env, runtime);
        let stmt = handles.alloc_stmt(dbc);
        TestHandles { handles, env, dbc, stmt }
    }

    fn alloc_explicit_desc(&mut self) -> SqlHandle {
        self.handles.alloc_desc(self.dbc)
    }

    fn alloc_extra_stmt(&mut self) -> SqlHandle {
        self.handles.alloc_stmt(self.dbc)
    }

    /// An explicit descriptor of a second connection.
    fn alloc_other_connection_desc(&mut self) -> SqlHandle {
        let runtime = self.handles.env(self.env).runtime.clone();
        let other = self.handles.alloc_dbc(self.env, runtime);
        self.handles.alloc_desc(other)
    }

    fn free_explicit_desc(&mut self, desc: SqlHandle) -> SqlReturn {
        self.handles.free_desc(desc)
    }

    fn free_extra_stmt(&mut self, stmt: SqlHandle) -> SqlReturn {
        self.handles.free_stmt(stmt)
    }

    fn ard(&self) -> SqlHandle {
        self.handles.stmt(self.stmt).ard
    }

    fn apd(&self) -> SqlHandle {
        self.handles.stmt(self.stmt).apd
    }

    fn ird(&self) -> SqlHandle {
        self.handles.stmt(self.stmt).ird
    }

    fn set(&mut self, attribute: SqlInteger, value: SqlPointer) -> SqlReturn {
        sql_set_stmt_attr_w(&mut self.handles, self.stmt, attribute, value, 0)
    }

    /// Reads into a variable that holds `before`.
    fn get(&mut self, attribute: SqlInteger, before: SqlULen) -> (SqlReturn, SqlULen) {
        let mut out: SqlULen = before;
        let ret =
            sql_get_stmt_attr_w(&mut self.handles, self.stmt, attribute, Some(&mut out), 0, None);
        (ret, out)
    }

    fn set_desc(&mut self, stmt: SqlHandle, attribute: SqlInteger, value: SqlHandle) -> SqlReturn {
        sql_set_stmt_attr_w(&mut self.handles, stmt, attribute, value, 0)
    }

    fn read_desc(&mut self, stmt: SqlHandle, attribute: SqlInteger) -> (SqlReturn, SqlHandle) {
        let mut out: SqlHandle = SQL_NULL_HANDLE;
        let rc = sql_get_stmt_attr_w(&mut self.handles, stmt, attribute, Some(&mut out), 0, None);
        (rc, out)
    }

    fn diags(&self) -> Vec<(&'static str, SqlInteger, String)> {
        self.handles
            .stmt(self.stmt)
            .inner
            .diag_records
            .iter()
            .map(|d| (d.sql_state, d.native_error, d.message.clone()))
            .collect()
    }

    fn last_sql_state(&self) -> &'static str {
        self.handles.stmt(self.stmt).inner.diag_records.last().unwrap().sql_state
    }
}

#[test]
fn set_stmt_attr_null_handle() {
    let mut handles = HandleTable::new();
    let ret =
        sql_set_stmt_attr_w(&mut handles, SQL_NULL_HANDLE, SQL_ATTR_ROW_ARRAY_SIZE, 10, 0);
    assert_eq!(ret, SQL_INVALID_HANDLE);
}

#[test]
fn set_row_array_size_stored_and_readback() {
    let mut h = TestHandles::with_env_dbc_stmt();
    let ret = h.set(SQL_ATTR_ROW_ARRAY_SIZE, 128);
    assert_eq!(ret, SQL_SUCCESS);

    assert_eq!(h.handles.stmt(h.stmt).inner.row_array_size, 128);

    let (ret, out) = h.get(SQL_ATTR_ROW_ARRAY_SIZE, 0);
    assert_eq!(ret, SQL_SUCCESS);
    assert_eq!(out, 128);
}

#[test]
fn set_row_array_size_zero_rejected() {
    let mut h = TestHandles::with_env_dbc_stmt();
    let ret = h.set(SQL_ATTR_ROW_ARRAY_SIZE, 0);
    assert_eq!(ret, SQL_ERROR);
    // The previous (default) value must be left untouched.
    assert_eq!(h.handles.stmt(h.stmt).inner.row_array_size, 1);
}

#[test]
fn set_rows_fetched_ptr_stored() {
    let mut h = TestHandles::with_env_dbc_stmt();
    let ptr: SqlPointer = APPLICATION_ADDRESS;
    let ret = h.set(SQL_ATTR_ROWS_FETCHED_PTR, ptr);
    assert_eq!(ret, SQL_SUCCESS);
    assert_eq!(h.handles.stmt(h.stmt).inner.rows_fetched_ptr, ptr);
}

#[test]
fn set_row_bind_offset_ptr_stored() {
    let mut h = TestHandles::with_env_dbc_stmt();
    let ptr: SqlPointer = APPLICATION_ADDRESS;
    let ret = h.set(SQL_ATTR_ROW_BIND_OFFSET_PTR, ptr);
    assert_eq!(ret, SQL_SUCCESS);
    assert_eq!(h.handles.stmt(h.stmt).inner.row_bind_offset_ptr, ptr);

    // An attribute that can be set has to be readable back: reading the stored
    // field alone would not catch a getter that misses it.
    let (ret, read_back) = h.get(SQL_ATTR_ROW_BIND_OFFSET_PTR, 0);
    assert_eq!(ret, SQL_SUCCESS);
    assert_eq!(read_back, ptr);
}

#[test]
fn set_row_status_ptr_stored() {
    let mut h = TestHandles::with_env_dbc_stmt();
    let ptr: SqlPointer = APPLICATION_ADDRESS;
    let ret = h.set(SQL_ATTR_ROW_STATUS_PTR, ptr);
    assert_eq!(ret, SQL_SUCCESS);
    assert_eq!(h.handles.stmt(h.stmt).inner.row_status_ptr, ptr);
}

#[test]
fn set_row_bind_type_stored_and_readback() {
    let mut h = TestHandles::with_env_dbc_stmt();
    let ret = h.set(SQL_ATTR_ROW_BIND_TYPE, 40);
    assert_eq!(ret, SQL_SUCCESS);
    let (ret, out) = h.get(SQL_ATTR_ROW_BIND_TYPE, 0);
    assert_eq!(ret, SQL_SUCCESS);
    assert_eq!(out, 40);
}

#[test]
fn default_row_bind_type_is_column_wise() {
    let mut h = TestHandles::with_env_dbc_stmt();
    let (ret, out) = h.get(SQL_ATTR_ROW_BIND_TYPE, 999);
    assert_eq!(ret, SQL_SUCCESS);
    assert_eq!(out, SQL_BIND_BY_COLUMN);
}

#[test]
fn set_unknown_attribute_rejected() {
    let mut h = TestHandles::with_env_dbc_stmt();
    let ret = h.set(9999, 0);
    assert_eq!(ret, SQL_ERROR);
}

#[test]
fn set_recognized_untracked_attribute_accepted() {
    let mut h = TestHandles::with_env_dbc_stmt();
    let ret = h.set(SQL_ATTR_CONCURRENCY, SQL_CONCUR_READ_ONLY);
    assert_eq!(ret, SQL_SUCCESS);
}

#[test]
fn set_cursor_type_forward_only_accepted() {
    let mut h = TestHandles::with_env_dbc_stmt();
    let ret = h.set(SQL_ATTR_CURSOR_TYPE, SQL_CURSOR_FORWARD_ONLY);
    assert_eq!(ret, SQL_SUCCESS);
}

#[test]
fn set_cursor_type_unsupported_substituted() {
    let mut h = TestHandles::with_env_dbc_stmt();
    // Any cursor that is not forward-only (such as SQL_CURSOR_STATIC = 3) is
    // substituted with forward-only and reported via 01S02.
    let ret = h.set(SQL_ATTR_CURSOR_TYPE, 3);
    assert_eq!(ret, SQL_SUCCESS_WITH_INFO);

    // The getter still reports the supported forward-only value.
    let (ret, out) = h.get(SQL_ATTR_CURSOR_TYPE, 999);
    assert_eq!(ret, SQL_SUCCESS);
    assert_eq!(out, SQL_CURSOR_FORWARD_ONLY);
}

#[test]
fn set_concurrency_unsupported_substituted() {
    let mut h = TestHandles::with_env_dbc_stmt();
    // Any writable concurrency (such as SQL_CONCUR_LOCK = 2) is substituted
    // with read-only and reported via 01S02.
    let ret = h.set(SQL_ATTR_CONCURRENCY, 2);
    assert_eq!(ret, SQL_SUCCESS_WITH_INFO);

    let (ret, out) = h.get(SQL_ATTR_CONCURRENCY, 999);
    assert_eq!(ret, SQL_SUCCESS);
    assert_eq!(out, SQL_CONCUR_READ_ONLY);
}

#[test]
fn set_paramset_size_one_accepted() {
    let mut h = TestHandles::with_env_dbc_stmt();
    let ret = h.set(SQL_ATTR_PARAMSET_SIZE, 1);
    assert_eq!(ret, SQL_SUCCESS);
}

#[test]
fn set_paramset_size_greater_than_one_rejected() {
    let mut h = TestHandles::with_env_dbc_stmt();
    let ret = h.set(SQL_ATTR_PARAMSET_SIZE, 100);
    assert_eq!(ret, SQL_ERROR);
}

#[test]
fn set_paramset_size_zero_rejected() {
    let mut h = TestHandles::with_env_dbc_stmt();
    let ret = h.set(SQL_ATTR_PARAMSET_SIZE, 0);
    assert_eq!(ret, SQL_ERROR);
}

#[test]
fn get_stmt_attr_null_handle() {
    let mut handles = HandleTable::new();
    let mut out: SqlULen = 0;
    let ret = sql_get_stmt_attr_w(
        &mut handles,
        SQL_NULL_HANDLE,
        SQL_ATTR_ROW_ARRAY_SIZE,
        Some(&mut out),
        0,
        None,
    );
    assert_eq!(ret, SQL_INVALID_HANDLE);
}

#[test]
fn get_unknown_attribute_rejected() {
    let mut h = TestHandles::with_env_dbc_stmt();
    let (ret, out) = h.get(9999, 7);
    assert_eq!(ret, SQL_ERROR);
    // Output must be left untouched on an invalid identifier.
    assert_eq!(out, 7);
}

#[test]
fn get_concurrency_default_is_read_only() {
    let mut h = TestHandles::with_env_dbc_stmt();
    let (ret, out) = h.get(SQL_ATTR_CONCURRENCY, 999);
    assert_eq!(ret, SQL_SUCCESS);
    assert_eq!(out, SQL_CONCUR_READ_ONLY);
}

#[test]
fn get_cursor_type_default_is_forward_only() {
    let mut h = TestHandles::with_env_dbc_stmt();
    let (ret, out) = h.get(SQL_ATTR_CURSOR_TYPE, 999);
    assert_eq!(ret, SQL_SUCCESS);
    assert_eq!(out, SQL_CURSOR_FORWARD_ONLY);
}

#[test]
fn get_paramset_size_default_is_one() {
    let mut h = TestHandles::with_env_dbc_stmt();
    let (ret, out) = h.get(SQL_ATTR_PARAMSET_SIZE, 999);
    assert_eq!(ret, SQL_SUCCESS);
    assert_eq!(out, 1);
}

#[test]
fn get_stmt_attr_null_value_ptr_is_noop_success() {
    let mut h = TestHandles::with_env_dbc_stmt();
    let ret =
        sql_get_stmt_attr_w(&mut h.handles, h.stmt, SQL_ATTR_ROW_ARRAY_SIZE, None, 0, None);
    assert_eq!(ret, SQL_SUCCESS);
}

#[test]
fn get_returns_the_four_implicit_descriptors() {
    let mut h = TestHandles::with_env_dbc_stmt();
    let stmt = h.stmt;
    let stmt_ref = h.handles.stmt(stmt);

    for (attr, expected) in [
        (SQL_ATTR_APP_ROW_DESC, stmt_ref.ard),
        (SQL_ATTR_APP_PARAM_DESC, stmt_ref.apd),
        (SQL_ATTR_IMP_ROW_DESC, stmt_ref.ird),
        (SQL_ATTR_IMP_PARAM_DESC, stmt_ref.ipd),
    ] {
        let (rc, out) = h.read_desc(stmt, attr);
        assert_eq!(rc, SQL_SUCCESS);
        assert_ne!(out, SQL_NULL_HANDLE);
        assert_eq!(out, expected);
    }
}

#[test]
fn get_implicit_descriptors_are_distinct() {
    let mut h = TestHandles::with_env_dbc_stmt();
    let stmt = h.stmt;
    let all = [
        h.read_desc(stmt, SQL_ATTR_APP_ROW_DESC).1,
        h.read_desc(stmt, SQL_ATTR_APP_PARAM_DESC).1,
        h.read_desc(stmt, SQL_ATTR_IMP_ROW_DESC).1,
        h.read_desc(stmt, SQL_ATTR_IMP_PARAM_DESC).1,
    ];
    for i in 0..all.len() {
        for j in (i + 1)..all.len() {
            assert_ne!(all[i], all[j], "descriptors {i} and {j} alias");
        }
    }
}

/// Querying one of the four implicit descriptor attributes clears stale
/// diagnostics from an earlier failed call on the statement, as every other
/// attribute does.
#[test]
fn get_descriptor_attribute_clears_stale_diagnostics() {
    let mut h = TestHandles::with_env_dbc_stmt();
    let stmt = h.stmt;
    // Any unrecognized attribute posts a diagnostic on this statement.
    let ret = sql_get_stmt_attr_w(&mut h.handles, stmt, 0x7FFF, None, 0, None);
    assert_eq!(ret, SQL_ERROR);
    assert!(!h.handles.stmt(stmt).inner.diag_records.is_empty());

    let (rc, _) = h.read_desc(stmt, SQL_ATTR_APP_PARAM_DESC);
    assert_eq!(rc, SQL_SUCCESS);
    assert!(
        h.handles.stmt(stmt).inner.diag_records.is_empty(),
        "stale diagnostic from the prior failure was not cleared"
    );
}

#[test]
fn set_app_row_desc_associates_explicit_descriptor() {
    let mut h = TestHandles::with_env_dbc_stmt();
    let stmt = h.stmt;
    let desc = h.alloc_explicit_desc();

    assert_eq!(h.set_desc(stmt, SQL_ATTR_APP_ROW_DESC, desc), SQL_SUCCESS);
    assert_eq!(h.read_desc(stmt, SQL_ATTR_APP_ROW_DESC), (SQL_SUCCESS, desc));
    // APD is untouched.
    assert_eq!(h.read_desc(stmt, SQL_ATTR_APP_PARAM_DESC).1, h.apd());
}

#[test]
fn set_app_param_desc_associates_explicit_descriptor() {
    let mut h = TestHandles::with_env_dbc_stmt();
    let stmt = h.stmt;
    let desc = h.alloc_explicit_desc();

    assert_eq!(h.set_desc(stmt, SQL_ATTR_APP_PARAM_DESC, desc), SQL_SUCCESS);
    assert_eq!(h.read_desc(stmt, SQL_ATTR_APP_PARAM_DESC), (SQL_SUCCESS, desc));
    // ARD is untouched.
    assert_eq!(h.read_desc(stmt, SQL_ATTR_APP_ROW_DESC).1, h.ard());
}

#[test]
fn reassociation_replaces_previous_explicit_descriptor() {
    let mut h = TestHandles::with_env_dbc_stmt();
    let stmt = h.stmt;
    let desc_a = h.alloc_explicit_desc();
    let desc_b = h.alloc_explicit_desc();

    assert_eq!(h.set_desc(stmt, SQL_ATTR_APP_ROW_DESC, desc_a), SQL_SUCCESS);
    assert_eq!(h.set_desc(stmt, SQL_ATTR_APP_ROW_DESC, desc_b), SQL_SUCCESS);
    assert_eq!(h.read_desc(stmt, SQL_ATTR_APP_ROW_DESC), (SQL_SUCCESS, desc_b));
}

#[test]
fn reset_to_implicit_via_null() {
    let mut h = TestHandles::with_env_dbc_stmt();
    let stmt = h.stmt;
    let desc = h.alloc_explicit_desc();
    let implicit_ard = h.ard();

    assert_eq!(h.set_desc(stmt, SQL_ATTR_APP_ROW_DESC, desc), SQL_SUCCESS);
    assert_eq!(h.set_desc(stmt, SQL_ATTR_APP_ROW_DESC, SQL_NULL_HANDLE), SQL_SUCCESS);
    assert_eq!(h.read_desc(stmt, SQL_ATTR_APP_ROW_DESC), (SQL_SUCCESS, implicit_ard));
}

#[test]
fn reset_to_implicit_via_own_handle() {
    let mut h = TestHandles::with_env_dbc_stmt();
    let stmt = h.stmt;
    let desc = h.alloc_explicit_desc();
    let implicit_apd = h.apd();

    assert_eq!(h.set_desc(stmt, SQL_ATTR_APP_PARAM_DESC, desc), SQL_SUCCESS);
    // Passing back the handle originally allocated for this statement's APD is
    // the other legal reset spelling, alongside null.
    assert_eq!(h.set_desc(stmt, SQL_ATTR_APP_PARAM_DESC, implicit_apd), SQL_SUCCESS);
    assert_eq!(h.read_desc(stmt, SQL_ATTR_APP_PARAM_DESC), (SQL_SUCCESS, implicit_apd));
}

/// An implicit descriptor can only be reassigned as its own statement's
/// ARD/APD (the reset case); any other is refused with HY017.
#[test]
fn set_app_row_desc_rejects_another_statements_implicit_descriptor() {
    let mut h = TestHandles::with_env_dbc_stmt();
    let stmt = h.stmt;
    let other_stmt = h.alloc_extra_stmt();
    let other_ard = h.read_desc(other_stmt, SQL_ATTR_APP_ROW_DESC).1;

    assert_eq!(h.set_desc(stmt, SQL_ATTR_APP_ROW_DESC, other_ard), SQL_ERROR);
    assert_eq!(h.last_sql_state(), SQLSTATE_HY017);
    // Unchanged: still the implicit ARD.
    assert_eq!(h.read_desc(stmt, SQL_ATTR_APP_ROW_DESC).1, h.ard());
}

#[test]
fn set_app_row_desc_rejects_own_ird_as_ard() {
    let mut h = TestHandles::with_env_dbc_stmt();
    let stmt = h.stmt;
    let own_ird = h.ird();

    assert_eq!(h.set_desc(stmt, SQL_ATTR_APP_ROW_DESC, own_ird), SQL_ERROR);
    assert_eq!(h.read_desc(stmt, SQL_ATTR_APP_ROW_DESC).1, h.ard());
}

/// An explicit descriptor allocated on a different connection is refused with
/// HY024.
#[test]
fn set_app_row_desc_rejects_cross_connection_descriptor() {
    let mut h = TestHandles::with_env_dbc_stmt();
    let stmt = h.stmt;
    let other_desc = h.alloc_other_connection_desc();

    assert_eq!(h.set_desc(stmt, SQL_ATTR_APP_ROW_DESC, other_desc), SQL_ERROR);
    assert_eq!(h.last_sql_state(), SQLSTATE_HY024);
    assert_eq!(h.read_desc(stmt, SQL_ATTR_APP_ROW_DESC).1, h.ard());
}

/// One explicit descriptor may be associated with more than one statement at
/// once.
#[test]
fn explicit_descriptor_can_be_shared_by_two_statements() {
    let mut h = TestHandles::with_env_dbc_stmt();
    let stmt = h.stmt;
    let other_stmt = h.alloc_extra_stmt();
    let desc = h.alloc_explicit_desc();

    assert_eq!(h.set_desc(stmt, SQL_ATTR_APP_ROW_DESC, desc), SQL_SUCCESS);
    assert_eq!(h.set_desc(other_stmt, SQL_ATTR_APP_ROW_DESC, desc), SQL_SUCCESS);

    assert_eq!(h.read_desc(stmt, SQL_ATTR_APP_ROW_DESC), (SQL_SUCCESS, desc));
    assert_eq!(h.read_desc(other_stmt, SQL_ATTR_APP_ROW_DESC), (SQL_SUCCESS, desc));
}

/// Freeing an explicit descriptor that statements use resets every one of them
/// to its own implicit descriptor.
#[test]
fn freeing_associated_descriptor_resets_statements_to_implicit() {
    let mut h = TestHandles::with_env_dbc_stmt();
    let stmt = h.stmt;
    let other_stmt = h.alloc_extra_stmt();
    let desc = h.alloc_explicit_desc();
    let implicit_ard = h.ard();
    let other_implicit_ard = h.read_desc(other_stmt, SQL_ATTR_APP_ROW_DESC).1;

    assert_eq!(h.set_desc(stmt, SQL_ATTR_APP_ROW_DESC, desc), SQL_SUCCESS);
    assert_eq!(h.set_desc(other_stmt, SQL_ATTR_APP_ROW_DESC, desc), SQL_SUCCESS);

    assert_eq!(h.free_explicit_desc(desc), SQL_SUCCESS);

    assert_eq!(h.read_desc(stmt, SQL_ATTR_APP_ROW_DESC), (SQL_SUCCESS, implicit_ard));
    assert_eq!(h.read_desc(other_stmt, SQL_ATTR_APP_ROW_DESC), (SQL_SUCCESS, other_implicit_ard));
}

/// Freeing a statement that uses an explicit descriptor does not touch the
/// descriptor, which belongs to the connection and can be used again.
#[test]
fn association_survives_statement_free_and_can_be_reused() {
    let mut h = TestHandles::with_env_dbc_stmt();
    let stmt = h.stmt;
    let desc = h.alloc_explicit_desc();
    let stmt_to_free = h.alloc_extra_stmt();
    assert_eq!(h.set_desc(stmt_to_free, SQL_ATTR_APP_ROW_DESC, desc), SQL_SUCCESS);

    assert_eq!(h.free_extra_stmt(stmt_to_free), SQL_SUCCESS);

    assert_eq!(h.set_desc(stmt, SQL_ATTR_APP_ROW_DESC, desc), SQL_SUCCESS);
    assert_eq!(h.read_desc(stmt, SQL_ATTR_APP_ROW_DESC), (SQL_SUCCESS, desc));
}

#[test]
fn every_refusal_posts_its_own_diagnostic() {
    let mut h = TestHandles::with_env_dbc_stmt();
    let other = h.alloc_other_connection_desc();
    let ird = h.ird();
    for (attribute, value, state, message) in [
        (9999, 0, SQLSTATE_HY092, "Invalid attribute/option identifier"),
        (SQL_ATTR_ROW_ARRAY_SIZE, 0, SQLSTATE_HY024, "Invalid attribute value"),
        (SQL_ATTR_PARAMSET_SIZE, 0, SQLSTATE_HY024, "Invalid attribute value"),
        (
            SQL_ATTR_PARAMSET_SIZE,
            2,
            SQLSTATE_HYC00,
            "Parameter arrays (SQL_ATTR_PARAMSET_SIZE > 1) are not supported",
        ),
        (
            SQL_ATTR_APP_PARAM_DESC,
            ird,
            SQLSTATE_HY017,
            "Invalid use of an automatically allocated descriptor handle",
        ),
        (SQL_ATTR_APP_PARAM_DESC, other, SQLSTATE_HY024, "Invalid attribute value"),
    ] {
        assert_eq!(h.set(attribute, value), SQL_ERROR);
        assert_eq!(h.diags(), vec![(state, 0, message.to_string())]);
    }
    assert_eq!(SQLSTATE_HY017, "HY017");
    assert_eq!(SQLSTATE_HY024, "HY024");
    assert_eq!(SQLSTATE_HY092, "HY092");
    assert_eq!(SQLSTATE_HYC00, "HYC00");
}

#[test]
fn substitution_is_reported_in_its_own_words() {
    let mut h = TestHandles::with_env_dbc_stmt();
    assert_eq!(h.set(SQL_ATTR_CURSOR_TYPE, 3), SQL_SUCCESS_WITH_INFO);
    assert_eq!(
        h.diags(),
        vec![(
            "01S02",
            0,
            "Cursor type not supported; substituted SQL_CURSOR_FORWARD_ONLY".to_string()
        )]
    );
    assert_eq!(h.set(SQL_ATTR_CONCURRENCY, 2), SQL_SUCCESS_WITH_INFO);
    assert_eq!(
        h.diags(),
        vec![(
            SQLSTATE_01S02,
            0,
            "Concurrency not supported; substituted SQL_CONCUR_READ_ONLY".to_string()
        )]
    );
    // The next call starts without them.
    assert_eq!(h.set(SQL_ATTR_CURSOR_TYPE, SQL_CURSOR_FORWARD_ONLY), SQL_SUCCESS);
    assert!(h.diags().is_empty());
}

#[test]
fn rowset_controls_are_frozen_during_a_fetch() {
    let mut h = TestHandles::with_env_dbc_stmt();
    let controls = [
        SQL_ATTR_ROW_ARRAY_SIZE,
        SQL_ATTR_ROWS_FETCHED_PTR,
        SQL_ATTR_ROW_STATUS_PTR,
        SQL_ATTR_ROW_BIND_OFFSET_PTR,
        SQL_ATTR_ROW_BIND_TYPE,
    ];
    for control in controls {
        assert_eq!(h.set(control, 8), SQL_SUCCESS);
    }
    let stmt = h.stmt;
    h.handles.stmt_mut(stmt).inner.set_state(STMT_STATE_FETCH_IN_PROGRESS);
    for control in controls {
        assert_eq!(h.set(control, 16), SQL_ERROR);
        assert_eq!(h.diags(), vec![(SQLSTATE_HY010, 0, "Function sequence error".to_string())]);
        assert_eq!(h.get(control, 0), (SQL_SUCCESS, 8));
    }
    // The fetch is what refuses even the value that is refused anyway.
    assert_eq!(h.set(SQL_ATTR_ROW_ARRAY_SIZE, 0), SQL_ERROR);
    assert_eq!(h.last_sql_state(), "HY010");
    // Other attributes are not held back.
    assert_eq!(h.set(SQL_ATTR_PARAMSET_SIZE, 1), SQL_SUCCESS);
    let desc = h.alloc_explicit_desc();
    assert_eq!(h.set(SQL_ATTR_APP_ROW_DESC, desc), SQL_SUCCESS);

    h.handles.stmt_mut(stmt).inner.clear_state(STMT_STATE_FETCH_IN_PROGRESS);
    for control in controls {
        assert_eq!(h.set(control, 16), SQL_SUCCESS);
        assert_eq!(h.get(control, 0), (SQL_SUCCESS, 16));
    }
}

#[test]
fn setting_one_attribute_leaves_the_others() {
    let mut h = TestHandles::with_env_dbc_stmt();
    let desc = h.alloc_explicit_desc();
    let values = [
        (SQL_ATTR_ROW_ARRAY_SIZE, 3),
        (SQL_ATTR_ROWS_FETCHED_PTR, 0x100),
        (SQL_ATTR_ROW_STATUS_PTR, 0x200),
        (SQL_ATTR_ROW_BIND_TYPE, 40),
        (SQL_ATTR_ROW_BIND_OFFSET_PTR, 0x300),
        (SQL_ATTR_APP_ROW_DESC, desc),
        (SQL_ATTR_APP_PARAM_DESC, desc),
    ];
    for (attribute, value) in values {
        assert_eq!(h.set(attribute, value), SQL_SUCCESS);
    }
    for (attribute, value) in values {
        assert_eq!(h.get(attribute, 0), (SQL_SUCCESS, value));
    }
}

#[test]
fn parameter_controls_without_effect_are_accepted_and_read_as_defaults() {
    let mut h = TestHandles::with_env_dbc_stmt();
    for attribute in
        [SQL_ATTR_PARAM_BIND_TYPE, SQL_ATTR_PARAM_STATUS_PTR, SQL_ATTR_PARAMS_PROCESSED_PTR]
    {
        assert_eq!(h.get(attribute, 5), (SQL_SUCCESS, 0));
        assert_eq!(h.set(attribute, 24), SQL_SUCCESS);
        assert!(h.diags().is_empty());
        assert_eq!(h.get(attribute, 5), (SQL_SUCCESS, 0));
        assert!(h.diags().is_empty());
    }
}

#[test]
fn every_attribute_that_can_be_set_can_be_read() {
    let mut h = TestHandles::with_env_dbc_stmt();
    let mut settable = 0;
    for attribute in -20..20_000 {
        // A descriptor attribute takes a handle, of which null is one.
        let value = if attribute >= SQL_ATTR_APP_ROW_DESC { SQL_NULL_HANDLE } else { 1 };
        if h.set(attribute, value) != SQL_ERROR {
            settable += 1;
            assert_eq!(h.get(attribute, 5).0, SQL_SUCCESS, "{attribute}");
        }
    }
    assert_eq!(settable, 13);
}

#[test]
fn implementation_descriptors_cannot_be_exchanged() {
    let mut h = TestHandles::with_env_dbc_stmt();
    let desc = h.alloc_explicit_desc();
    for attribute in [SQL_ATTR_IMP_ROW_DESC, SQL_ATTR_IMP_PARAM_DESC] {
        let before = h.get(attribute, 0);
        assert_eq!(h.set(attribute, desc), SQL_ERROR);
        assert_eq!(h.last_sql_state(), "HY092");
        assert_eq!(h.get(attribute, 0), before);
    }
}

#[test]
fn reading_leaves_the_string_length_alone() {
    let mut h = TestHandles::with_env_dbc_stmt();
    let mut out: SqlULen = 0;
    let mut length: SqlInteger = 77;
    let ret = sql_get_stmt_attr_w(
        &mut h.handles,
        h.stmt,
        SQL_ATTR_ROW_ARRAY_SIZE,
        Some(&mut out),
        8,
        Some(&mut length),
    );
    assert_eq!((ret, out, length), (SQL_SUCCESS, 1, 77));
}

#[test]
fn association_is_decided_without_touching_the_table() {
    let mut h = TestHandles::with_env_dbc_stmt();
    let desc = h.alloc_explicit_desc();
    let other = h.alloc_other_connection_desc();
    let stmt = h.handles.stmt(h.stmt);
    let ard = stmt.ard;
    let decide = |value| validate_descriptor_association(&h.handles, stmt, ard, value);
    assert_eq!(decide(SQL_NULL_HANDLE), Ok(None));
    assert_eq!(decide(ard), Ok(None));
    assert_eq!(decide(desc), Ok(Some(desc)));
    assert_eq!(decide(stmt.apd), Err(DiagMsg::InvalidUseOfAutoDesc));
    assert_eq!(decide(other), Err(DiagMsg::InvalidAttributeValue));
}

#[test]
fn freed_descriptor_leaves_both_roles() {
    let mut h = TestHandles::with_env_dbc_stmt();
    let desc = h.alloc_explicit_desc();
    let kept = h.alloc_explicit_desc();
    let (ard, apd) = (h.ard(), h.apd());
    assert_eq!(h.set(SQL_ATTR_APP_ROW_DESC, desc), SQL_SUCCESS);
    assert_eq!(h.set(SQL_ATTR_APP_PARAM_DESC, desc), SQL_SUCCESS);
    assert_eq!(h.free_explicit_desc(desc), SQL_SUCCESS);
    assert_eq!(h.get(SQL_ATTR_APP_ROW_DESC, 0), (SQL_SUCCESS, ard));
    assert_eq!(h.get(SQL_ATTR_APP_PARAM_DESC, 0), (SQL_SUCCESS, apd));
    assert_eq!(h.handles.object_type(desc), HandleType::Invalid);

    // One that is not the freed one stays in use.
    let gone = h.alloc_explicit_desc();
    assert_eq!(h.set(SQL_ATTR_APP_ROW_DESC, kept), SQL_SUCCESS);
    assert_eq!(h.free_explicit_desc(gone), SQL_SUCCESS);
    assert_eq!(h.get(SQL_ATTR_APP_ROW_DESC, 0), (SQL_SUCCESS, kept));
}
