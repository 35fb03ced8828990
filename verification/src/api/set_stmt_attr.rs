//! Implementation of `SQLSetStmtAttrW` / `SQLGetStmtAttrW`.
//!
//! The block-fetch rowset controls are stored, and later consumed by the fetch
//! path. `SQL_ATTR_CURSOR_TYPE` and `SQL_ATTR_CONCURRENCY` accept only the
//! supported forward-only / read-only values; any other request is substituted
//! and reported with `01S02` rather than silently succeeding.
//! `SQL_ATTR_APP_ROW_DESC` and `SQL_ATTR_APP_PARAM_DESC` associate an explicit
//! descriptor as the statement's active ARD/APD. `SQL_ATTR_PARAMSET_SIZE`
//! accepts the default of 1 but rejects larger batches, since parameter arrays
//! are not consumed and a silent success would execute the first row only. The
//! other recognized parameter controls are accepted without effect and read as
//! their defaults, and unrecognized identifiers fail with `HY092`.

use vstd::prelude::*;

use crate::api::odbc_types::{
    SqlHandle, SqlInteger, SqlPointer, SqlReturn, SqlULen, SQL_ATTR_APP_PARAM_DESC,
    SQL_ATTR_APP_ROW_DESC, SQL_ATTR_CONCURRENCY, SQL_ATTR_CURSOR_TYPE, SQL_ATTR_IMP_PARAM_DESC,
    SQL_ATTR_IMP_ROW_DESC, SQL_ATTR_PARAMSET_SIZE, SQL_ATTR_PARAMS_PROCESSED_PTR,
    SQL_ATTR_PARAM_BIND_TYPE, SQL_ATTR_PARAM_STATUS_PTR, SQL_ATTR_ROWS_FETCHED_PTR,
    SQL_ATTR_ROW_ARRAY_SIZE, SQL_ATTR_ROW_BIND_OFFSET_PTR, SQL_ATTR_ROW_BIND_TYPE,
    SQL_ATTR_ROW_STATUS_PTR, SQL_CONCUR_READ_ONLY, SQL_CURSOR_FORWARD_ONLY, SQL_ERROR,
    SQL_INVALID_HANDLE, SQL_NULL_HANDLE, SQL_SUCCESS, SQL_SUCCESS_WITH_INFO,
};
use crate::api::sqlstate::{
    post_diag, DiagMsg, ERR_FUNCTION_SEQUENCE, ERR_INVALID_ATTRIBUTE_IDENTIFIER,
    ERR_INVALID_ATTRIBUTE_VALUE, ERR_INVALID_USE_OF_AUTO_DESC, SQLSTATE_01S02, SQLSTATE_HYC00,
};
use crate::api::util::write_if_some;
use crate::error::{free_errors, post_sql_error, DiagView};
use crate::handles::stmt::{StmtHandle, StmtStateView, StmtView, STMT_STATE_FETCH_IN_PROGRESS};
use crate::handles::{HandleTable, HandleView, Handles};

verus! {

/// The controls that a block fetch reads into its snapshot.
pub open spec fn is_rowset_control(attribute: SqlInteger) -> bool {
    ||| attribute == SQL_ATTR_ROW_ARRAY_SIZE
    ||| attribute == SQL_ATTR_ROWS_FETCHED_PTR
    ||| attribute == SQL_ATTR_ROW_STATUS_PTR
    ||| attribute == SQL_ATTR_ROW_BIND_OFFSET_PTR
    ||| attribute == SQL_ATTR_ROW_BIND_TYPE
}

/// The attributes that select an application descriptor.
pub open spec fn is_app_desc(attribute: SqlInteger) -> bool {
    attribute == SQL_ATTR_APP_ROW_DESC || attribute == SQL_ATTR_APP_PARAM_DESC
}

/// The attributes that are accepted and have no effect.
pub open spec fn is_untracked(attribute: SqlInteger) -> bool {
    ||| attribute == SQL_ATTR_PARAM_BIND_TYPE
    ||| attribute == SQL_ATTR_PARAM_STATUS_PTR
    ||| attribute == SQL_ATTR_PARAMS_PROCESSED_PTR
}

/// The attributes that can be set.
pub open spec fn is_settable(attribute: SqlInteger) -> bool {
    ||| is_rowset_control(attribute)
    ||| is_app_desc(attribute)
    ||| is_untracked(attribute)
    ||| attribute == SQL_ATTR_PARAMSET_SIZE
    ||| attribute == SQL_ATTR_CURSOR_TYPE
    ||| attribute == SQL_ATTR_CONCURRENCY
}

/// The statement's own descriptor in the role that `attribute` selects.
pub open spec fn own_desc(s: StmtView, attribute: SqlInteger) -> SqlHandle {
    if attribute == SQL_ATTR_APP_ROW_DESC {
        s.ard
    } else {
        s.apd
    }
}

/// Whether `value` may be handed to `attribute` on statement `s`: where it
/// selects a descriptor it is null, the statement's own, or some live
/// descriptor. (The Driver Manager sees to that.)
pub open spec fn value_admissible(
    m: Handles,
    s: StmtView,
    attribute: SqlInteger,
    value: SqlPointer,
) -> bool {
    is_app_desc(attribute) ==> {
        ||| value == 0
        ||| value == own_desc(s, attribute)
        ||| crate::handles::is_desc(m, value)
    }
}

/// What asking for descriptor `value` comes to, where `own_implicit` is the
/// statement's own: null and its own stand for its own (`None`), an explicit
/// descriptor of the same connection for itself, and anything else is refused.
pub open spec fn association(
    m: Handles,
    parent_dbc: SqlHandle,
    own_implicit: SqlHandle,
    value: SqlPointer,
) -> Result<Option<SqlHandle>, DiagMsg> {
    if value == 0 || value == own_implicit {
        Ok(None)
    } else if !crate::handles::desc_at(m, value).explicit() {
        Err(ERR_INVALID_USE_OF_AUTO_DESC)
    } else if crate::handles::desc_at(m, value).parent_dbc != parent_dbc {
        Err(ERR_INVALID_ATTRIBUTE_VALUE)
    } else {
        Ok(Some(value))
    }
}

/// The association that setting `attribute` asks for.
pub open spec fn requested(
    m: Handles,
    s: StmtView,
    attribute: SqlInteger,
    value: SqlPointer,
) -> Result<Option<SqlHandle>, DiagMsg> {
    association(m, s.parent_dbc, own_desc(s, attribute), value)
}

/// Why setting `attribute` to `value` is refused; `None` when it is not.
pub open spec fn set_refusal(
    m: Handles,
    s: StmtView,
    attribute: SqlInteger,
    value: SqlPointer,
) -> Option<DiagView> {
    if !is_settable(attribute) {
        Some(ERR_INVALID_ATTRIBUTE_IDENTIFIER.record())
    } else if is_rowset_control(attribute) && s.inner.has_flag(STMT_STATE_FETCH_IN_PROGRESS) {
        Some(ERR_FUNCTION_SEQUENCE.record())
    } else if (attribute == SQL_ATTR_ROW_ARRAY_SIZE || attribute == SQL_ATTR_PARAMSET_SIZE) && value
        == 0 {
        Some(ERR_INVALID_ATTRIBUTE_VALUE.record())
    } else if attribute == SQL_ATTR_PARAMSET_SIZE && value > 1 {
        Some(
            DiagView {
                sql_state: "HYC00"@,
                native_error: 0,
                message: "Parameter arrays (SQL_ATTR_PARAMSET_SIZE > 1) are not supported"@,
            },
        )
    } else if is_app_desc(attribute) {
        match requested(m, s, attribute, value) {
            Ok(_) => None,
            Err(diag) => Some(diag.record()),
        }
    } else {
        None
    }
}

/// What is reported of an accepted value that another is used in place of;
/// `None` when the value itself is used.
pub open spec fn set_substitution(attribute: SqlInteger, value: SqlPointer) -> Option<DiagView> {
    if attribute == SQL_ATTR_CURSOR_TYPE && value != SQL_CURSOR_FORWARD_ONLY {
        Some(
            DiagView {
                sql_state: "01S02"@,
                native_error: 0,
                message: "Cursor type not supported; substituted SQL_CURSOR_FORWARD_ONLY"@,
            },
        )
    } else if attribute == SQL_ATTR_CONCURRENCY && value != SQL_CONCUR_READ_ONLY {
        Some(
            DiagView {
                sql_state: "01S02"@,
                native_error: 0,
                message: "Concurrency not supported; substituted SQL_CONCUR_READ_ONLY"@,
            },
        )
    } else {
        None
    }
}

/// What setting `attribute` to `value` returns.
pub open spec fn set_return(
    m: Handles,
    s: StmtView,
    attribute: SqlInteger,
    value: SqlPointer,
) -> SqlReturn {
    if set_refusal(m, s, attribute, value) is Some {
        SQL_ERROR
    } else if set_substitution(attribute, value) is Some {
        SQL_SUCCESS_WITH_INFO
    } else {
        SQL_SUCCESS
    }
}

/// The diagnostics that setting `attribute` to `value` leaves.
pub open spec fn set_diags(
    m: Handles,
    s: StmtView,
    attribute: SqlInteger,
    value: SqlPointer,
) -> Seq<DiagView> {
    match set_refusal(m, s, attribute, value) {
        Some(diag) => seq![diag],
        None => match set_substitution(attribute, value) {
            Some(diag) => seq![diag],
            None => Seq::empty(),
        },
    }
}

/// The state that accepting `value` for `attribute` gives, diagnostics aside.
/// Attributes whose value is fixed, or that have no effect, change nothing.
pub open spec fn stored(
    m: Handles,
    s: StmtView,
    attribute: SqlInteger,
    value: SqlPointer,
) -> StmtStateView {
    let state = s.inner;
    if attribute == SQL_ATTR_ROW_ARRAY_SIZE {
        StmtStateView { row_array_size: value, ..state }
    } else if attribute == SQL_ATTR_ROWS_FETCHED_PTR {
        StmtStateView { rows_fetched_ptr: value, ..state }
    } else if attribute == SQL_ATTR_ROW_STATUS_PTR {
        StmtStateView { row_status_ptr: value, ..state }
    } else if attribute == SQL_ATTR_ROW_BIND_TYPE {
        StmtStateView { row_bind_type: value, ..state }
    } else if attribute == SQL_ATTR_ROW_BIND_OFFSET_PTR {
        StmtStateView { row_bind_offset_ptr: value, ..state }
    } else if attribute == SQL_ATTR_APP_ROW_DESC {
        StmtStateView { active_ard: requested(m, s, attribute, value)->Ok_0, ..state }
    } else if attribute == SQL_ATTR_APP_PARAM_DESC {
        StmtStateView { active_apd: requested(m, s, attribute, value)->Ok_0, ..state }
    } else {
        state
    }
}

/// The statement after setting `attribute` to `value`.
pub open spec fn after_set(
    m: Handles,
    s: StmtView,
    attribute: SqlInteger,
    value: SqlPointer,
) -> StmtView {
    StmtView {
        inner: StmtStateView {
            diags: set_diags(m, s, attribute, value),
            ..if set_refusal(m, s, attribute, value) is Some {
                s.inner
            } else {
                stored(m, s, attribute, value)
            }
        },
        ..s
    }
}

/// The value of `attribute`; `None` when it cannot be read.
pub open spec fn attr_value(s: StmtView, attribute: SqlInteger) -> Option<SqlULen> {
    if attribute == SQL_ATTR_ROW_ARRAY_SIZE {
        Some(s.inner.row_array_size)
    } else if attribute == SQL_ATTR_ROWS_FETCHED_PTR {
        Some(s.inner.rows_fetched_ptr)
    } else if attribute == SQL_ATTR_ROW_STATUS_PTR {
        Some(s.inner.row_status_ptr)
    } else if attribute == SQL_ATTR_ROW_BIND_TYPE {
        Some(s.inner.row_bind_type)
    } else if attribute == SQL_ATTR_ROW_BIND_OFFSET_PTR {
        Some(s.inner.row_bind_offset_ptr)
    } else if attribute == SQL_ATTR_CURSOR_TYPE {
        Some(SQL_CURSOR_FORWARD_ONLY)
    } else if attribute == SQL_ATTR_CONCURRENCY {
        Some(SQL_CONCUR_READ_ONLY)
    } else if attribute == SQL_ATTR_PARAMSET_SIZE {
        Some(1)
    } else if attribute == SQL_ATTR_APP_ROW_DESC {
        Some(
            match s.inner.active_ard {
                Some(d) => d,
                None => s.ard,
            },
        )
    } else if attribute == SQL_ATTR_APP_PARAM_DESC {
        Some(
            match s.inner.active_apd {
                Some(d) => d,
                None => s.apd,
            },
        )
    } else if attribute == SQL_ATTR_IMP_ROW_DESC {
        Some(s.ird)
    } else if attribute == SQL_ATTR_IMP_PARAM_DESC {
        Some(s.ipd)
    } else if is_untracked(attribute) {
        Some(0)
    } else {
        None
    }
}

/// The statement after reading `attribute`.
pub open spec fn after_get(s: StmtView, attribute: SqlInteger) -> StmtView {
    StmtView {
        inner: StmtStateView {
            diags: if attr_value(s, attribute) is Some {
                Seq::empty()
            } else {
                seq![ERR_INVALID_ATTRIBUTE_IDENTIFIER.record()]
            },
            ..s.inner
        },
        ..s
    }
}

/// Sets a statement attribute.
///
/// `value_ptr` is an integer passed in the pointer's place, an application
/// address, or a descriptor handle, as the attribute has it; none of the
/// attributes is a string, so `_string_length` is not used.
pub fn sql_set_stmt_attr_w(
    handles: &mut HandleTable,
    statement_handle: SqlHandle,
    attribute: SqlInteger,
    value_ptr: SqlPointer,
    _string_length: SqlInteger,
) -> (ret: SqlReturn)
    requires
        statement_handle != SQL_NULL_HANDLE ==> crate::handles::is_stmt(
            old(handles)@,
            statement_handle,
        ) && value_admissible(
            old(handles)@,
            crate::handles::stmt_at(old(handles)@, statement_handle),
            attribute,
            value_ptr,
        ),
    ensures
        statement_handle == SQL_NULL_HANDLE ==> ret == SQL_INVALID_HANDLE && final(handles)@ == old(
            handles,
        )@,
        statement_handle != SQL_NULL_HANDLE ==> {
            let m = old(handles)@;
            let s = crate::handles::stmt_at(m, statement_handle);
            &&& ret == set_return(m, s, attribute, value_ptr)
            &&& final(handles)@ == m.insert(
                statement_handle,
                HandleView::Stmt(after_set(m, s, attribute, value_ptr)),
            )
        },
        crate::handles::lifecycle::well_formed(old(handles)@)
            ==> crate::handles::lifecycle::well_formed(final(handles)@),
{
    proof {
        let m = handles@;
        if statement_handle != SQL_NULL_HANDLE && crate::handles::lifecycle::well_formed(m) {
            crate::laws::attributes::law_set_keeps_order(m, statement_handle, attribute, value_ptr);
        }
    }
    sql_set_stmt_attr_w_impl(handles, statement_handle, attribute, value_ptr)
}

fn sql_set_stmt_attr_w_impl(
    handles: &mut HandleTable,
    statement_handle: SqlHandle,
    attribute: SqlInteger,
    value_ptr: SqlPointer,
) -> (ret: SqlReturn)
    requires
        statement_handle != SQL_NULL_HANDLE ==> crate::handles::is_stmt(
            old(handles)@,
            statement_handle,
        ) && value_admissible(
            old(handles)@,
            crate::handles::stmt_at(old(handles)@, statement_handle),
            attribute,
            value_ptr,
        ),
    ensures
        statement_handle == SQL_NULL_HANDLE ==> ret == SQL_INVALID_HANDLE && final(handles)@ == old(
            handles,
        )@,
        statement_handle != SQL_NULL_HANDLE ==> {
            let m = old(handles)@;
            let s = crate::handles::stmt_at(m, statement_handle);
            &&& ret == set_return(m, s, attribute, value_ptr)
            &&& final(handles)@ == m.insert(
                statement_handle,
                HandleView::Stmt(after_set(m, s, attribute, value_ptr)),
            )
        },
{
    if statement_handle == SQL_NULL_HANDLE {
        return SQL_INVALID_HANDLE;
    }
    sql_set_stmt_attr_w_safe(handles, statement_handle, attribute, value_ptr)
}

fn sql_set_stmt_attr_w_safe(
    handles: &mut HandleTable,
    statement_handle: SqlHandle,
    attribute: SqlInteger,
    value_ptr: SqlPointer,
) -> (ret: SqlReturn)
    requires
        crate::handles::is_stmt(old(handles)@, statement_handle),
        value_admissible(
            old(handles)@,
            crate::handles::stmt_at(old(handles)@, statement_handle),
            attribute,
            value_ptr,
        ),
    ensures
        ({
            let m = old(handles)@;
            let s = crate::handles::stmt_at(m, statement_handle);
            &&& ret == set_return(m, s, attribute, value_ptr)
            &&& final(handles)@ == m.insert(
                statement_handle,
                HandleView::Stmt(after_set(m, s, attribute, value_ptr)),
            )
        }),
{
    let ghost m = handles@;
    // Resolves the descriptor that the value names, while the table is whole.
    let asked = {
        let stmt = handles.stmt(statement_handle);
        match attribute {
            SQL_ATTR_APP_ROW_DESC => validate_descriptor_association(
                handles,
                stmt,
                stmt.ard,
                value_ptr,
            ),
            SQL_ATTR_APP_PARAM_DESC => validate_descriptor_association(
                handles,
                stmt,
                stmt.apd,
                value_ptr,
            ),
            _ => Ok(None),
        }
    };
    let stmt = handles.stmt_mut(statement_handle);
    let state = &mut stmt.inner;
    free_errors(state);

    // The rowset controls are read into a fetch's snapshot, so moving them
    // mid-fetch would point it at buffers of the wrong size or shape.
    let fetching = state.has_state(STMT_STATE_FETCH_IN_PROGRESS);
    let rowset_control = matches!(
        attribute,
        SQL_ATTR_ROW_ARRAY_SIZE
        | SQL_ATTR_ROWS_FETCHED_PTR
        | SQL_ATTR_ROW_STATUS_PTR
        | SQL_ATTR_ROW_BIND_OFFSET_PTR
        | SQL_ATTR_ROW_BIND_TYPE
    );
    if rowset_control && fetching {
        post_diag(state, ERR_FUNCTION_SEQUENCE);
        return SQL_ERROR;
    }
    match attribute {
        SQL_ATTR_ROW_ARRAY_SIZE => {
            if value_ptr == 0 {
                post_diag(state, ERR_INVALID_ATTRIBUTE_VALUE);
                return SQL_ERROR;
            }
            state.row_array_size = value_ptr;
            SQL_SUCCESS
        },
        SQL_ATTR_ROWS_FETCHED_PTR => {
            state.rows_fetched_ptr = value_ptr;
            SQL_SUCCESS
        },
        SQL_ATTR_ROW_STATUS_PTR => {
            state.row_status_ptr = value_ptr;
            SQL_SUCCESS
        },
        SQL_ATTR_ROW_BIND_TYPE => {
            state.row_bind_type = value_ptr;
            SQL_SUCCESS
        },
        SQL_ATTR_PARAMSET_SIZE => {
            match value_ptr {
                1 => SQL_SUCCESS,
                0 => {
                    post_diag(state, ERR_INVALID_ATTRIBUTE_VALUE);
                    SQL_ERROR
                },
                _ => {
                    post_sql_error(
                        state,
                        SQLSTATE_HYC00,
                        0,
                        "Parameter arrays (SQL_ATTR_PARAMSET_SIZE > 1) are not supported",
                    );
                    SQL_ERROR
                },
            }
        },
        SQL_ATTR_CURSOR_TYPE => {
            if value_ptr == SQL_CURSOR_FORWARD_ONLY {
                SQL_SUCCESS
            } else {
                post_sql_error(
                    state,
                    SQLSTATE_01S02,
                    0,
                    "Cursor type not supported; substituted SQL_CURSOR_FORWARD_ONLY",
                );
                SQL_SUCCESS_WITH_INFO
            }
        },
        SQL_ATTR_CONCURRENCY => {
            if value_ptr == SQL_CONCUR_READ_ONLY {
                SQL_SUCCESS
            } else {
                post_sql_error(
                    state,
                    SQLSTATE_01S02,
                    0,
                    "Concurrency not supported; substituted SQL_CONCUR_READ_ONLY",
                );
                SQL_SUCCESS_WITH_INFO
            }
        },
        SQL_ATTR_ROW_BIND_OFFSET_PTR => {
            state.row_bind_offset_ptr = value_ptr;
            SQL_SUCCESS
        },
        SQL_ATTR_APP_ROW_DESC => match asked {
            Ok(new_active) => {
                state.active_ard = new_active;
                SQL_SUCCESS
            },
            Err(diag) => {
                post_diag(state, diag);
                SQL_ERROR
            },
        },
        SQL_ATTR_APP_PARAM_DESC => match asked {
            Ok(new_active) => {
                state.active_apd = new_active;
                SQL_SUCCESS
            },
            Err(diag) => {
                post_diag(state, diag);
                SQL_ERROR
            },
        },
        SQL_ATTR_PARAM_BIND_TYPE | SQL_ATTR_PARAM_STATUS_PTR | SQL_ATTR_PARAMS_PROCESSED_PTR => {
            SQL_SUCCESS
        },
        _ => {
            post_diag(state, ERR_INVALID_ATTRIBUTE_IDENTIFIER);
            SQL_ERROR
        },
    }
}

/// Validates a new value of `SQL_ATTR_APP_ROW_DESC` or
/// `SQL_ATTR_APP_PARAM_DESC`, and returns what to store as the active
/// descriptor. `own_implicit` is the statement's own descriptor in that role.
///
/// - Null and `own_implicit` go back to the implicit descriptor (`Ok(None)`).
/// - Any other implicit descriptor, of this or another statement, is refused
///   with `HY017`.
/// - An explicit descriptor of another connection is refused with `HY024`.
pub fn validate_descriptor_association(
    handles: &HandleTable,
    stmt: &StmtHandle,
    own_implicit: SqlHandle,
    value_ptr: SqlPointer,
) -> (asked: Result<Option<SqlHandle>, DiagMsg>)
    requires
        value_ptr != 0 && value_ptr != own_implicit ==> crate::handles::is_desc(
            handles@,
            value_ptr,
        ),
    ensures
        asked == association(handles@, stmt.parent_dbc, own_implicit, value_ptr),
{
    let value: SqlHandle = value_ptr;
    if value == SQL_NULL_HANDLE || value == own_implicit {
        return Ok(None);
    }
    let target = handles.desc(value);
    if !target.is_explicit() {
        return Err(ERR_INVALID_USE_OF_AUTO_DESC);
    }
    if target.parent_dbc != stmt.parent_dbc {
        return Err(ERR_INVALID_ATTRIBUTE_VALUE);
    }
    Ok(Some(value))
}

/// Retrieves a statement attribute.
///
/// Every attribute is a pointer-sized integer, address or handle, so
/// `_buffer_length` and `_string_length_ptr` are not used. A null `value_ptr`
/// asks for nothing; an identifier that is not recognized leaves the output as
/// it was.
pub fn sql_get_stmt_attr_w(
    handles: &mut HandleTable,
    statement_handle: SqlHandle,
    attribute: SqlInteger,
    value_ptr: Option<&mut SqlULen>,
    _buffer_length: SqlInteger,
    _string_length_ptr: Option<&mut SqlInteger>,
) -> (ret: SqlReturn)
    requires
        statement_handle != SQL_NULL_HANDLE ==> crate::handles::is_stmt(
            old(handles)@,
            statement_handle,
        ),
    ensures
        statement_handle == SQL_NULL_HANDLE ==> {
            &&& ret == SQL_INVALID_HANDLE
            &&& final(handles)@ == old(handles)@
            &&& value_ptr matches Some(p) ==> *final(p) == *p
        },
        statement_handle != SQL_NULL_HANDLE ==> {
            let m = old(handles)@;
            let s = crate::handles::stmt_at(m, statement_handle);
            &&& ret == (if attr_value(s, attribute) is Some {
                SQL_SUCCESS
            } else {
                SQL_ERROR
            })
            &&& final(handles)@ == m.insert(
                statement_handle,
                HandleView::Stmt(after_get(s, attribute)),
            )
            &&& value_ptr matches Some(p) ==> *final(p) == (match attr_value(s, attribute) {
                Some(value) => value,
                None => *p,
            })
        },
        _string_length_ptr matches Some(p) ==> *final(p) == *p,
        crate::handles::lifecycle::well_formed(old(handles)@)
            ==> crate::handles::lifecycle::well_formed(final(handles)@),
{
    proof {
        let m = handles@;
        if statement_handle != SQL_NULL_HANDLE && crate::handles::lifecycle::well_formed(m) {
            crate::laws::attributes::law_get_keeps_order(m, statement_handle, attribute);
        }
    }
    sql_get_stmt_attr_w_impl(handles, statement_handle, attribute, value_ptr)
}

fn sql_get_stmt_attr_w_impl(
    handles: &mut HandleTable,
    statement_handle: SqlHandle,
    attribute: SqlInteger,
    value_ptr: Option<&mut SqlULen>,
) -> (ret: SqlReturn)
    requires
        statement_handle != SQL_NULL_HANDLE ==> crate::handles::is_stmt(
            old(handles)@,
            statement_handle,
        ),
    ensures
        statement_handle == SQL_NULL_HANDLE ==> {
            &&& ret == SQL_INVALID_HANDLE
            &&& final(handles)@ == old(handles)@
            &&& value_ptr matches Some(p) ==> *final(p) == *p
        },
        statement_handle != SQL_NULL_HANDLE ==> {
            let m = old(handles)@;
            let s = crate::handles::stmt_at(m, statement_handle);
            &&& ret == (if attr_value(s, attribute) is Some {
                SQL_SUCCESS
            } else {
                SQL_ERROR
            })
            &&& final(handles)@ == m.insert(
                statement_handle,
                HandleView::Stmt(after_get(s, attribute)),
            )
            &&& value_ptr matches Some(p) ==> *final(p) == (match attr_value(s, attribute) {
                Some(value) => value,
                None => *p,
            })
        },
{
    if statement_handle == SQL_NULL_HANDLE {
        return SQL_INVALID_HANDLE;
    }
    sql_get_stmt_attr_w_safe(handles, statement_handle, attribute, value_ptr)
}

fn sql_get_stmt_attr_w_safe(
    handles: &mut HandleTable,
    statement_handle: SqlHandle,
    attribute: SqlInteger,
    value_ptr: Option<&mut SqlULen>,
) -> (ret: SqlReturn)
    requires
        crate::handles::is_stmt(old(handles)@, statement_handle),
    ensures
        ({
            let m = old(handles)@;
            let s = crate::handles::stmt_at(m, statement_handle);
            &&& ret == (if attr_value(s, attribute) is Some {
                SQL_SUCCESS
            } else {
                SQL_ERROR
            })
            &&& final(handles)@ == m.insert(
                statement_handle,
                HandleView::Stmt(after_get(s, attribute)),
            )
            &&& value_ptr matches Some(p) ==> *final(p) == (match attr_value(s, attribute) {
                Some(value) => value,
                None => *p,
            })
        }),
{
    let stmt = handles.stmt_mut(statement_handle);
    free_errors(&mut stmt.inner);

    match attribute {
        SQL_ATTR_ROW_ARRAY_SIZE => {
            write_if_some(value_ptr, stmt.inner.row_array_size);
        },
        SQL_ATTR_ROWS_FETCHED_PTR => {
            write_if_some(value_ptr, stmt.inner.rows_fetched_ptr);
        },
        SQL_ATTR_ROW_STATUS_PTR => {
            write_if_some(value_ptr, stmt.inner.row_status_ptr);
        },
        SQL_ATTR_ROW_BIND_TYPE => {
            write_if_some(value_ptr, stmt.inner.row_bind_type);
        },
        SQL_ATTR_ROW_BIND_OFFSET_PTR => {
            write_if_some(value_ptr, stmt.inner.row_bind_offset_ptr);
        },
        // Recognized attributes that are not stored: the effective values of
        // this forward-only, read-only, single-paramset driver.
        SQL_ATTR_CURSOR_TYPE => {
            write_if_some(value_ptr, SQL_CURSOR_FORWARD_ONLY);
        },
        SQL_ATTR_CONCURRENCY => {
            write_if_some(value_ptr, SQL_CONCUR_READ_ONLY);
        },
        SQL_ATTR_PARAMSET_SIZE => {
            write_if_some(value_ptr, 1);
        },
        // Column-wise binding, and no status or count wanted.
        SQL_ATTR_PARAM_BIND_TYPE | SQL_ATTR_PARAM_STATUS_PTR | SQL_ATTR_PARAMS_PROCESSED_PTR => {
            write_if_some(value_ptr, 0);
        },
        // The active association: an explicit descriptor if one was set, else
        // the implicit one.
        SQL_ATTR_APP_ROW_DESC => {
            write_if_some(value_ptr, stmt.inner.active_ard.unwrap_or(stmt.ard));
        },
        SQL_ATTR_APP_PARAM_DESC => {
            write_if_some(value_ptr, stmt.inner.active_apd.unwrap_or(stmt.apd));
        },
        SQL_ATTR_IMP_ROW_DESC => {
            write_if_some(value_ptr, stmt.ird);
        },
        SQL_ATTR_IMP_PARAM_DESC => {
            write_if_some(value_ptr, stmt.ipd);
        },
        _ => {
            post_diag(&mut stmt.inner, ERR_INVALID_ATTRIBUTE_IDENTIFIER);
            return SQL_ERROR;
        },
    }

    SQL_SUCCESS
}

} // verus!
