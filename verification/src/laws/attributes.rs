//! Laws of statement attributes.

use vstd::prelude::*;

use crate::api::odbc_types::{
    SqlHandle, SqlInteger, SqlPointer, SQL_ATTR_APP_PARAM_DESC, SQL_ATTR_APP_ROW_DESC,
    SQL_ATTR_CONCURRENCY, SQL_ATTR_CURSOR_TYPE, SQL_ATTR_IMP_PARAM_DESC, SQL_ATTR_IMP_ROW_DESC,
    SQL_ATTR_PARAMSET_SIZE, SQL_ATTR_PARAMS_PROCESSED_PTR, SQL_ATTR_PARAM_BIND_TYPE,
    SQL_ATTR_PARAM_STATUS_PTR, SQL_ATTR_ROWS_FETCHED_PTR, SQL_ATTR_ROW_ARRAY_SIZE,
    SQL_ATTR_ROW_BIND_OFFSET_PTR, SQL_ATTR_ROW_BIND_TYPE, SQL_ATTR_ROW_STATUS_PTR,
    SQL_CONCUR_READ_ONLY, SQL_CURSOR_FORWARD_ONLY, SQL_DESC_ALLOC_USER, SQL_ERROR, SQL_SUCCESS,
    SQL_SUCCESS_WITH_INFO,
};
use crate::api::sqlstate::{
    DiagMsg, ERR_FUNCTION_SEQUENCE, ERR_INVALID_ATTRIBUTE_VALUE, ERR_INVALID_USE_OF_AUTO_DESC,
};
use crate::error::DiagView;
use crate::handles::stmt::{StmtStateView, StmtView, STMT_STATE_FETCH_IN_PROGRESS};
use crate::handles::{HandleView, Handles};

verus! {

/// When a value is accepted. Outside a fetch, every value of the bind type and
/// of the three pointers is, zero and null among them, and every rowset size
/// but zero. The cursor type and the concurrency always succeed, with a notice
/// unless the value is the supported one. A set of parameters has size one. The
/// parameter controls without effect take anything, and any other identifier
/// that is no descriptor's takes nothing.
pub proof fn law_when_a_value_is_accepted(
    m: Handles,
    s: StmtView,
    attribute: SqlInteger,
    value: SqlPointer,
)
    requires
        attribute != SQL_ATTR_APP_ROW_DESC,
        attribute != SQL_ATTR_APP_PARAM_DESC,
    ensures
        ({
            let ret = crate::api::set_stmt_attr::set_return(m, s, attribute, value);
            let fetching = s.inner.state_flags & STMT_STATE_FETCH_IN_PROGRESS != 0;
            let pointer = attribute == SQL_ATTR_ROWS_FETCHED_PTR || attribute
                == SQL_ATTR_ROW_STATUS_PTR || attribute == SQL_ATTR_ROW_BIND_OFFSET_PTR;
            let without_effect = attribute == SQL_ATTR_PARAM_BIND_TYPE || attribute
                == SQL_ATTR_PARAM_STATUS_PTR || attribute == SQL_ATTR_PARAMS_PROCESSED_PTR;
            &&& ret == SQL_SUCCESS || ret == SQL_SUCCESS_WITH_INFO || ret == SQL_ERROR
            &&& ret == SQL_SUCCESS <==> {
                ||| (attribute == SQL_ATTR_ROW_BIND_TYPE || pointer) && !fetching
                ||| attribute == SQL_ATTR_ROW_ARRAY_SIZE && !fetching && value != 0
                ||| attribute == SQL_ATTR_CURSOR_TYPE && value == SQL_CURSOR_FORWARD_ONLY
                ||| attribute == SQL_ATTR_CONCURRENCY && value == SQL_CONCUR_READ_ONLY
                ||| attribute == SQL_ATTR_PARAMSET_SIZE && value == 1
                ||| without_effect
            }
            &&& ret == SQL_SUCCESS_WITH_INFO <==> {
                ||| attribute == SQL_ATTR_CURSOR_TYPE && value != SQL_CURSOR_FORWARD_ONLY
                ||| attribute == SQL_ATTR_CONCURRENCY && value != SQL_CONCUR_READ_ONLY
            }
        }),
{
}

/// Why a value is refused: a fetch in progress comes before anything about the
/// value, a size of zero is an invalid value, a larger set of parameters is a
/// feature that is not there, and any other identifier is not known. There is
/// one record, of the driver's own, and nothing else.
pub proof fn law_why_a_value_is_refused(
    m: Handles,
    s: StmtView,
    attribute: SqlInteger,
    value: SqlPointer,
)
    requires
        attribute != SQL_ATTR_APP_ROW_DESC,
        attribute != SQL_ATTR_APP_PARAM_DESC,
        crate::api::set_stmt_attr::set_return(m, s, attribute, value) == SQL_ERROR,
    ensures
        ({
            let diags = crate::api::set_stmt_attr::after_set(m, s, attribute, value).inner.diags;
            let fetching = s.inner.state_flags & STMT_STATE_FETCH_IN_PROGRESS != 0;
            &&& diags.len() == 1
            &&& diags[0].native_error == 0
            &&& attribute == SQL_ATTR_ROW_BIND_TYPE || attribute == SQL_ATTR_ROWS_FETCHED_PTR
                || attribute == SQL_ATTR_ROW_STATUS_PTR || attribute
                == SQL_ATTR_ROW_BIND_OFFSET_PTR || (attribute == SQL_ATTR_ROW_ARRAY_SIZE
                && fetching) ==> diags[0].sql_state == "HY010"@ && diags[0].message
                == "Function sequence error"@
            &&& (attribute == SQL_ATTR_ROW_ARRAY_SIZE && !fetching) || (attribute
                == SQL_ATTR_PARAMSET_SIZE && value == 0) ==> diags[0].sql_state == "HY024"@
                && diags[0].message == "Invalid attribute value"@
            &&& attribute == SQL_ATTR_PARAMSET_SIZE && value > 1 ==> diags[0].sql_state
                == "HYC00"@ && diags[0].message
                == "Parameter arrays (SQL_ATTR_PARAMSET_SIZE > 1) are not supported"@
            &&& attribute != SQL_ATTR_ROW_BIND_TYPE && attribute != SQL_ATTR_ROWS_FETCHED_PTR
                && attribute != SQL_ATTR_ROW_STATUS_PTR && attribute
                != SQL_ATTR_ROW_BIND_OFFSET_PTR && attribute != SQL_ATTR_ROW_ARRAY_SIZE
                && attribute != SQL_ATTR_PARAMSET_SIZE ==> diags[0].sql_state == "HY092"@
                && diags[0].message == "Invalid attribute/option identifier"@
        }),
{
}

/// What is reported of a value that another is used in place of.
pub proof fn law_what_is_reported_of_a_substitution(
    m: Handles,
    s: StmtView,
    attribute: SqlInteger,
    value: SqlPointer,
)
    requires
        crate::api::set_stmt_attr::set_return(m, s, attribute, value) == SQL_SUCCESS_WITH_INFO,
    ensures
        ({
            let diags = crate::api::set_stmt_attr::after_set(m, s, attribute, value).inner.diags;
            &&& diags.len() == 1
            &&& diags[0].sql_state == "01S02"@
            &&& diags[0].native_error == 0
            &&& attribute == SQL_ATTR_CURSOR_TYPE ==> diags[0].message
                == "Cursor type not supported; substituted SQL_CURSOR_FORWARD_ONLY"@
            &&& attribute == SQL_ATTR_CONCURRENCY ==> diags[0].message
                == "Concurrency not supported; substituted SQL_CONCUR_READ_ONLY"@
        }),
{
}

/// What a set moves: the field of its own attribute, to the value, and no other
/// field of the statement. A set that is refused, or whose attribute has a
/// fixed value or no effect, moves none.
pub proof fn law_what_a_set_moves(
    m: Handles,
    s: StmtView,
    attribute: SqlInteger,
    value: SqlPointer,
)
    ensures
        ({
            let after = crate::api::set_stmt_attr::after_set(m, s, attribute, value);
            let accepted = crate::api::set_stmt_attr::set_return(m, s, attribute, value)
                == SQL_SUCCESS;
            &&& after == StmtView { inner: after.inner, ..s }
            &&& after.inner == StmtStateView {
                diags: after.inner.diags,
                row_array_size: after.inner.row_array_size,
                rows_fetched_ptr: after.inner.rows_fetched_ptr,
                row_status_ptr: after.inner.row_status_ptr,
                row_bind_type: after.inner.row_bind_type,
                row_bind_offset_ptr: after.inner.row_bind_offset_ptr,
                active_ard: after.inner.active_ard,
                active_apd: after.inner.active_apd,
                ..s.inner
            }
            &&& after.inner.row_array_size == if accepted && attribute == SQL_ATTR_ROW_ARRAY_SIZE {
                value
            } else {
                s.inner.row_array_size
            }
            &&& after.inner.rows_fetched_ptr == if accepted && attribute
                == SQL_ATTR_ROWS_FETCHED_PTR {
                value
            } else {
                s.inner.rows_fetched_ptr
            }
            &&& after.inner.row_status_ptr == if accepted && attribute == SQL_ATTR_ROW_STATUS_PTR {
                value
            } else {
                s.inner.row_status_ptr
            }
            &&& after.inner.row_bind_type == if accepted && attribute == SQL_ATTR_ROW_BIND_TYPE {
                value
            } else {
                s.inner.row_bind_type
            }
            &&& after.inner.row_bind_offset_ptr == if accepted && attribute
                == SQL_ATTR_ROW_BIND_OFFSET_PTR {
                value
            } else {
                s.inner.row_bind_offset_ptr
            }
            &&& after.inner.active_ard == if accepted && attribute == SQL_ATTR_APP_ROW_DESC {
                if value == 0 || value == s.ard {
                    None
                } else {
                    Some(value)
                }
            } else {
                s.inner.active_ard
            }
            &&& after.inner.active_apd == if accepted && attribute == SQL_ATTR_APP_PARAM_DESC {
                if value == 0 || value == s.apd {
                    None
                } else {
                    Some(value)
                }
            } else {
                s.inner.active_apd
            }
        }),
{
}

/// Going back: a rowset control that was moved from one value to another can be
/// set to the first again outside a fetch, and the statement is then as it was,
/// without diagnostics.
pub proof fn law_set_can_be_undone(
    m: Handles,
    s: StmtView,
    attribute: SqlInteger,
    value: SqlPointer,
)
    requires
        attribute == SQL_ATTR_ROW_ARRAY_SIZE || attribute == SQL_ATTR_ROWS_FETCHED_PTR || attribute
            == SQL_ATTR_ROW_STATUS_PTR || attribute == SQL_ATTR_ROW_BIND_OFFSET_PTR || attribute
            == SQL_ATTR_ROW_BIND_TYPE,
        s.inner.state_flags & STMT_STATE_FETCH_IN_PROGRESS == 0,
        s.inner.row_array_size > 0,
    ensures
        ({
            let moved = crate::api::set_stmt_attr::after_set(m, s, attribute, value);
            let first = crate::api::set_stmt_attr::attr_value(s, attribute);
            &&& first is Some
            &&& crate::api::set_stmt_attr::set_return(m, moved, attribute, first->0) == SQL_SUCCESS
            &&& crate::api::set_stmt_attr::after_set(m, moved, attribute, first->0)
                == StmtView { inner: StmtStateView { diags: Seq::empty(), ..s.inner }, ..s }
        }),
{
}

/// What reading gives: the field that the attribute is about, the one supported
/// value where there is no choice, and the descriptor in use, which is the
/// statement's own unless another was associated.
pub proof fn law_what_is_read(s: StmtView)
    ensures
        crate::api::set_stmt_attr::attr_value(s, SQL_ATTR_ROW_ARRAY_SIZE) == Some(
            s.inner.row_array_size,
        ),
        crate::api::set_stmt_attr::attr_value(s, SQL_ATTR_ROWS_FETCHED_PTR) == Some(
            s.inner.rows_fetched_ptr,
        ),
        crate::api::set_stmt_attr::attr_value(s, SQL_ATTR_ROW_STATUS_PTR) == Some(
            s.inner.row_status_ptr,
        ),
        crate::api::set_stmt_attr::attr_value(s, SQL_ATTR_ROW_BIND_TYPE) == Some(
            s.inner.row_bind_type,
        ),
        crate::api::set_stmt_attr::attr_value(s, SQL_ATTR_ROW_BIND_OFFSET_PTR) == Some(
            s.inner.row_bind_offset_ptr,
        ),
        crate::api::set_stmt_attr::attr_value(s, SQL_ATTR_CURSOR_TYPE) == Some(
            SQL_CURSOR_FORWARD_ONLY,
        ),
        crate::api::set_stmt_attr::attr_value(s, SQL_ATTR_CONCURRENCY) == Some(
            SQL_CONCUR_READ_ONLY,
        ),
        crate::api::set_stmt_attr::attr_value(s, SQL_ATTR_PARAMSET_SIZE) == Some(1usize),
        crate::api::set_stmt_attr::attr_value(s, SQL_ATTR_PARAM_BIND_TYPE) == Some(0usize),
        crate::api::set_stmt_attr::attr_value(s, SQL_ATTR_PARAM_STATUS_PTR) == Some(0usize),
        crate::api::set_stmt_attr::attr_value(s, SQL_ATTR_PARAMS_PROCESSED_PTR) == Some(0usize),
        s.inner.active_ard is None ==> crate::api::set_stmt_attr::attr_value(
            s,
            SQL_ATTR_APP_ROW_DESC,
        ) == Some(s.ard),
        s.inner.active_ard is Some ==> crate::api::set_stmt_attr::attr_value(
            s,
            SQL_ATTR_APP_ROW_DESC,
        ) == s.inner.active_ard,
        s.inner.active_apd is None ==> crate::api::set_stmt_attr::attr_value(
            s,
            SQL_ATTR_APP_PARAM_DESC,
        ) == Some(s.apd),
        s.inner.active_apd is Some ==> crate::api::set_stmt_attr::attr_value(
            s,
            SQL_ATTR_APP_PARAM_DESC,
        ) == s.inner.active_apd,
        crate::api::set_stmt_attr::attr_value(s, SQL_ATTR_IMP_ROW_DESC) == Some(s.ird),
        crate::api::set_stmt_attr::attr_value(s, SQL_ATTR_IMP_PARAM_DESC) == Some(s.ipd),
{
}

/// What can be read is what can be set, with the implementation descriptors
/// added; anything else is an identifier that is not known.
pub proof fn law_what_can_be_read(m: Handles, s: StmtView, attribute: SqlInteger)
    ensures
        crate::api::set_stmt_attr::attr_value(s, attribute) is Some <==> {
            ||| attribute == SQL_ATTR_IMP_ROW_DESC
            ||| attribute == SQL_ATTR_IMP_PARAM_DESC
            ||| exists|value: SqlPointer| #[trigger]
                crate::api::set_stmt_attr::set_return(
                    m,
                    StmtView { inner: StmtStateView { state_flags: 0, ..s.inner }, ..s },
                    attribute,
                    value,
                ) != SQL_ERROR
        },
        crate::api::set_stmt_attr::attr_value(s, attribute) is None ==> {
            let diags = crate::api::set_stmt_attr::after_get(s, attribute).inner.diags;
            &&& diags.len() == 1
            &&& diags[0].sql_state == "HY092"@
            &&& diags[0].native_error == 0
            &&& diags[0].message == "Invalid attribute/option identifier"@
        },
{
    let idle = StmtView { inner: StmtStateView { state_flags: 0, ..s.inner }, ..s };
    assert(0u32 & STMT_STATE_FETCH_IN_PROGRESS == 0) by (bit_vector);
    let one = crate::api::set_stmt_attr::set_return(m, idle, attribute, 1);
    let null = crate::api::set_stmt_attr::set_return(m, idle, attribute, 0);
}

/// What asking for a descriptor comes to. Null and the statement's own stand
/// for its own. Of the others, only an explicit one of the statement's
/// connection is taken, as itself; an implicit one is refused as such, whatever
/// its connection, and an explicit one of another connection as a value.
pub proof fn law_what_an_association_comes_to(
    m: Handles,
    parent_dbc: SqlHandle,
    own: SqlHandle,
    value: SqlHandle,
)
    ensures
        ({
            let asked = crate::api::set_stmt_attr::association(m, parent_dbc, own, value);
            let d = crate::handles::desc_at(m, value);
            &&& asked == Ok::<Option<SqlHandle>, DiagMsg>(None) <==> value == 0 || value == own
            &&& value != 0 && value != own ==> {
                &&& asked == Ok::<Option<SqlHandle>, DiagMsg>(Some(value)) <==> d.alloc_type
                    == SQL_DESC_ALLOC_USER && d.parent_dbc == parent_dbc
                &&& asked matches Ok(used) ==> used == Some(value)
                &&& asked matches Err(diag) ==> {
                    &&& diag.record().native_error == 0
                    &&& d.alloc_type != SQL_DESC_ALLOC_USER ==> diag.record().sql_state
                        == "HY017"@ && diag.record().message
                        == "Invalid use of an automatically allocated descriptor handle"@
                    &&& d.alloc_type == SQL_DESC_ALLOC_USER ==> diag.record().sql_state
                        == "HY024"@ && diag.record().message == "Invalid attribute value"@
                }
            }
        }),
{
}

/// The descriptor attributes are set exactly when the association is granted,
/// each against the statement's own descriptor in its role, fetch or no fetch,
/// and a refusal is reported as the association has it.
pub proof fn law_descriptor_attributes_follow_the_association(
    m: Handles,
    s: StmtView,
    value: SqlPointer,
)
    ensures
        ({
            let row = crate::api::set_stmt_attr::association(m, s.parent_dbc, s.ard, value);
            let param = crate::api::set_stmt_attr::association(m, s.parent_dbc, s.apd, value);
            let after_row = crate::api::set_stmt_attr::after_set(
                m,
                s,
                SQL_ATTR_APP_ROW_DESC,
                value,
            );
            let after_param = crate::api::set_stmt_attr::after_set(
                m,
                s,
                SQL_ATTR_APP_PARAM_DESC,
                value,
            );
            &&& crate::api::set_stmt_attr::set_return(m, s, SQL_ATTR_APP_ROW_DESC, value)
                == if row is Ok {
                SQL_SUCCESS
            } else {
                SQL_ERROR
            }
            &&& crate::api::set_stmt_attr::set_return(m, s, SQL_ATTR_APP_PARAM_DESC, value)
                == if param is Ok {
                SQL_SUCCESS
            } else {
                SQL_ERROR
            }
            &&& row matches Ok(used) ==> after_row.inner.active_ard == used
            &&& row matches Err(diag) ==> after_row.inner.diags == seq![diag.record()]
            &&& param matches Ok(used) ==> after_param.inner.active_apd == used
            &&& param matches Err(diag) ==> after_param.inner.diags == seq![diag.record()]
        }),
{
}

/// A value that was set is the value that is read back. Null, for a descriptor,
/// reads back as the statement's own, and an attribute that is accepted without
/// effect as its default.
pub proof fn law_set_then_get(m: Handles, s: StmtView, attribute: SqlInteger, value: SqlPointer)
    requires
        crate::api::set_stmt_attr::set_return(m, s, attribute, value) == SQL_SUCCESS,
    ensures
        crate::api::set_stmt_attr::attr_value(
            crate::api::set_stmt_attr::after_set(m, s, attribute, value),
            attribute,
        ) == Some(
            if crate::api::set_stmt_attr::is_app_desc(attribute) && value == 0 {
                crate::api::set_stmt_attr::own_desc(s, attribute)
            } else if crate::api::set_stmt_attr::is_untracked(attribute) {
                0
            } else {
                value
            },
        ),
{
}

/// An attribute that can be set can be read back.
pub proof fn law_settable_is_readable(
    m: Handles,
    s: StmtView,
    attribute: SqlInteger,
    value: SqlPointer,
)
    requires
        crate::api::set_stmt_attr::set_return(m, s, attribute, value) != SQL_ERROR,
    ensures
        crate::api::set_stmt_attr::attr_value(
            crate::api::set_stmt_attr::after_set(m, s, attribute, value),
            attribute,
        ) is Some,
{
}

/// A value that another is used in place of is not read back: the attribute
/// keeps the supported value that it had.
pub proof fn law_substituted_value_is_not_kept(
    m: Handles,
    s: StmtView,
    attribute: SqlInteger,
    value: SqlPointer,
)
    requires
        crate::api::set_stmt_attr::set_return(m, s, attribute, value) == SQL_SUCCESS_WITH_INFO,
    ensures
        ({
            let after = crate::api::set_stmt_attr::after_set(m, s, attribute, value);
            let read = crate::api::set_stmt_attr::attr_value(after, attribute);
            &&& read is Some
            &&& read != Some(value)
            &&& read == crate::api::set_stmt_attr::attr_value(s, attribute)
            &&& after == StmtView {
                inner: StmtStateView { diags: after.inner.diags, ..s.inner },
                ..s
            }
        }),
{
}

/// A refused value changes nothing but the diagnostics.
pub proof fn law_refused_value_changes_diagnostics_only(
    m: Handles,
    s: StmtView,
    attribute: SqlInteger,
    value: SqlPointer,
)
    requires
        crate::api::set_stmt_attr::set_return(m, s, attribute, value) == SQL_ERROR,
    ensures
        ({
            let after = crate::api::set_stmt_attr::after_set(m, s, attribute, value);
            &&& after == StmtView {
                inner: StmtStateView { diags: after.inner.diags, ..s.inner },
                ..s
            }
            &&& after.inner.diags.len() == 1
        }),
{
}

/// Setting one attribute leaves what every other reads.
pub proof fn law_set_leaves_other_attributes(
    m: Handles,
    s: StmtView,
    attribute: SqlInteger,
    value: SqlPointer,
    other: SqlInteger,
)
    requires
        other != attribute,
    ensures
        crate::api::set_stmt_attr::attr_value(
            crate::api::set_stmt_attr::after_set(m, s, attribute, value),
            other,
        ) == crate::api::set_stmt_attr::attr_value(s, other),
{
}

/// A set call leaves no diagnostic exactly when it returns `SQL_SUCCESS`, one
/// at most, and none of those that were there before it.
pub proof fn law_diagnostics_are_of_this_call(
    m: Handles,
    s: StmtView,
    stale: Seq<DiagView>,
    attribute: SqlInteger,
    value: SqlPointer,
)
    ensures
        ({
            let after = crate::api::set_stmt_attr::after_set(m, s, attribute, value);
            let littered = StmtView {
                inner: StmtStateView { diags: stale, ..s.inner },
                ..s
            };
            &&& after.inner.diags.len() == 0 <==> crate::api::set_stmt_attr::set_return(
                m,
                s,
                attribute,
                value,
            ) == SQL_SUCCESS
            &&& after.inner.diags.len() <= 1
            &&& crate::api::set_stmt_attr::after_set(m, littered, attribute, value) == after
            &&& crate::api::set_stmt_attr::after_get(littered, attribute)
                == crate::api::set_stmt_attr::after_get(s, attribute)
        }),
{
}

/// Reading an attribute changes nothing but the diagnostics, which it clears
/// when the attribute can be read; reading again gives the same.
pub proof fn law_get_changes_diagnostics_only(
    s: StmtView,
    attribute: SqlInteger,
    other: SqlInteger,
)
    ensures
        ({
            let after = crate::api::set_stmt_attr::after_get(s, attribute);
            &&& after == StmtView {
                inner: StmtStateView { diags: after.inner.diags, ..s.inner },
                ..s
            }
            &&& after.inner.diags.len() == 0 <==> crate::api::set_stmt_attr::attr_value(
                s,
                attribute,
            ) is Some
            &&& crate::api::set_stmt_attr::attr_value(after, other)
                == crate::api::set_stmt_attr::attr_value(s, other)
        }),
{
}

/// While a fetch is in progress no rowset control moves: setting one fails with
/// a function sequence error, and setting anything leaves them all.
pub proof fn law_fetch_freezes_rowset_controls(
    m: Handles,
    s: StmtView,
    attribute: SqlInteger,
    value: SqlPointer,
    control: SqlInteger,
)
    requires
        s.inner.has_flag(STMT_STATE_FETCH_IN_PROGRESS),
        crate::api::set_stmt_attr::is_rowset_control(control),
    ensures
        crate::api::set_stmt_attr::set_return(m, s, control, value) == SQL_ERROR,
        crate::api::set_stmt_attr::set_diags(m, s, control, value)
            == seq![ERR_FUNCTION_SEQUENCE.record()],
        crate::api::set_stmt_attr::attr_value(
            crate::api::set_stmt_attr::after_set(m, s, attribute, value),
            control,
        ) == crate::api::set_stmt_attr::attr_value(s, control),
{
}

/// Of two values set one after the other, an accepted second one is all that is
/// left: a new association replaces the previous one.
pub proof fn law_last_set_wins(
    m: Handles,
    h: SqlHandle,
    attribute: SqlInteger,
    first: SqlPointer,
    second: SqlPointer,
)
    requires
        crate::handles::is_stmt(m, h),
        crate::api::set_stmt_attr::value_admissible(
            m,
            crate::handles::stmt_at(m, h),
            attribute,
            second,
        ),
        crate::api::set_stmt_attr::set_return(
            m,
            crate::handles::stmt_at(m, h),
            attribute,
            second,
        ) != SQL_ERROR,
    ensures
        ({
            let s = crate::handles::stmt_at(m, h);
            let once = crate::api::set_stmt_attr::after_set(m, s, attribute, first);
            let then = m.insert(h, HandleView::Stmt(once));
            &&& crate::api::set_stmt_attr::set_return(then, once, attribute, second)
                == crate::api::set_stmt_attr::set_return(m, s, attribute, second)
            &&& crate::api::set_stmt_attr::after_set(then, once, attribute, second)
                == crate::api::set_stmt_attr::after_set(m, s, attribute, second)
        }),
{
}

/// Null and the statement's own descriptor are two spellings of the same
/// request, which always succeeds and ends any association.
pub proof fn law_reset_has_two_spellings(m: Handles, s: StmtView, attribute: SqlInteger)
    requires
        crate::api::set_stmt_attr::is_app_desc(attribute),
    ensures
        ({
            let own = crate::api::set_stmt_attr::own_desc(s, attribute);
            let after = crate::api::set_stmt_attr::after_set(m, s, attribute, 0);
            &&& crate::api::set_stmt_attr::set_return(m, s, attribute, 0) == SQL_SUCCESS
            &&& crate::api::set_stmt_attr::set_return(m, s, attribute, own) == SQL_SUCCESS
            &&& crate::api::set_stmt_attr::after_set(m, s, attribute, own) == after
            &&& crate::api::set_stmt_attr::attr_value(after, attribute) == Some(own)
        }),
{
}

/// A descriptor can be associated exactly when it is the statement's own or an
/// explicit one of the statement's connection. Any other implicit descriptor is
/// refused as such, and an explicit one of another connection as an invalid
/// value.
pub proof fn law_what_can_be_associated(
    m: Handles,
    s: StmtView,
    attribute: SqlInteger,
    desc: SqlHandle,
)
    requires
        crate::api::set_stmt_attr::is_app_desc(attribute),
        crate::handles::is_desc(m, desc),
        desc != 0,
        desc != crate::api::set_stmt_attr::own_desc(s, attribute),
    ensures
        ({
            let d = crate::handles::desc_at(m, desc);
            let diags = crate::api::set_stmt_attr::set_diags(m, s, attribute, desc);
            &&& crate::api::set_stmt_attr::set_return(m, s, attribute, desc) == SQL_SUCCESS
                <==> crate::handles::lifecycle::explicit_on(m, desc, s.parent_dbc)
            &&& !d.explicit() ==> diags == seq![ERR_INVALID_USE_OF_AUTO_DESC.record()]
            &&& d.explicit() && d.parent_dbc != s.parent_dbc ==> diags
                == seq![ERR_INVALID_ATTRIBUTE_VALUE.record()]
        }),
{
}

/// The implementation descriptors can be read and not exchanged.
pub proof fn law_implementation_descriptors_are_fixed(
    m: Handles,
    s: StmtView,
    attribute: SqlInteger,
    value: SqlPointer,
)
    ensures
        crate::api::set_stmt_attr::set_return(m, s, SQL_ATTR_IMP_ROW_DESC, value) == SQL_ERROR,
        crate::api::set_stmt_attr::set_return(m, s, SQL_ATTR_IMP_PARAM_DESC, value) == SQL_ERROR,
        ({
            let after = crate::api::set_stmt_attr::after_set(m, s, attribute, value);
            &&& crate::api::set_stmt_attr::attr_value(after, SQL_ATTR_IMP_ROW_DESC) == Some(s.ird)
            &&& crate::api::set_stmt_attr::attr_value(after, SQL_ATTR_IMP_PARAM_DESC) == Some(
                s.ipd,
            )
        }),
{
}

/// One explicit descriptor can be in use by two statements of its connection at
/// once: associating it with the one leaves the other as it is.
pub proof fn law_descriptor_can_be_shared(
    m: Handles,
    a: SqlHandle,
    b: SqlHandle,
    attribute: SqlInteger,
    desc: SqlHandle,
)
    requires
        crate::handles::is_stmt(m, a),
        crate::handles::is_stmt(m, b),
        a != b,
        crate::api::set_stmt_attr::is_app_desc(attribute),
        desc != 0,
        crate::handles::lifecycle::explicit_on(m, desc, crate::handles::stmt_at(m, a).parent_dbc),
        crate::handles::lifecycle::explicit_on(m, desc, crate::handles::stmt_at(m, b).parent_dbc),
    ensures
        ({
            let of_a = crate::api::set_stmt_attr::after_set(
                m,
                crate::handles::stmt_at(m, a),
                attribute,
                desc,
            );
            let one = m.insert(a, HandleView::Stmt(of_a));
            let of_b = crate::api::set_stmt_attr::after_set(
                one,
                crate::handles::stmt_at(one, b),
                attribute,
                desc,
            );
            let both = one.insert(b, HandleView::Stmt(of_b));
            &&& crate::handles::stmt_at(one, b) == crate::handles::stmt_at(m, b)
            &&& crate::handles::stmt_at(both, a) == of_a
            &&& crate::api::set_stmt_attr::attr_value(
                crate::handles::stmt_at(both, a),
                attribute,
            ) == Some(desc)
            &&& crate::api::set_stmt_attr::attr_value(
                crate::handles::stmt_at(both, b),
                attribute,
            ) == Some(desc)
        }),
{
}

/// Setting an attribute keeps the table in order: a rowset has at least one
/// row, and a statement's descriptors are its own or live explicit ones of its
/// connection.
pub proof fn law_set_keeps_order(
    m: Handles,
    h: SqlHandle,
    attribute: SqlInteger,
    value: SqlPointer,
)
    requires
        crate::handles::lifecycle::well_formed(m),
        crate::handles::is_stmt(m, h),
        crate::api::set_stmt_attr::value_admissible(
            m,
            crate::handles::stmt_at(m, h),
            attribute,
            value,
        ),
    ensures
        crate::handles::lifecycle::well_formed(
            m.insert(
                h,
                HandleView::Stmt(
                    crate::api::set_stmt_attr::after_set(
                        m,
                        crate::handles::stmt_at(m, h),
                        attribute,
                        value,
                    ),
                ),
            ),
        ),
{
    crate::handles::lifecycle::lemma_stmt_changed_well_formed(
        m,
        h,
        crate::api::set_stmt_attr::after_set(m, crate::handles::stmt_at(m, h), attribute, value),
    );
}

/// Reading an attribute keeps the table in order.
pub proof fn law_get_keeps_order(m: Handles, h: SqlHandle, attribute: SqlInteger)
    requires
        crate::handles::lifecycle::well_formed(m),
        crate::handles::is_stmt(m, h),
    ensures
        crate::handles::lifecycle::well_formed(
            m.insert(
                h,
                HandleView::Stmt(
                    crate::api::set_stmt_attr::after_get(crate::handles::stmt_at(m, h), attribute),
                ),
            ),
        ),
{
    crate::handles::lifecycle::lemma_stmt_changed_well_formed(
        m,
        h,
        crate::api::set_stmt_attr::after_get(crate::handles::stmt_at(m, h), attribute),
    );
}

} // verus!
