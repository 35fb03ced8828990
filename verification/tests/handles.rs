//! The handle table: allocating, freeing, and connections.

use std::sync::Arc;

use mssql_odbc::api::odbc_types::{
    SqlHandle, DEFAULT_PACKET_SIZE, SQL_ATTR_APP_ROW_DESC, SQL_DESC_ALLOC_AUTO,
    SQL_DESC_ALLOC_USER, SQL_INVALID_HANDLE, SQL_MODE_READ_WRITE, SQL_NULL_HANDLE, SQL_SUCCESS,
    SQL_TXN_READ_COMMITTED,
};
use mssql_odbc::api::set_stmt_attr::sql_set_stmt_attr_w;
use mssql_odbc::error::{post_sql_error, HasDiagnostics};
use mssql_odbc::handles::dbc::{ConnectionState, DbcHandle};
use mssql_odbc::handles::desc::DescKind;
use mssql_odbc::handles::env::EnvHandle;
use mssql_odbc::handles::{HandleTable, HandleType, HasObjectType};
use tokio::runtime::Runtime;

fn runtime() -> Arc<Runtime> {
    Arc::new(Runtime::new().unwrap())
}

fn connected_table() -> (HandleTable, SqlHandle, SqlHandle) {
    let runtime = runtime();
    let mut handles = HandleTable::new();
    let env = handles.alloc_env(runtime.clone());
    let dbc = handles.alloc_dbc(env, runtime);
    (handles, env, dbc)
}

#[test]
fn handles_report_their_type() {
    let (mut handles, env, dbc) = connected_table();
    let stmt = handles.alloc_stmt(dbc);
    let desc = handles.alloc_desc(dbc);
    assert_eq!(handles.object_type(SQL_NULL_HANDLE), HandleType::Invalid);
    assert_eq!(handles.object_type(usize::MAX), HandleType::Invalid);
    assert_eq!(handles.object_type(env), HandleType::Env);
    assert_eq!(handles.object_type(dbc), HandleType::Dbc);
    assert_eq!(handles.object_type(stmt), HandleType::Stmt);
    assert_eq!(handles.object_type(desc), HandleType::Desc);
    assert_eq!(handles.env(env).object_type, HandleType::Env);
    assert_eq!(handles.dbc(dbc).object_type, HandleType::Dbc);
    assert_eq!(handles.desc(desc).object_type, HandleType::Desc);
}

#[test]
fn a_new_connection_has_the_documented_defaults() {
    let (handles, env, dbc) = connected_table();
    let connection = handles.dbc(dbc);
    assert_eq!(connection.parent_env, env);
    let state = &connection.inner;
    assert_eq!(state.connection_state, ConnectionState::Disconnected);
    assert!(state.statements.is_empty() && state.descriptors.is_empty());
    assert!(state.client.is_none() && state.active_stmt.is_none());
    assert_eq!((state.access_token.as_deref(), state.login_timeout), (None, None));
    assert_eq!(state.access_mode, SQL_MODE_READ_WRITE);
    assert_eq!((state.connection_timeout, state.packet_size), (0, DEFAULT_PACKET_SIZE));
    assert!(state.autocommit);
    assert_eq!(state.txn_isolation, SQL_TXN_READ_COMMITTED);
    assert!(!state.server_isolation_unknown && !state.local_tran_started);
    assert_eq!(state.reset_generation, 0);
}

#[test]
fn a_connection_shares_the_runtime_of_its_environment() {
    let runtime = runtime();
    let mut handles = HandleTable::new();
    let env = handles.alloc_env(runtime.clone());
    let dbc = handles.alloc_dbc(env, runtime.clone());
    let connection = handles.dbc(dbc);
    assert!(Arc::ptr_eq(&connection.parent_env(&handles).runtime, &runtime));
    assert!(Arc::ptr_eq(&connection.runtime, &runtime));
}

#[test]
fn the_access_token_is_never_shown() {
    let mut connection = DbcHandle::new(SQL_NULL_HANDLE, runtime());
    assert!(format!("{:?}", connection.inner.debug_view()).contains("access_token: None"));
    connection.inner.access_token = Some("bearer-value".to_string());
    let shown = connection.inner.debug_view();
    assert_eq!(shown.access_token, Some("<REDACTED>"));
    let text = format!("{shown:?}");
    assert!(text.contains("access_token: Some(\"<REDACTED>\")"));
    assert!(!text.contains("bearer-value"));

    let before = text;
    connection.inner.access_token = Some("another".to_string());
    assert_eq!(format!("{:?}", connection.inner.debug_view()), before);
}

#[test]
fn what_is_shown_of_a_connection_is_its_state() {
    let mut connection = DbcHandle::new(SQL_NULL_HANDLE, runtime());
    connection.inner.connection_state = ConnectionState::Connecting;
    connection.inner.statements.push(3);
    connection.inner.descriptors.push(4);
    connection.inner.active_stmt = Some(3);
    connection.inner.login_timeout = Some(15);
    connection.inner.autocommit = false;
    connection.inner.txn_isolation = 8;
    connection.inner.local_tran_started = true;
    post_sql_error(&mut connection.inner, "08001", 17, "refused");
    let shown = connection.inner.debug_view();
    assert_eq!(shown.connection_state, ConnectionState::Connecting);
    assert_eq!((shown.statements.as_slice(), shown.descriptors.as_slice()), (&[3][..], &[4][..]));
    assert_eq!((shown.active_stmt, shown.login_timeout), (Some(3), Some(15)));
    assert_eq!((shown.autocommit, shown.txn_isolation), (false, 8));
    assert!(shown.local_tran_started && shown.client.is_none());
    assert_eq!(shown.diag_records.len(), 1);
    assert_eq!(connection.inner.diag_records()[0].native_error, 17);
}

#[test]
fn stamps_can_be_changed() {
    let mut env = EnvHandle::new(runtime());
    assert_eq!(*env.object_type_mut(), HandleType::Env);
    *env.object_type_mut() = HandleType::Invalid;
    assert_eq!(env.object_type, HandleType::Invalid);
    let mut dbc = DbcHandle::new(9, env.runtime.clone());
    assert_eq!(*dbc.object_type_mut(), HandleType::Dbc);
    *dbc.object_type_mut() = HandleType::Invalid;
    assert_eq!((dbc.object_type, dbc.parent_env), (HandleType::Invalid, 9));
}

#[test]
fn implicit_descriptors_come_and_go_with_their_statement() {
    let (mut handles, _, dbc) = connected_table();
    let stmt = handles.alloc_stmt(dbc);
    let s = handles.stmt(stmt);
    let owned = [
        (s.ard, DescKind::AppRow),
        (s.apd, DescKind::AppParam),
        (s.ird, DescKind::ImpRow),
        (s.ipd, DescKind::ImpParam),
    ];
    for (h, kind) in owned {
        let desc = handles.desc(h);
        assert_eq!((desc.kind, desc.alloc_type), (kind, SQL_DESC_ALLOC_AUTO));
        assert_eq!(desc.inner.header.alloc_type, SQL_DESC_ALLOC_AUTO);
        assert_eq!(desc.parent_dbc, dbc);
    }
    assert_eq!(handles.free_stmt(stmt), SQL_SUCCESS);
    assert_eq!(handles.object_type(stmt), HandleType::Invalid);
    for (h, _) in owned {
        assert_eq!(handles.object_type(h), HandleType::Invalid);
    }
}

#[test]
fn freeing_a_statement_leaves_the_rest() {
    let (mut handles, _, dbc) = connected_table();
    let first = handles.alloc_stmt(dbc);
    let second = handles.alloc_stmt(dbc);
    let desc = handles.alloc_desc(dbc);
    let ret = sql_set_stmt_attr_w(&mut handles, second, SQL_ATTR_APP_ROW_DESC, desc, 0);
    assert_eq!(ret, SQL_SUCCESS);
    handles.dbc_mut(dbc).inner.active_stmt = Some(second);
    assert_eq!(handles.free_stmt(first), SQL_SUCCESS);
    assert_eq!(handles.dbc(dbc).inner.statements, vec![second]);
    assert_eq!(handles.dbc(dbc).inner.active_stmt, Some(second));
    assert_eq!(handles.stmt(second).inner.active_ard, Some(desc));
    assert_eq!(handles.free_stmt(second), SQL_SUCCESS);
    assert!(handles.dbc(dbc).inner.statements.is_empty());
    assert_eq!(handles.dbc(dbc).inner.active_stmt, None);
    assert_eq!(handles.dbc(dbc).inner.descriptors, vec![desc]);
    assert!(handles.desc(desc).is_explicit());
}

#[test]
fn freeing_undoes_allocating() {
    let (mut handles, _, dbc) = connected_table();
    let kept_stmt = handles.alloc_stmt(dbc);
    let kept_desc = handles.alloc_desc(dbc);
    let desc = handles.alloc_desc(dbc);
    let stmt = handles.alloc_stmt(dbc);
    assert_eq!(handles.dbc(dbc).inner.descriptors, vec![kept_desc, desc]);
    assert_eq!(handles.dbc(dbc).inner.statements, vec![kept_stmt, stmt]);
    assert_eq!(handles.desc(desc).alloc_type, SQL_DESC_ALLOC_USER);
    assert_eq!(handles.desc(desc).kind, DescKind::Ad);
    assert_eq!(handles.free_stmt(stmt), SQL_SUCCESS);
    assert_eq!(handles.free_desc(desc), SQL_SUCCESS);
    assert_eq!(handles.dbc(dbc).inner.descriptors, vec![kept_desc]);
    assert_eq!(handles.dbc(dbc).inner.statements, vec![kept_stmt]);
}

#[test]
fn a_freed_handle_is_not_given_out_again() {
    let (mut handles, _, dbc) = connected_table();
    let gone = handles.alloc_desc(dbc);
    assert_eq!(handles.free_desc(gone), SQL_SUCCESS);
    let next = handles.alloc_desc(dbc);
    assert_ne!(next, gone);
    assert_ne!(next, SQL_NULL_HANDLE);
    assert_eq!(handles.object_type(gone), HandleType::Invalid);
}

#[test]
fn null_is_freed_by_none() {
    let mut handles = HandleTable::new();
    assert_eq!(handles.free_desc(SQL_NULL_HANDLE), SQL_INVALID_HANDLE);
    assert_eq!(handles.free_stmt(SQL_NULL_HANDLE), SQL_INVALID_HANDLE);
}

#[test]
fn freeing_a_descriptor_leaves_statements_of_other_connections() {
    let (mut handles, env, dbc) = connected_table();
    let runtime = handles.env(env).runtime.clone();
    let other_dbc = handles.alloc_dbc(env, runtime);
    let other_stmt = handles.alloc_stmt(other_dbc);
    let other_desc = handles.alloc_desc(other_dbc);
    let desc = handles.alloc_desc(dbc);
    let ret = sql_set_stmt_attr_w(&mut handles, other_stmt, SQL_ATTR_APP_ROW_DESC, other_desc, 0);
    assert_eq!(ret, SQL_SUCCESS);
    assert_eq!(handles.free_desc(desc), SQL_SUCCESS);
    assert_eq!(handles.stmt(other_stmt).inner.active_ard, Some(other_desc));
    assert_eq!(handles.dbc(other_dbc).inner.descriptors, vec![other_desc]);
}
