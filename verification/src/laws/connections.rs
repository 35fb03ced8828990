//! Laws of connection state.

use vstd::prelude::*;

use std::sync::Arc;

use tokio::runtime::Runtime;

use crate::api::odbc_types::{
    SqlHandle, DEFAULT_PACKET_SIZE, SQL_MODE_READ_WRITE, SQL_TXN_READ_COMMITTED,
};
use crate::handles::dbc::{ConnectionState, DbcStateView, DbcView};
use crate::handles::HandleType;

verus! {

/// The access token is never shown: what is shown of two states that differ in
/// the value of their token only is the same.
pub proof fn law_access_token_is_not_shown(s: DbcStateView, one: Seq<char>, other: Seq<char>)
    ensures
        (DbcStateView { access_token: Some(one), ..s }).shown() == (DbcStateView {
            access_token: Some(other),
            ..s
        }).shown(),
        (DbcStateView { access_token: Some(one), ..s }).shown().access_token is Some,
        (DbcStateView { access_token: None, ..s }).shown().access_token is None,
{
}

/// What is shown of a connection is its state, field by field, and of its token
/// the fixed text or nothing.
pub proof fn law_what_is_shown(s: DbcStateView)
    ensures
        s.shown().diags == s.diags,
        s.shown().connection_state == s.connection_state,
        s.shown().statements == s.statements,
        s.shown().descriptors == s.descriptors,
        s.shown().active_stmt == s.active_stmt,
        s.shown().client == s.client,
        s.access_token is Some ==> s.shown().access_token == Some("<REDACTED>"@),
        s.access_token is None ==> s.shown().access_token == None::<Seq<char>>,
        s.shown().login_timeout == s.login_timeout,
        s.shown().autocommit == s.autocommit,
        s.shown().txn_isolation == s.txn_isolation,
        s.shown().local_tran_started == s.local_tran_started,
{
}

/// A new connection is not connected, has no statements, descriptors, cursor,
/// token or diagnostics, and commits by itself. Its timeouts, packet size,
/// access mode and isolation level are the defaults.
pub proof fn law_a_new_connection_is_blank(parent_env: SqlHandle, runtime: Arc<Runtime>)
    ensures
        ({
            let d = DbcView::fresh(parent_env, runtime);
            &&& d.object_type == HandleType::Dbc
            &&& d.parent_env == parent_env
            &&& d.runtime == runtime
            &&& d.inner.diags.len() == 0
            &&& d.inner.connection_state == ConnectionState::Disconnected
            &&& d.inner.statements.len() == 0
            &&& d.inner.descriptors.len() == 0
            &&& d.inner.active_stmt is None
            &&& d.inner.client is None
            &&& d.inner.access_token is None
            &&& d.inner.login_timeout is None
            &&& d.inner.access_mode == SQL_MODE_READ_WRITE
            &&& d.inner.connection_timeout == 0
            &&& d.inner.packet_size == DEFAULT_PACKET_SIZE
            &&& d.inner.autocommit
            &&& d.inner.txn_isolation == SQL_TXN_READ_COMMITTED
            &&& !d.inner.server_isolation_unknown
            &&& d.inner.reset_generation == 0
            &&& !d.inner.local_tran_started
        }),
{
}

} // verus!
