//! Connection handles.

use vstd::prelude::*;

use std::sync::Arc;

use mssql_tds::connection::tds_client::TdsClient;
use tokio::runtime::Runtime;

use super::env::EnvHandle;
use super::{HandleTable, HandleType, HasObjectType};
use crate::api::odbc_types::{
    SqlHandle, DEFAULT_PACKET_SIZE, SQL_MODE_READ_WRITE, SQL_TXN_READ_COMMITTED,
};
use crate::error::{DiagRecord, DiagView, HasDiagnostics};

verus! {

/// Whether a connection handle is connected.
#[derive(Debug, Clone, Copy, PartialEq, Eq, Structural)]
pub enum ConnectionState {
    /// Allocated but not connected.
    Disconnected,
    /// A connection attempt is in progress, which blocks a second one.
    Connecting,
    /// Connected to a data source.
    Connected,
}

/// Connection handle.
pub struct DbcHandle {
    pub object_type: HandleType,
    /// The environment it was allocated on. Fixed at construction.
    pub parent_env: SqlHandle,
    /// Shared runtime of the parent environment.
    pub runtime: Arc<Runtime>,
    pub inner: DbcState,
}

/// Mutable state of a connection.
///
/// Not printable as it stands, because of the access token: see
/// [`DbcState::debug_view`].
pub struct DbcState {
    pub diag_records: Vec<DiagRecord>,
    pub connection_state: ConnectionState,
    /// Statement handles allocated on this connection.
    pub statements: Vec<SqlHandle>,
    /// Explicitly allocated descriptors, owned by this connection independent
    /// of any one statement. Freeing one returns every statement that uses it
    /// to its own implicit descriptor.
    pub descriptors: Vec<SqlHandle>,
    /// The statement that has an open cursor, if any: at most one may, per
    /// connection.
    pub active_stmt: Option<SqlHandle>,
    /// The network connection, present only while connected.
    pub client: Option<TdsClient>,
    /// Access token set before connecting, consumed by the login.
    pub access_token: Option<String>,
    /// Login timeout in seconds; `Some(0)` waits indefinitely.
    pub login_timeout: Option<u32>,
    /// `SQL_ATTR_ACCESS_MODE`.
    pub access_mode: u32,
    /// `SQL_ATTR_CONNECTION_TIMEOUT` in seconds; `0` is no timeout.
    pub connection_timeout: u32,
    /// `SQL_ATTR_PACKET_SIZE` in bytes.
    pub packet_size: u32,
    /// `SQL_ATTR_AUTOCOMMIT`; on by default.
    pub autocommit: bool,
    /// `SQL_ATTR_TXN_ISOLATION`, one of the `SQL_TXN_*` bits.
    pub txn_isolation: u32,
    /// The server's isolation level is not known to match `txn_isolation`.
    pub server_isolation_unknown: bool,
    /// Count of pool resets armed on this connection.
    pub reset_generation: u64,
    /// The open transaction may hold uncommitted work of the application.
    pub local_tran_started: bool,
}

/// What a [`DbcState`] holds.
#[verifier::ext_equal]
pub struct DbcStateView {
    pub diags: Seq<DiagView>,
    pub connection_state: ConnectionState,
    pub statements: Seq<SqlHandle>,
    pub descriptors: Seq<SqlHandle>,
    pub active_stmt: Option<SqlHandle>,
    pub client: Option<TdsClient>,
    pub access_token: Option<Seq<char>>,
    pub login_timeout: Option<u32>,
    pub access_mode: u32,
    pub connection_timeout: u32,
    pub packet_size: u32,
    pub autocommit: bool,
    pub txn_isolation: u32,
    pub server_isolation_unknown: bool,
    pub reset_generation: u64,
    pub local_tran_started: bool,
}

impl View for DbcState {
    type V = DbcStateView;

    open spec fn view(&self) -> DbcStateView {
        DbcStateView {
            diags: crate::error::diag_views(self.diag_records@),
            connection_state: self.connection_state,
            statements: self.statements@,
            descriptors: self.descriptors@,
            active_stmt: self.active_stmt,
            client: self.client,
            access_token: match self.access_token {
                Some(token) => Some(token@),
                None => None,
            },
            login_timeout: self.login_timeout,
            access_mode: self.access_mode,
            connection_timeout: self.connection_timeout,
            packet_size: self.packet_size,
            autocommit: self.autocommit,
            txn_isolation: self.txn_isolation,
            server_isolation_unknown: self.server_isolation_unknown,
            reset_generation: self.reset_generation,
            local_tran_started: self.local_tran_started,
        }
    }
}

impl DbcStateView {
    /// The state of a connection that nothing was done with.
    pub open spec fn fresh() -> DbcStateView {
        DbcStateView {
            diags: Seq::empty(),
            connection_state: ConnectionState::Disconnected,
            statements: Seq::empty(),
            descriptors: Seq::empty(),
            active_stmt: None,
            client: None,
            access_token: None,
            login_timeout: None,
            access_mode: SQL_MODE_READ_WRITE,
            connection_timeout: 0,
            packet_size: DEFAULT_PACKET_SIZE,
            autocommit: true,
            txn_isolation: SQL_TXN_READ_COMMITTED,
            server_isolation_unknown: false,
            reset_generation: 0,
            local_tran_started: false,
        }
    }

    /// There is a network connection only while connected.
    pub open spec fn wf(self) -> bool {
        self.client is Some ==> self.connection_state == ConnectionState::Connected
    }
}

/// What may be shown of a connection's state in logs and panic messages.
#[derive(Debug)]
pub struct DbcDebug<'a> {
    pub diag_records: &'a Vec<DiagRecord>,
    pub connection_state: ConnectionState,
    pub statements: &'a Vec<SqlHandle>,
    pub descriptors: &'a Vec<SqlHandle>,
    pub active_stmt: Option<SqlHandle>,
    pub client: &'a Option<TdsClient>,
    /// Whether there is a token; a fixed text stands in for its value.
    pub access_token: Option<&'static str>,
    pub login_timeout: Option<u32>,
    pub autocommit: bool,
    pub txn_isolation: u32,
    pub local_tran_started: bool,
}

/// What a [`DbcDebug`] holds.
pub struct DbcDebugView {
    pub diags: Seq<DiagView>,
    pub connection_state: ConnectionState,
    pub statements: Seq<SqlHandle>,
    pub descriptors: Seq<SqlHandle>,
    pub active_stmt: Option<SqlHandle>,
    pub client: Option<TdsClient>,
    pub access_token: Option<Seq<char>>,
    pub login_timeout: Option<u32>,
    pub autocommit: bool,
    pub txn_isolation: u32,
    pub local_tran_started: bool,
}

impl<'a> View for DbcDebug<'a> {
    type V = DbcDebugView;

    open spec fn view(&self) -> DbcDebugView {
        DbcDebugView {
            diags: crate::error::diag_views(self.diag_records@),
            connection_state: self.connection_state,
            statements: self.statements@,
            descriptors: self.descriptors@,
            active_stmt: self.active_stmt,
            client: *self.client,
            access_token: match self.access_token {
                Some(text) => Some(text@),
                None => None,
            },
            login_timeout: self.login_timeout,
            autocommit: self.autocommit,
            txn_isolation: self.txn_isolation,
            local_tran_started: self.local_tran_started,
        }
    }
}

impl DbcStateView {
    /// What may be shown of this state.
    pub open spec fn shown(self) -> DbcDebugView {
        DbcDebugView {
            diags: self.diags,
            connection_state: self.connection_state,
            statements: self.statements,
            descriptors: self.descriptors,
            active_stmt: self.active_stmt,
            client: self.client,
            access_token: if self.access_token is Some {
                Some("<REDACTED>"@)
            } else {
                None
            },
            login_timeout: self.login_timeout,
            autocommit: self.autocommit,
            txn_isolation: self.txn_isolation,
            local_tran_started: self.local_tran_started,
        }
    }
}

impl DbcState {
    /// The printable form of this state, in which the access token is present
    /// or absent and never itself.
    pub fn debug_view(&self) -> (shown: DbcDebug<'_>)
        ensures
            shown@ == self@.shown(),
    {
        DbcDebug {
            diag_records: &self.diag_records,
            connection_state: self.connection_state,
            statements: &self.statements,
            descriptors: &self.descriptors,
            active_stmt: self.active_stmt,
            client: &self.client,
            access_token: if self.access_token.is_some() {
                Some("<REDACTED>")
            } else {
                None
            },
            login_timeout: self.login_timeout,
            autocommit: self.autocommit,
            txn_isolation: self.txn_isolation,
            local_tran_started: self.local_tran_started,
        }
    }
}

impl HasDiagnostics for DbcState {
    open spec fn diags(&self) -> Seq<DiagView> {
        self@.diags
    }

    open spec fn same_but_diags(&self, other: Self) -> bool {
        other == (DbcState { diag_records: other.diag_records, ..*self })
    }

    fn diag_records(&self) -> &[DiagRecord] {
        self.diag_records.as_slice()
    }

    fn diag_records_mut(&mut self) -> &mut Vec<DiagRecord> {
        &mut self.diag_records
    }
}

/// What a [`DbcHandle`] holds.
pub struct DbcView {
    pub object_type: HandleType,
    pub parent_env: SqlHandle,
    pub runtime: Arc<Runtime>,
    pub inner: DbcStateView,
}

impl View for DbcHandle {
    type V = DbcView;

    open spec fn view(&self) -> DbcView {
        DbcView {
            object_type: self.object_type,
            parent_env: self.parent_env,
            runtime: self.runtime,
            inner: self.inner@,
        }
    }
}

impl DbcView {
    /// A connection handle that nothing was done with.
    pub open spec fn fresh(parent_env: SqlHandle, runtime: Arc<Runtime>) -> DbcView {
        DbcView {
            object_type: HandleType::Dbc,
            parent_env,
            runtime,
            inner: DbcStateView::fresh(),
        }
    }
}

impl DbcHandle {
    pub fn new(parent_env: SqlHandle, runtime: Arc<Runtime>) -> (handle: Self)
        ensures
            handle@ == DbcView::fresh(parent_env, runtime),
    {
        let handle = DbcHandle {
            object_type: HandleType::Dbc,
            parent_env,
            runtime,
            inner: DbcState {
                diag_records: Vec::new(),
                connection_state: ConnectionState::Disconnected,
                statements: Vec::new(),
                descriptors: Vec::new(),
                active_stmt: None,
                client: None,
                access_token: None,
                login_timeout: None,
                access_mode: SQL_MODE_READ_WRITE,
                connection_timeout: 0,
                packet_size: DEFAULT_PACKET_SIZE,
                autocommit: true,
                txn_isolation: SQL_TXN_READ_COMMITTED,
                server_isolation_unknown: false,
                reset_generation: 0,
                local_tran_started: false,
            },
        };
        assert(handle.inner@ =~= DbcStateView::fresh());
        handle
    }

    /// The environment that this connection was allocated on.
    pub fn parent_env<'a>(&self, handles: &'a HandleTable) -> (env: &'a EnvHandle)
        requires
            super::is_env(handles@, self.parent_env),
        ensures
            env@ == super::env_at(handles@, self.parent_env),
    {
        handles.env(self.parent_env)
    }
}

impl HasObjectType for DbcHandle {
    open spec fn object_type_spec(&self) -> HandleType {
        self.object_type
    }

    open spec fn same_but_object_type(&self, other: Self) -> bool {
        other == (DbcHandle { object_type: other.object_type, ..*self })
    }

    fn object_type_mut(&mut self) -> &mut HandleType {
        &mut self.object_type
    }
}

} // verus!
