//! The types of `mssql-tds` and `tokio` that handle state carries, and the one
//! function of `mssql-tds` that the handle logic calls.

use vstd::prelude::*;

use mssql_tds::connection::tds_client::{PreparedStatement, StatementId, TdsClient};
use mssql_tds::datatypes::column_values::ColumnValues;
use mssql_tds::datatypes::sqldatatypes::TdsDataType;
use mssql_tds::query::metadata::{ColumnMetadata, PlpEncoding};
use tokio::runtime::Runtime;

verus! {

/// `mssql_tds::connection::tds_client::TdsClient`: a live connection. Carried
/// by a connection handle, never looked into.
#[verifier::external_type_specification]
#[verifier::external_body]
pub struct ExTdsClient(TdsClient);

/// `mssql_tds::connection::tds_client::StatementId`: the identity of a
/// statement that the server has prepared. Moved and stored, never looked into.
#[verifier::external_type_specification]
#[verifier::external_body]
pub struct ExStatementId(StatementId);

/// `mssql_tds::connection::tds_client::PreparedStatement`: SQL text, and an
/// identity once the server has prepared it.
#[verifier::external_type_specification]
#[verifier::external_body]
pub struct ExPreparedStatement(PreparedStatement);

/// `mssql_tds::query::metadata::ColumnMetadata`: one result column's
/// description. Carried by a statement, never looked into.
#[verifier::external_type_specification]
#[verifier::external_body]
pub struct ExColumnMetadata(ColumnMetadata);

/// `mssql_tds::query::metadata::PlpEncoding`: how a streamed column is encoded
/// on the wire. Carried by a statement, never looked into.
#[verifier::external_type_specification]
#[verifier::external_body]
pub struct ExPlpEncoding(PlpEncoding);

/// `mssql_tds::datatypes::column_values::ColumnValues`: one decoded value.
/// Carried by a statement, never looked into.
#[verifier::external_type_specification]
#[verifier::external_body]
pub struct ExColumnValues(ColumnValues);

/// `mssql_tds::datatypes::sqldatatypes::TdsDataType`: a wire type identifier.
/// Carried by a statement, never looked into.
#[verifier::external_type_specification]
#[verifier::external_body]
pub struct ExTdsDataType(TdsDataType);

/// `tokio::runtime::Runtime`. Carried by environment and connection handles,
/// never looked into.
#[verifier::external_type_specification]
#[verifier::external_body]
pub struct ExRuntime(Runtime);

/// The identity that a prepared statement holds: what `PreparedStatement::id`
/// reports of it.
pub uninterp spec fn prepared_id(stmt: PreparedStatement) -> Option<StatementId>;

/// The SQL text that a prepared statement holds: what `PreparedStatement::sql`
/// reports of it.
pub uninterp spec fn prepared_sql(stmt: PreparedStatement) -> Seq<char>;

/// `PreparedStatement::take_id` hands out the identity that the statement
/// holds, if any, leaves it without one, and keeps its SQL.
pub assume_specification[ PreparedStatement::take_id ](stmt: &mut PreparedStatement) -> (id: Option<
    StatementId,
>)
    ensures
        id == prepared_id(*old(stmt)),
        prepared_id(*final(stmt)) == None::<StatementId>,
        prepared_sql(*final(stmt)) == prepared_sql(*old(stmt)),
;

} // verus!
