//! ODBC scalar types and the identifiers of the ODBC 3.x headers that this
//! driver uses.
//!
//! Handles and application buffer pointers are addresses that the driver
//! compares, stores and hands back, and never reads through; both are plain
//! machine words here.

use vstd::prelude::*;

verus! {

/// `SQLSMALLINT`.
pub type SqlSmallInt = i16;

/// `SQLUSMALLINT`.
pub type SqlUSmallInt = u16;

/// `SQLINTEGER`.
pub type SqlInteger = i32;

/// `SQLLEN`.
pub type SqlLen = isize;

/// `SQLULEN`.
pub type SqlULen = usize;

/// `SQLRETURN`.
pub type SqlReturn = i16;

/// `SQLPOINTER`: an application-owned address, or an integer passed in its
/// place.
pub type SqlPointer = usize;

/// `SQLHANDLE`.
pub type SqlHandle = usize;

/// The null handle, which no object has.
pub const SQL_NULL_HANDLE: SqlHandle = 0;

/// The null application pointer.
pub const SQL_NULL_PTR: SqlPointer = 0;

// ---- Return codes -----------------------------------------------------------
pub const SQL_SUCCESS: SqlReturn = 0;

pub const SQL_SUCCESS_WITH_INFO: SqlReturn = 1;

pub const SQL_ERROR: SqlReturn = -1;

pub const SQL_INVALID_HANDLE: SqlReturn = -2;

// ---- Statement attributes ---------------------------------------------------
pub const SQL_ATTR_ROW_BIND_TYPE: SqlInteger = 5;

pub const SQL_ATTR_CURSOR_TYPE: SqlInteger = 6;

pub const SQL_ATTR_CONCURRENCY: SqlInteger = 7;

pub const SQL_ATTR_PARAM_BIND_TYPE: SqlInteger = 18;

pub const SQL_ATTR_PARAM_STATUS_PTR: SqlInteger = 20;

pub const SQL_ATTR_PARAMS_PROCESSED_PTR: SqlInteger = 21;

pub const SQL_ATTR_PARAMSET_SIZE: SqlInteger = 22;

pub const SQL_ATTR_ROW_BIND_OFFSET_PTR: SqlInteger = 23;

pub const SQL_ATTR_ROW_STATUS_PTR: SqlInteger = 25;

pub const SQL_ATTR_ROWS_FETCHED_PTR: SqlInteger = 26;

pub const SQL_ATTR_ROW_ARRAY_SIZE: SqlInteger = 27;

pub const SQL_ATTR_APP_ROW_DESC: SqlInteger = 10010;

pub const SQL_ATTR_APP_PARAM_DESC: SqlInteger = 10011;

pub const SQL_ATTR_IMP_ROW_DESC: SqlInteger = 10012;

pub const SQL_ATTR_IMP_PARAM_DESC: SqlInteger = 10013;

// ---- Statement attribute values ---------------------------------------------
pub const SQL_CURSOR_FORWARD_ONLY: SqlULen = 0;

pub const SQL_CONCUR_READ_ONLY: SqlULen = 1;

pub const SQL_BIND_BY_COLUMN: SqlULen = 0;

pub const SQL_ROWSET_SIZE_DEFAULT: SqlULen = 1;

// ---- Descriptor header fields -----------------------------------------------
pub const SQL_DESC_ARRAY_SIZE: SqlUSmallInt = 20;

pub const SQL_DESC_ARRAY_STATUS_PTR: SqlUSmallInt = 21;

pub const SQL_DESC_BIND_OFFSET_PTR: SqlUSmallInt = 24;

pub const SQL_DESC_BIND_TYPE: SqlUSmallInt = 25;

pub const SQL_DESC_ROWS_PROCESSED_PTR: SqlUSmallInt = 34;

pub const SQL_DESC_COUNT: SqlUSmallInt = 1001;

pub const SQL_DESC_ALLOC_TYPE: SqlUSmallInt = 1099;

// ---- Descriptor record fields -----------------------------------------------
pub const SQL_DESC_CONCISE_TYPE: SqlUSmallInt = 2;

pub const SQL_DESC_PARAMETER_TYPE: SqlUSmallInt = 33;

pub const SQL_DESC_TYPE: SqlUSmallInt = 1002;

pub const SQL_DESC_LENGTH: SqlUSmallInt = 1003;

pub const SQL_DESC_OCTET_LENGTH_PTR: SqlUSmallInt = 1004;

pub const SQL_DESC_PRECISION: SqlUSmallInt = 1005;

pub const SQL_DESC_SCALE: SqlUSmallInt = 1006;

pub const SQL_DESC_DATETIME_INTERVAL_CODE: SqlUSmallInt = 1007;

pub const SQL_DESC_NULLABLE: SqlUSmallInt = 1008;

pub const SQL_DESC_INDICATOR_PTR: SqlUSmallInt = 1009;

pub const SQL_DESC_DATA_PTR: SqlUSmallInt = 1010;

pub const SQL_DESC_NAME: SqlUSmallInt = 1011;

pub const SQL_DESC_UNNAMED: SqlUSmallInt = 1012;

pub const SQL_DESC_OCTET_LENGTH: SqlUSmallInt = 1013;

// ---- Descriptor field values ------------------------------------------------
pub const SQL_DESC_ALLOC_AUTO: SqlSmallInt = 1;

pub const SQL_DESC_ALLOC_USER: SqlSmallInt = 2;

pub const SQL_NULLABLE: SqlSmallInt = 1;

pub const SQL_PARAM_INPUT: SqlSmallInt = 1;

// ---- Data types -------------------------------------------------------------
pub const SQL_INTEGER: SqlSmallInt = 4;

pub const SQL_DATETIME: SqlSmallInt = 9;

pub const SQL_TYPE_DATE: SqlSmallInt = 91;

pub const SQL_TYPE_TIMESTAMP: SqlSmallInt = 93;

pub const SQL_C_CHAR: SqlSmallInt = 1;

pub const SQL_C_SLONG: SqlSmallInt = -16;

pub const SQL_C_DEFAULT: SqlSmallInt = 99;

// ---- Connection attribute values --------------------------------------------
pub const SQL_MODE_READ_WRITE: u32 = 0;

pub const SQL_TXN_READ_COMMITTED: u32 = 2;

/// Network packet size, in bytes, of a connection that was not told another.
pub const DEFAULT_PACKET_SIZE: u32 = 4096;

} // verus!
