//! Parameter bindings.

use vstd::prelude::*;

use crate::api::odbc_types::{SqlLen, SqlPointer, SqlSmallInt, SqlULen};

verus! {

/// An application buffer bound to a parameter marker by `SQLBindParameter`.
///
/// The addresses belong to the application and are read only at execution.
#[derive(Debug, Clone, Copy)]
pub struct BoundParam {
    /// `SQL_PARAM_INPUT` and its kin.
    pub input_output_type: SqlSmallInt,
    /// The `SQL_C_*` type of the application's buffer.
    pub value_type: SqlSmallInt,
    /// The SQL type of the parameter.
    pub parameter_type: SqlSmallInt,
    pub column_size: SqlULen,
    pub decimal_digits: SqlSmallInt,
    pub parameter_value_ptr: SqlPointer,
    pub buffer_length: SqlLen,
    pub strlen_or_ind_ptr: SqlPointer,
}

} // verus!
