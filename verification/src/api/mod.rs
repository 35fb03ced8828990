//! The driver's entry points and the ODBC vocabulary they share.

pub mod odbc_types;
pub mod set_stmt_attr;
pub mod sqlstate;
pub mod util;
