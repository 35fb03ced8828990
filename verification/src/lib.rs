//! Handle state and statement attributes of an ODBC driver for SQL Server.

pub mod api;
pub mod error;
pub mod external;
pub mod handles;
pub mod laws;
pub mod params;
