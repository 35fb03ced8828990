//! SQLSTATE codes and the driver's standing diagnostics.

use vstd::prelude::*;

use crate::error::{post_sql_error, DiagView, HasDiagnostics};

verus! {

/// Option value changed.
pub const SQLSTATE_01S02: &'static str = "01S02";

/// Function sequence error.
pub const SQLSTATE_HY010: &'static str = "HY010";

/// Invalid use of an automatically allocated descriptor handle.
pub const SQLSTATE_HY017: &'static str = "HY017";

/// Invalid attribute value.
pub const SQLSTATE_HY024: &'static str = "HY024";

/// Invalid attribute/option identifier.
pub const SQLSTATE_HY092: &'static str = "HY092";

/// Optional feature not implemented.
pub const SQLSTATE_HYC00: &'static str = "HYC00";

/// A diagnostic whose SQLSTATE and text never vary.
#[derive(Debug, Clone, Copy, PartialEq, Eq, Structural)]
pub enum DiagMsg {
    FunctionSequence,
    InvalidAttributeIdentifier,
    InvalidAttributeValue,
    InvalidUseOfAutoDesc,
}

pub const ERR_FUNCTION_SEQUENCE: DiagMsg = DiagMsg::FunctionSequence;

pub const ERR_INVALID_ATTRIBUTE_IDENTIFIER: DiagMsg = DiagMsg::InvalidAttributeIdentifier;

pub const ERR_INVALID_ATTRIBUTE_VALUE: DiagMsg = DiagMsg::InvalidAttributeValue;

pub const ERR_INVALID_USE_OF_AUTO_DESC: DiagMsg = DiagMsg::InvalidUseOfAutoDesc;

impl DiagMsg {
    /// The record that posting this diagnostic adds.
    pub open spec fn record(self) -> DiagView {
        match self {
            DiagMsg::FunctionSequence => DiagView {
                sql_state: "HY010"@,
                native_error: 0,
                message: "Function sequence error"@,
            },
            DiagMsg::InvalidAttributeIdentifier => DiagView {
                sql_state: "HY092"@,
                native_error: 0,
                message: "Invalid attribute/option identifier"@,
            },
            DiagMsg::InvalidAttributeValue => DiagView {
                sql_state: "HY024"@,
                native_error: 0,
                message: "Invalid attribute value"@,
            },
            DiagMsg::InvalidUseOfAutoDesc => DiagView {
                sql_state: "HY017"@,
                native_error: 0,
                message: "Invalid use of an automatically allocated descriptor handle"@,
            },
        }
    }

    /// The SQLSTATE of this diagnostic.
    pub fn sql_state(self) -> (state: &'static str)
        ensures
            state@ == self.record().sql_state,
    {
        match self {
            DiagMsg::FunctionSequence => SQLSTATE_HY010,
            DiagMsg::InvalidAttributeIdentifier => SQLSTATE_HY092,
            DiagMsg::InvalidAttributeValue => SQLSTATE_HY024,
            DiagMsg::InvalidUseOfAutoDesc => SQLSTATE_HY017,
        }
    }

    /// The text of this diagnostic.
    pub fn message(self) -> (text: &'static str)
        ensures
            text@ == self.record().message,
    {
        match self {
            DiagMsg::FunctionSequence => "Function sequence error",
            DiagMsg::InvalidAttributeIdentifier => "Invalid attribute/option identifier",
            DiagMsg::InvalidAttributeValue => "Invalid attribute value",
            DiagMsg::InvalidUseOfAutoDesc => "Invalid use of an automatically allocated descriptor handle",
        }
    }
}

/// Posts a standing diagnostic, with no native error code.
pub fn post_diag<T: HasDiagnostics>(state: &mut T, diag: DiagMsg)
    ensures
        final(state).diags() == old(state).diags().push(diag.record()),
        old(state).same_but_diags(*final(state)),
{
    post_sql_error(state, diag.sql_state(), 0, diag.message());
}

} // verus!
