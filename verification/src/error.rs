//! The library's error type.
use vstd::prelude::*;

use crate::kinds::{spec_kind_name, TransactionKind};

verus! {

/// What can go wrong in the harness's own logic. Transport-level failures
/// are wrapped into `TransactionError` with their message.
#[derive(Clone, Debug)]
pub enum AppError {
    /// A kind was requested that the catalog does not know.
    UnknownTransactionType(TransactionKind),
    /// A transaction attempt failed, with the reason.
    TransactionError(String),
    /// An account description did not have the `signer:buddy:network` shape.
    AccountParseError(String),
    /// An error nothing more is known about.
    Unknown,
}

/// The message rendered for each error.
pub open spec fn spec_error_message(e: AppError) -> Seq<char> {
    match e {
        AppError::UnknownTransactionType(kind) => "transaction type "@ + spec_kind_name(kind)
            + " not known"@,
        AppError::TransactionError(reason) => "transaction error("@ + reason@ + ")"@,
        AppError::AccountParseError(input) => "cannot parse account and network from '"@ + input@
            + "'"@,
        AppError::Unknown => "unknown error"@,
    }
}

impl AppError {
    /// Renders the error as a human-readable message.
    pub fn message(&self) -> (r: String)
        ensures
            r@ == spec_error_message(*self),
    {
        match self {
            AppError::UnknownTransactionType(kind) => {
                let mut out = String::from_str("transaction type ");
                out.append(kind.name());
                out.append(" not known");
                out
            },
            AppError::TransactionError(reason) => {
                let mut out = String::from_str("transaction error(");
                out.append(reason.as_str());
                out.append(")");
                out
            },
            AppError::AccountParseError(input) => {
                let mut out = String::from_str("cannot parse account and network from '");
                out.append(input.as_str());
                out.append("'");
                out
            },
            AppError::Unknown => String::from_str("unknown error"),
        }
    }
}

} // verus!
