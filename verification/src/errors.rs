//! The errors that the library itself reports.
use vstd::prelude::*;

verus! {

/// The transaction compiler's error, kept as it came.
#[verifier::external_type_specification]
#[verifier::external_body]
pub struct ExCompileError(solana_message::CompileError);

/// Why signing is not possible.
#[derive(Debug, PartialEq, Eq)]
pub enum SignerError {
    InvalidInput(String),
}

/// The errors of the library's own making.
#[derive(Debug, PartialEq, Eq)]
pub enum ErrorKind {
    /// No usable signer.
    SignerError(SignerError),
    /// Account data that cannot be read as what was asked for.
    DeserializationError(String),
    /// A group of transactions to send was empty.
    NoTransactions,
    /// The transaction's message could not be compiled.
    CompileError(solana_message::CompileError),
}

/// Why a request failed: by the library's own judgement, or because the client
/// it went through failed with an error `C`.
#[derive(Debug, PartialEq, Eq)]
pub enum Failure<C> {
    Link(ErrorKind),
    Client(C),
}

impl ErrorKind {
    /// Whether this is the signer error that carries `message`.
    pub open spec fn is_invalid_input(self, message: Seq<char>) -> bool {
        self matches ErrorKind::SignerError(SignerError::InvalidInput(text)) && text@ == message
    }
}

/// A signer error that carries `message`.
pub(crate) fn invalid_input(message: &str) -> (error: ErrorKind)
    ensures
        error.is_invalid_input(message@),
{
    ErrorKind::SignerError(SignerError::InvalidInput(message.to_owned()))
}

} // verus!
