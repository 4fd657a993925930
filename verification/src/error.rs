//! What can go wrong in a protocol run, and the step at which it went wrong.

use crate::address::Address;
use vstd::prelude::*;

verus! {

/// A remote request of one of the protocols.
#[derive(Clone, Copy, Debug, PartialEq, Eq)]
pub enum Step {
    /// Asking for the controller's balance.
    QueryBalance,
    /// Asking for the rent-exempt balance of an account size.
    QueryRent,
    /// Fetching the raw data of an account.
    FetchAccount,
    /// The transaction that creates the buffer account.
    CreateBuffer,
    /// The transaction that writes piece `number` of `total`, counted from 1.
    WriteChunk { number: usize, total: usize },
    /// The transaction that activates a first deployment.
    Activate,
    /// The transaction that replaces a program's code.
    Swap,
    /// The transaction that changes or clears a program's authority.
    SetAuthority,
}

/// Why a protocol run stopped.
#[derive(Clone, Copy, Debug, PartialEq, Eq)]
pub enum ProtocolError {
    /// The controller holds less than the action needs.
    InsufficientBalance { balance: u64, required: u64 },
    /// No program binary was given and none was found.
    MissingArtifact,
    /// The program has an authority, and it is not the expected one.
    AuthorityMismatch { expected: Address, found: Address },
    /// The program has no authority any more: nobody can change it.
    AlreadyImmutable,
    /// The account's data is not a program-data record.
    MalformedAccount,
    /// The ledger could not be asked, or refused, at the named step.
    TransactionFailed { step: Step },
    /// The authority was cleared, and a later read still shows this one.
    FinalizationUnconfirmed { authority: Address },
    /// A program identifier is not the text of an address.
    InvalidProgramId,
    /// The local state records no deployed program.
    NoDeployedProgram,
    /// The payload is longer than a write offset can address.
    PayloadTooLarge,
    /// No program-data address could be derived for the program.
    NoProgramDataAddress,
    /// The activation instructions could not be built.
    ActivationUnavailable,
    /// The event does not answer the request that is outstanding.
    UnexpectedEvent,
}

} // verus!
