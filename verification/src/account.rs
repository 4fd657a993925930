//! Reading a loader-owned account, and the check that a program's authority is the one
//! the caller expects before anything is changed.

use crate::address::Address;
use crate::error::ProtocolError;
use solana_loader_v3_interface::state::UpgradeableLoaderState;
use vstd::prelude::*;

verus! {

/// Size in bytes of a buffer account's header, which stands before the payload.
pub const BUFFER_HEADER_LEN: usize = 37;

/// Size in bytes of a program-data account's header, which stands before the code.
pub const PROGRAM_DATA_HEADER_LEN: usize = 45;

/// The record at the start of an account that the upgradeable loader owns.
#[derive(Clone, Copy, Debug, PartialEq, Eq)]
pub enum LoaderState {
    /// Nothing has been written to the account.
    Uninitialized,
    /// A staging account for code that is being uploaded.
    Buffer { authority: Option<Address> },
    /// A program, which points at the account that holds its code.
    Program { program_data: Address },
    /// The account that holds a program's code and, while it can be changed, its authority.
    ProgramData { slot: u64, authority: Option<Address> },
}

/// The record that an account's raw data starts with, if it starts with one.
pub uninterp spec fn decoded_account(data: Seq<u8>) -> Option<LoaderState>;

/// Size of the buffer account for a payload of `len` bytes: header and payload, held at
/// the largest size there is.
pub open spec fn buffer_size_of(len: nat) -> nat {
    if BUFFER_HEADER_LEN + len <= usize::MAX {
        BUFFER_HEADER_LEN as nat + len
    } else {
        usize::MAX as nat
    }
}

/// Size of the program-data account for `len` bytes of code: header and code, held at
/// the largest size there is.
pub open spec fn program_data_size_of(len: nat) -> nat {
    if PROGRAM_DATA_HEADER_LEN + len <= usize::MAX {
        PROGRAM_DATA_HEADER_LEN as nat + len
    } else {
        usize::MAX as nat
    }
}

/// The outcome of checking a decoded account against the authority that is expected:
/// success only for a program-data record whose authority is present and is `expected`.
pub open spec fn authority_verdict(state: Option<LoaderState>, expected: Address) -> Result<
    (),
    ProtocolError,
> {
    match state {
        Some(LoaderState::ProgramData { slot, authority: Some(found) }) => {
            if found == expected {
                Ok(())
            } else {
                Err(ProtocolError::AuthorityMismatch { expected, found })
            }
        },
        Some(LoaderState::ProgramData { slot, authority: None }) => Err(
            ProtocolError::AlreadyImmutable,
        ),
        _ => Err(ProtocolError::MalformedAccount),
    }
}

/// The outcome of checking, after the authority was cleared, that it is gone.
pub open spec fn immutability_verdict(state: Option<LoaderState>) -> Result<(), ProtocolError> {
    match state {
        Some(LoaderState::ProgramData { slot, authority: None }) => Ok(()),
        Some(LoaderState::ProgramData { slot, authority: Some(found) }) => Err(
            ProtocolError::FinalizationUnconfirmed { authority: found },
        ),
        _ => Err(ProtocolError::MalformedAccount),
    }
}

/// Trusted: `UpgradeableLoaderState::size_of_buffer`, which adds the header's 37 bytes
/// to the length with `saturating_add`.
#[verifier::external_body]
fn size_of_buffer(len: usize) -> (r: usize)
    ensures
        r == buffer_size_of(len as nat),
{
    UpgradeableLoaderState::size_of_buffer(len)
}

/// Trusted: `UpgradeableLoaderState::size_of_programdata`, which adds the header's 45
/// bytes to the length with `saturating_add`.
#[verifier::external_body]
fn size_of_programdata(len: usize) -> (r: usize)
    ensures
        r == program_data_size_of(len as nat),
{
    UpgradeableLoaderState::size_of_programdata(len)
}

/// Trusted: `bincode::deserialize::<UpgradeableLoaderState>`. The result depends on the
/// bytes alone; each variant is handed on as it is, and `None` stands for every error.
#[verifier::external_body]
fn deserialize(data: &[u8]) -> (r: Option<LoaderState>)
    ensures
        r == decoded_account(data@),
{
    match bincode::deserialize::<UpgradeableLoaderState>(data) {
        Ok(UpgradeableLoaderState::Uninitialized) => Some(LoaderState::Uninitialized),
        Ok(UpgradeableLoaderState::Buffer { authority_address: a }) => Some(
            LoaderState::Buffer { authority: a.map(|k| Address::new(k.to_bytes())) },
        ),
        Ok(UpgradeableLoaderState::Program { programdata_address: a }) => Some(
            LoaderState::Program { program_data: Address::new(a.to_bytes()) },
        ),
        Ok(UpgradeableLoaderState::ProgramData { slot, upgrade_authority_address: a }) => Some(
            LoaderState::ProgramData { slot, authority: a.map(|k| Address::new(k.to_bytes())) },
        ),
        Err(_) => None,
    }
}

/// Size of the buffer account that stages a payload of `len` bytes.
pub fn buffer_size(len: usize) -> (r: usize)
    ensures
        r == buffer_size_of(len as nat),
{
    size_of_buffer(len)
}

/// Size of the program-data account that holds `len` bytes of code.
pub fn program_data_size(len: usize) -> (r: usize)
    ensures
        r == program_data_size_of(len as nat),
{
    size_of_programdata(len)
}

/// Reads the record that an account's raw data starts with; `None` where the data does
/// not start with one. Bytes behind the record are left unread.
pub fn decode_account(data: &[u8]) -> (r: Option<LoaderState>)
    ensures
        r == decoded_account(data@),
{
    deserialize(data)
}

/// Checks a decoded account against the authority that the caller expects.
pub fn check_authority(state: &Option<LoaderState>, expected: &Address) -> (r: Result<
    (),
    ProtocolError,
>)
    ensures
        r == authority_verdict(*state, *expected),
{
    match state {
        Some(LoaderState::ProgramData { slot: _, authority: Some(found) }) => {
            if found.same_as(expected) {
                Ok(())
            } else {
                Err(ProtocolError::AuthorityMismatch { expected: *expected, found: *found })
            }
        },
        Some(LoaderState::ProgramData { slot: _, authority: None }) => Err(
            ProtocolError::AlreadyImmutable,
        ),
        _ => Err(ProtocolError::MalformedAccount),
    }
}

/// Checks the raw data of a program-data account against the authority that the caller
/// expects: the check that stands before every upgrade, transfer and finalization.
pub fn verify_authority(data: &[u8], expected: &Address) -> (r: Result<(), ProtocolError>)
    ensures
        r == authority_verdict(decoded_account(data@), *expected),
{
    let state = decode_account(data);
    check_authority(&state, expected)
}

/// Checks that a decoded account is a program-data record without an authority.
pub fn check_immutable(state: &Option<LoaderState>) -> (r: Result<(), ProtocolError>)
    ensures
        r == immutability_verdict(*state),
{
    match state {
        Some(LoaderState::ProgramData { slot: _, authority: None }) => Ok(()),
        Some(LoaderState::ProgramData { slot: _, authority: Some(found) }) => Err(
            ProtocolError::FinalizationUnconfirmed { authority: *found },
        ),
        _ => Err(ProtocolError::MalformedAccount),
    }
}

/// Checks the raw data of a program-data account after a finalization: the authority
/// must be gone.
pub fn verify_immutable(data: &[u8]) -> (r: Result<(), ProtocolError>)
    ensures
        r == immutability_verdict(decoded_account(data@)),
{
    let state = decode_account(data);
    check_immutable(&state)
}

/// The buffer for a longer payload is never smaller, and a buffer is never smaller than
/// its payload.
pub proof fn lemma_buffer_size_monotone(shorter: nat, longer: nat)
    requires
        shorter <= longer,
        longer <= usize::MAX,
    ensures
        buffer_size_of(shorter) <= buffer_size_of(longer),
        shorter <= buffer_size_of(shorter),
        longer <= buffer_size_of(longer),
{
}

/// The check succeeds if and only if the account is a program-data record whose
/// authority is present and equal to the expected one, byte for byte. A record without
/// an authority and a record with another authority fail differently.
pub proof fn lemma_authority_verifier(state: Option<LoaderState>, expected: Address)
    ensures
        authority_verdict(state, expected) is Ok <==> (state matches Some(
            LoaderState::ProgramData { authority: Some(found), .. },
        ) && found@ == expected@),
        authority_verdict(state, expected) == Err::<(), ProtocolError>(
            ProtocolError::AlreadyImmutable,
        ) <==> (state matches Some(LoaderState::ProgramData { authority: None, .. })),
        (authority_verdict(state, expected) matches Err(
            ProtocolError::AuthorityMismatch { expected: e, found: f },
        )) <==> (state matches Some(LoaderState::ProgramData { authority: Some(found), .. })
            && found@ != expected@),
{
    match state {
        Some(LoaderState::ProgramData { slot, authority: Some(found) }) => {
            if found@ == expected@ {
                crate::address::lemma_address_by_bytes(found, expected);
            }
        },
        _ => {},
    }
}

} // verus!
