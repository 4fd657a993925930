use shield_deploy::account::{
    buffer_size, check_authority, check_immutable, decode_account, program_data_size,
    verify_authority, verify_immutable, LoaderState, BUFFER_HEADER_LEN, PROGRAM_DATA_HEADER_LEN,
};
use shield_deploy::address::Address;
use shield_deploy::error::ProtocolError;
use solana_loader_v3_interface::state::UpgradeableLoaderState;
use solana_sdk::pubkey::Pubkey;

fn key(seed: u8) -> Pubkey {
    Pubkey::new_from_array([seed; 32])
}

fn address(seed: u8) -> Address {
    Address::new([seed; 32])
}

fn program_data(authority: Option<Pubkey>) -> Vec<u8> {
    let state = UpgradeableLoaderState::ProgramData { slot: 42, upgrade_authority_address: authority };
    let mut data = bincode::serialize(&state).unwrap();
    data.extend_from_slice(&[0x7f, b'E', b'L', b'F', 1, 2, 3]);
    data
}

#[test]
fn buffer_is_header_and_payload() {
    assert_eq!(BUFFER_HEADER_LEN, 37);
    assert_eq!(buffer_size(0), 37);
    assert_eq!(buffer_size(1), 38);
    assert_eq!(buffer_size(50_000), 50_037);
    assert_eq!(buffer_size(usize::MAX), usize::MAX);
    assert_eq!(buffer_size(usize::MAX - 37), usize::MAX);
    assert_eq!(buffer_size(usize::MAX - 38), usize::MAX - 1);
    for len in [0usize, 1, 36, 37, 900, 1 << 20] {
        assert_eq!(buffer_size(len), UpgradeableLoaderState::size_of_buffer(len));
    }
}

#[test]
fn buffer_never_shrinks_with_the_payload() {
    let lens = [0usize, 1, 2, 899, 900, 901, 1 << 30, usize::MAX - 38, usize::MAX - 37, usize::MAX];
    for pair in lens.windows(2) {
        assert!(buffer_size(pair[0]) <= buffer_size(pair[1]));
    }
    for len in lens {
        assert!(buffer_size(len) >= len);
    }
}

#[test]
fn program_data_is_header_and_code() {
    assert_eq!(PROGRAM_DATA_HEADER_LEN, 45);
    assert_eq!(program_data_size(0), 45);
    assert_eq!(program_data_size(1000), 1045);
    assert_eq!(program_data_size(usize::MAX), usize::MAX);
    assert_eq!(program_data_size(77), UpgradeableLoaderState::size_of_programdata(77));
}

#[test]
fn decode_reads_every_kind_of_record() {
    let encode = |state: UpgradeableLoaderState| bincode::serialize(&state).unwrap();
    assert_eq!(
        decode_account(&encode(UpgradeableLoaderState::Uninitialized)),
        Some(LoaderState::Uninitialized)
    );
    assert_eq!(
        decode_account(&encode(UpgradeableLoaderState::Buffer { authority_address: Some(key(3)) })),
        Some(LoaderState::Buffer { authority: Some(address(3)) })
    );
    assert_eq!(
        decode_account(&encode(UpgradeableLoaderState::Buffer { authority_address: None })),
        Some(LoaderState::Buffer { authority: None })
    );
    assert_eq!(
        decode_account(&encode(UpgradeableLoaderState::Program { programdata_address: key(4) })),
        Some(LoaderState::Program { program_data: address(4) })
    );
    assert_eq!(
        decode_account(&program_data(Some(key(5)))),
        Some(LoaderState::ProgramData { slot: 42, authority: Some(address(5)) })
    );
    assert_eq!(
        decode_account(&program_data(None)),
        Some(LoaderState::ProgramData { slot: 42, authority: None })
    );
}

#[test]
fn decode_turns_away_what_is_no_record() {
    assert_eq!(decode_account(&[]), None);
    assert_eq!(decode_account(&[3, 0, 0]), None);
    assert_eq!(decode_account(&[9, 0, 0, 0]), None);
    assert_eq!(decode_account(&[3, 0, 0, 0, 1, 2, 3]), None);
}

#[test]
fn verifier_succeeds_only_for_the_expected_authority() {
    assert_eq!(verify_authority(&program_data(Some(key(1))), &address(1)), Ok(()));
    assert_eq!(
        verify_authority(&program_data(Some(key(2))), &address(1)),
        Err(ProtocolError::AuthorityMismatch { expected: address(1), found: address(2) })
    );
    let mut almost = [1u8; 32];
    almost[31] = 0;
    assert_eq!(
        verify_authority(&program_data(Some(Pubkey::new_from_array(almost))), &address(1)),
        Err(ProtocolError::AuthorityMismatch { expected: address(1), found: Address::new(almost) })
    );
}

#[test]
fn verifier_tells_absent_from_mismatched() {
    let absent = verify_authority(&program_data(None), &address(1));
    let mismatched = verify_authority(&program_data(Some(key(2))), &address(1));
    assert_eq!(absent, Err(ProtocolError::AlreadyImmutable));
    assert!(matches!(mismatched, Err(ProtocolError::AuthorityMismatch { .. })));
    assert_ne!(absent, mismatched);
}

#[test]
fn verifier_turns_away_other_accounts() {
    let buffer = bincode::serialize(&UpgradeableLoaderState::Buffer { authority_address: Some(key(1)) }).unwrap();
    let program = bincode::serialize(&UpgradeableLoaderState::Program { programdata_address: key(1) }).unwrap();
    assert_eq!(verify_authority(&buffer, &address(1)), Err(ProtocolError::MalformedAccount));
    assert_eq!(verify_authority(&program, &address(1)), Err(ProtocolError::MalformedAccount));
    assert_eq!(verify_authority(&[0, 0, 0, 0], &address(1)), Err(ProtocolError::MalformedAccount));
    assert_eq!(verify_authority(&[], &address(1)), Err(ProtocolError::MalformedAccount));
    assert_eq!(verify_authority(&[0xff; 64], &address(1)), Err(ProtocolError::MalformedAccount));
}

#[test]
fn check_authority_goes_by_the_decoded_record() {
    let record = Some(LoaderState::ProgramData { slot: 0, authority: Some(address(8)) });
    assert_eq!(check_authority(&record, &address(8)), Ok(()));
    assert_eq!(
        check_authority(&record, &address(9)),
        Err(ProtocolError::AuthorityMismatch { expected: address(9), found: address(8) })
    );
    assert_eq!(check_authority(&None, &address(8)), Err(ProtocolError::MalformedAccount));
    assert_eq!(
        check_authority(&Some(LoaderState::Uninitialized), &address(8)),
        Err(ProtocolError::MalformedAccount)
    );
}

#[test]
fn immutability_needs_an_absent_authority() {
    assert_eq!(verify_immutable(&program_data(None)), Ok(()));
    assert_eq!(
        verify_immutable(&program_data(Some(key(6)))),
        Err(ProtocolError::FinalizationUnconfirmed { authority: address(6) })
    );
    assert_eq!(verify_immutable(&[1, 2, 3]), Err(ProtocolError::MalformedAccount));
    assert_eq!(
        check_immutable(&Some(LoaderState::Buffer { authority: None })),
        Err(ProtocolError::MalformedAccount)
    );
    assert_eq!(check_immutable(&None), Err(ProtocolError::MalformedAccount));
}
