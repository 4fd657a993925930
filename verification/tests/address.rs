use shield_deploy::address::Address;
use solana_sdk::pubkey::Pubkey;
use std::str::FromStr;

const LOADER: &str = "BPFLoaderUpgradeab1e11111111111111111111111";

#[test]
fn loader_address_is_the_one_of_the_ledger() {
    let loader = Address::loader();
    assert_eq!(loader.bytes, solana_sdk_ids::bpf_loader_upgradeable::id().to_bytes());
    assert_eq!(
        loader.bytes,
        [
            2, 168, 246, 145, 78, 136, 161, 176, 226, 16, 21, 62, 247, 99, 174, 43, 0, 194, 185,
            61, 22, 193, 36, 210, 192, 83, 122, 16, 4, 128, 0, 0
        ]
    );
    assert_eq!(loader.to_text(), LOADER);
}

#[test]
fn parse_reads_base58() {
    assert_eq!(Address::parse(LOADER), Some(Address::loader()));
    assert_eq!(Address::parse("11111111111111111111111111111111"), Some(Address::new([0; 32])));
    let key = Pubkey::new_from_array([7; 32]);
    assert_eq!(Address::parse(&key.to_string()), Some(Address::new([7; 32])));
}

#[test]
fn parse_turns_away_what_is_no_address() {
    assert_eq!(Address::parse(""), None);
    assert_eq!(Address::parse("not an address"), None);
    assert_eq!(Address::parse("0OIl"), None);
    assert_eq!(Address::parse("1111"), None);
    assert_eq!(Address::parse(&"1".repeat(45)), None);
}

#[test]
fn to_text_writes_base58() {
    let bytes: [u8; 32] = core::array::from_fn(|i| (i * 11 + 1) as u8);
    let text = Address::new(bytes).to_text();
    assert_eq!(text, Pubkey::new_from_array(bytes).to_string());
    assert_ne!(text.as_bytes(), &bytes[..]);
    assert_eq!(Pubkey::from_str(&text).unwrap().to_bytes(), bytes);
}

#[test]
fn text_and_parse_are_inverse_on_addresses() {
    for seed in 0u8..20 {
        let address = Address::new([seed; 32]);
        assert_eq!(Address::parse(&address.to_text()), Some(address));
    }
}

#[test]
fn program_data_is_derived_under_the_loader() {
    for seed in 0u8..10 {
        let program = Pubkey::new_from_array([seed; 32]);
        let expected = solana_loader_v3_interface::get_program_data_address(&program);
        let derived = Address::new([seed; 32]).program_data();
        assert_eq!(derived, Some(Address::new(expected.to_bytes())));
        assert_ne!(derived, Some(Address::new([seed; 32])));
    }
}

#[test]
fn same_as_compares_every_byte() {
    let a = Address::new([9; 32]);
    let mut bytes = [9u8; 32];
    assert!(a.same_as(&Address::new(bytes)));
    bytes[31] = 8;
    assert!(!a.same_as(&Address::new(bytes)));
    bytes[31] = 9;
    bytes[0] = 10;
    assert!(!a.same_as(&Address::new(bytes)));
}
