//! Ledger addresses: 32-byte keys, their base-58 text form, and the addresses that the
//! ledger derives from them.

use vstd::prelude::*;

verus! {

/// A 32-byte ledger address: the public half of a keypair, or a derived address.
#[derive(Clone, Copy, Debug, PartialEq, Eq, Hash)]
pub struct Address {
    pub bytes: [u8; 32],
}

impl View for Address {
    type V = Seq<u8>;

    open spec fn view(&self) -> Seq<u8> {
        self.bytes@
    }
}

/// The bytes of an address that may be absent.
pub open spec fn optional_bytes(address: Option<Address>) -> Option<Seq<u8>> {
    match address {
        Some(a) => Some(a@),
        None => None,
    }
}

/// The address that the base-58 text `text` stands for, if it stands for one.
pub uninterp spec fn parsed_address(text: Seq<char>) -> Option<Seq<u8>>;

/// The base-58 text of the address with these bytes.
pub uninterp spec fn address_text(bytes: Seq<u8>) -> Seq<char>;

/// The address that the program at `owner` controls under the single seed `seed`, if the
/// search for one succeeds.
pub uninterp spec fn derived_address(seed: Seq<u8>, owner: Seq<u8>) -> Option<Seq<u8>>;

/// The bytes of the upgradeable loader's address,
/// `BPFLoaderUpgradeab1e11111111111111111111111`.
pub open spec fn loader_id() -> Seq<u8> {
    seq![
        2u8, 168, 246, 145, 78, 136, 161, 176, 226, 16, 21, 62, 247, 99, 174, 43,
        0, 194, 185, 61, 22, 193, 36, 210, 192, 83, 122, 16, 4, 128, 0, 0,
    ]
}

/// The address of the account that holds the code and the authority of the program at
/// `program`: the address derived from the program's own, under the loader.
pub open spec fn program_data_of(program: Seq<u8>) -> Option<Seq<u8>> {
    derived_address(program, loader_id())
}

/// The address with the given bytes.
pub open spec fn address_from(bytes: Seq<u8>) -> Address {
    choose|a: Address| a@ == bytes
}

/// The address that a program identifier stands for, if it stands for one.
pub open spec fn parsed_program(text: Seq<char>) -> Option<Address> {
    match parsed_address(text) {
        Some(bytes) => Some(address_from(bytes)),
        None => None,
    }
}

/// The address of the program-data account of the program at `program`, if the
/// derivation finds one.
pub open spec fn program_data_address(program: Address) -> Option<Address> {
    match program_data_of(program@) {
        Some(bytes) => Some(address_from(bytes)),
        None => None,
    }
}

/// Trusted: `<solana_sdk::pubkey::Pubkey as FromStr>::from_str`. The result depends on
/// the text alone; `None` stands for every parse error.
#[verifier::external_body]
fn parse_base58(text: &str) -> (r: Option<Address>)
    ensures
        optional_bytes(r) == parsed_address(text@),
{
    match text.parse::<solana_sdk::pubkey::Pubkey>() {
        Ok(key) => Some(Address { bytes: key.to_bytes() }),
        Err(_) => None,
    }
}

/// Trusted: `Pubkey`'s `Display`, reached through `to_string`. The result depends on the
/// bytes alone.
#[verifier::external_body]
fn format_base58(address: &Address) -> (r: String)
    ensures
        r@ == address_text(address@),
{
    solana_sdk::pubkey::Pubkey::new_from_array(address.bytes).to_string()
}

/// Trusted: `solana_sdk::pubkey::Pubkey::try_find_program_address` with the one seed
/// `seed`. The result depends on the seed and the owner alone; the bump seed that comes
/// with the address is dropped.
#[verifier::external_body]
fn find_derived_address(seed: &Address, owner: &Address) -> (r: Option<Address>)
    ensures
        optional_bytes(r) == derived_address(seed@, owner@),
{
    let owner = solana_sdk::pubkey::Pubkey::new_from_array(owner.bytes);
    solana_sdk::pubkey::Pubkey::try_find_program_address(&[&seed.bytes], &owner)
        .map(|found| Address { bytes: found.0.to_bytes() })
}

/// Trusted: `solana_sdk_ids::bpf_loader_upgradeable::id`, the constant address of the
/// upgradeable loader.
#[verifier::external_body]
fn loader_address() -> (r: Address)
    ensures
        r@ == loader_id(),
{
    Address { bytes: solana_sdk_ids::bpf_loader_upgradeable::id().to_bytes() }
}

impl Address {
    /// The address with the given bytes.
    pub fn new(bytes: [u8; 32]) -> (r: Address)
        ensures
            r.bytes == bytes,
            r@ == bytes@,
    {
        Address { bytes }
    }

    /// Tells whether two addresses are the same, byte for byte.
    pub fn same_as(&self, other: &Address) -> (r: bool)
        ensures
            r == (self@ == other@),
            r == (*self == *other),
    {
        let mut i: usize = 0;
        while i < 32
            invariant
                i <= 32,
                forall|j: int| 0 <= j < i ==> self.bytes@[j] == other.bytes@[j],
            decreases 32 - i,
        {
            if self.bytes[i] != other.bytes[i] {
                return false;
            }
            i = i + 1;
        }
        assert(self.bytes =~= other.bytes);
        true
    }

    /// Reads an address from its base-58 text; `None` where the text names none.
    pub fn parse(text: &str) -> (r: Option<Address>)
        ensures
            optional_bytes(r) == parsed_address(text@),
            r == parsed_program(text@),
    {
        let r = parse_base58(text);
        proof {
            if let Some(a) = r {
                lemma_address_from(a);
            }
        }
        r
    }

    /// The base-58 text of the address.
    pub fn to_text(&self) -> (r: String)
        ensures
            r@ == address_text(self@),
    {
        format_base58(self)
    }

    /// The upgradeable loader's address.
    pub fn loader() -> (r: Address)
        ensures
            r@ == loader_id(),
    {
        loader_address()
    }

    /// The address of the program-data account of the program at `self`; `None` in the
    /// improbable case that the ledger's derivation finds none.
    pub fn program_data(&self) -> (r: Option<Address>)
        ensures
            optional_bytes(r) == program_data_of(self@),
            r == program_data_address(*self),
    {
        let loader = loader_address();
        let r = find_derived_address(self, &loader);
        proof {
            if let Some(a) = r {
                lemma_address_from(a);
            }
        }
        r
    }
}

/// An address is the one address with its bytes.
pub proof fn lemma_address_from(a: Address)
    ensures
        address_from(a@) == a,
{
    let b = address_from(a@);
    assert(b@ == a@);
    lemma_address_by_bytes(b, a);
}

/// Two addresses with the same bytes are the same address.
pub proof fn lemma_address_by_bytes(a: Address, b: Address)
    requires
        a@ == b@,
    ensures
        a == b,
{
    assert(a.bytes =~= b.bytes);
}

} // verus!
