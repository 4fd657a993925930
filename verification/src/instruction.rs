//! Ledger instructions as plain data, and the instructions of the system program and of
//! the upgradeable loader that the protocols submit.

use crate::address::{program_data_of, Address};
use vstd::prelude::*;

verus! {

/// An account that an instruction touches, and how.
#[derive(Clone, Copy, Debug, PartialEq, Eq)]
pub struct AccountMeta {
    pub address: Address,
    pub is_signer: bool,
    pub is_writable: bool,
}

/// One instruction: the program it is addressed to, the accounts it touches, its data.
#[derive(Clone, Debug, PartialEq, Eq)]
pub struct Instruction {
    pub program: Address,
    pub accounts: Vec<AccountMeta>,
    pub data: Vec<u8>,
}

/// What an instruction holds.
pub ghost struct InstructionView {
    pub program: Seq<u8>,
    pub accounts: Seq<AccountMeta>,
    pub data: Seq<u8>,
}

impl View for Instruction {
    type V = InstructionView;

    open spec fn view(&self) -> InstructionView {
        InstructionView { program: self.program@, accounts: self.accounts@, data: self.data@ }
    }
}

/// What each instruction of a list holds.
pub open spec fn instruction_views(list: Seq<Instruction>) -> Seq<InstructionView> {
    Seq::new(list.len(), |i: int| list[i]@)
}

/// What each instruction of a list holds, where there is a list.
pub open spec fn optional_instruction_views(list: Option<Vec<Instruction>>) -> Option<
    Seq<InstructionView>,
> {
    match list {
        Some(v) => Some(instruction_views(v@)),
        None => None,
    }
}

/// The system program's instruction that creates the account `to`, owned by `owner`,
/// with `space` bytes and `lamports` taken from `from`.
pub uninterp spec fn account_creation(
    from: Seq<u8>,
    to: Seq<u8>,
    lamports: u64,
    space: u64,
    owner: Seq<u8>,
) -> InstructionView;

/// The loader's instruction that writes `bytes` at `offset` into the buffer account.
pub uninterp spec fn chunk_write(
    buffer: Seq<u8>,
    authority: Seq<u8>,
    offset: u32,
    bytes: Seq<u8>,
) -> InstructionView;

/// The instructions that make the program at `program` executable from a written buffer,
/// with room for `max_len` bytes of code, where they can be built.
pub uninterp spec fn program_activation(
    payer: Seq<u8>,
    program: Seq<u8>,
    buffer: Seq<u8>,
    authority: Seq<u8>,
    lamports: u64,
    max_len: usize,
) -> Option<Seq<InstructionView>>;

/// The loader's instruction that replaces the code of the program at `program` with the
/// contents of a written buffer, any refund going to `spill`.
pub uninterp spec fn program_swap(
    program: Seq<u8>,
    buffer: Seq<u8>,
    authority: Seq<u8>,
    spill: Seq<u8>,
) -> InstructionView;

/// The loader's instruction that hands the authority over the program at `program` from
/// `current` to `replacement`, or clears it where there is no replacement.
pub uninterp spec fn authority_change(
    program: Seq<u8>,
    current: Seq<u8>,
    replacement: Option<Seq<u8>>,
) -> InstructionView;

impl AccountMeta {
    /// The entry for the account with the given address bytes.
    pub fn new(address: [u8; 32], is_signer: bool, is_writable: bool) -> (r: AccountMeta)
        ensures
            r.address.bytes == address,
            r.is_signer == is_signer,
            r.is_writable == is_writable,
    {
        AccountMeta { address: Address { bytes: address }, is_signer, is_writable }
    }
}

impl Instruction {
    /// The instruction for the program with the given address bytes.
    pub fn from_parts(program: [u8; 32], accounts: Vec<AccountMeta>, data: Vec<u8>) -> (r:
        Instruction)
        ensures
            r.program.bytes == program,
            r.accounts == accounts,
            r.data == data,
    {
        Instruction { program: Address { bytes: program }, accounts, data }
    }
}

/// Trusted: `solana_system_interface::instruction::create_account`. The instruction
/// depends on the five arguments alone.
#[verifier::external_body]
pub(crate) fn system_create_account(
    from: &Address,
    to: &Address,
    lamports: u64,
    space: u64,
    owner: &Address,
) -> (r: Instruction)
    ensures
        r@ == account_creation(from@, to@, lamports, space, owner@),
{
    let ix = solana_system_interface::instruction::create_account(
        &from.bytes.into(),
        &to.bytes.into(),
        lamports,
        space,
        &owner.bytes.into(),
    );
    let metas = ix.accounts.iter();
    let accounts = metas.map(|m| AccountMeta::new(m.pubkey.to_bytes(), m.is_signer, m.is_writable));
    Instruction::from_parts(ix.program_id.to_bytes(), accounts.collect(), ix.data)
}

/// Trusted: `solana_loader_v3_interface::instruction::write`. The instruction depends on
/// the four arguments alone.
#[verifier::external_body]
pub(crate) fn loader_write(buffer: &Address, authority: &Address, offset: u32, bytes: Vec<u8>) -> (r:
    Instruction)
    ensures
        r@ == chunk_write(buffer@, authority@, offset, bytes@),
{
    let ix = solana_loader_v3_interface::instruction::write(
        &buffer.bytes.into(),
        &authority.bytes.into(),
        offset,
        bytes,
    );
    let metas = ix.accounts.iter();
    let accounts = metas.map(|m| AccountMeta::new(m.pubkey.to_bytes(), m.is_signer, m.is_writable));
    Instruction::from_parts(ix.program_id.to_bytes(), accounts.collect(), ix.data)
}

/// Trusted: `solana_loader_v3_interface::instruction::deploy_with_max_program_len`. It
/// derives the program-data address and panics where none is found, which `requires`
/// leaves out. The result depends on the six arguments alone; `None` stands for its
/// error.
#[allow(deprecated)]
#[verifier::external_body]
pub(crate) fn loader_deploy(
    payer: &Address,
    program: &Address,
    buffer: &Address,
    authority: &Address,
    lamports: u64,
    max_len: usize,
) -> (r: Option<Vec<Instruction>>)
    requires
        program_data_of(program@) is Some,
    ensures
        optional_instruction_views(r) == program_activation(
            payer@,
            program@,
            buffer@,
            authority@,
            lamports,
            max_len,
        ),
{
    let built = solana_loader_v3_interface::instruction::deploy_with_max_program_len(
        &payer.bytes.into(),
        &program.bytes.into(),
        &buffer.bytes.into(),
        &authority.bytes.into(),
        lamports,
        max_len,
    );
    built.ok().map(|list| list.into_iter().map(|ix| Instruction::from_parts(
        ix.program_id.to_bytes(),
        ix.accounts.iter().map(|m| AccountMeta::new(m.pubkey.to_bytes(), m.is_signer, m.is_writable)).collect(),
        ix.data,
    )).collect())
}

/// Trusted: `solana_loader_v3_interface::instruction::upgrade`. It derives the
/// program-data address and panics where none is found, which `requires` leaves out. The
/// instruction depends on the four arguments alone.
#[verifier::external_body]
pub(crate) fn loader_upgrade(program: &Address, buffer: &Address, authority: &Address, spill: &Address) -> (r:
    Instruction)
    requires
        program_data_of(program@) is Some,
    ensures
        r@ == program_swap(program@, buffer@, authority@, spill@),
{
    let ix = solana_loader_v3_interface::instruction::upgrade(
        &program.bytes.into(),
        &buffer.bytes.into(),
        &authority.bytes.into(),
        &spill.bytes.into(),
    );
    let metas = ix.accounts.iter();
    let accounts = metas.map(|m| AccountMeta::new(m.pubkey.to_bytes(), m.is_signer, m.is_writable));
    Instruction::from_parts(ix.program_id.to_bytes(), accounts.collect(), ix.data)
}

/// Trusted: `solana_loader_v3_interface::instruction::set_upgrade_authority`. It derives
/// the program-data address and panics where none is found, which `requires` leaves out.
/// The instruction depends on the three arguments alone.
#[verifier::external_body]
pub(crate) fn loader_set_authority(
    program: &Address,
    current: &Address,
    replacement: Option<&Address>,
) -> (r: Instruction)
    requires
        program_data_of(program@) is Some,
    ensures
        r@ == authority_change(
            program@,
            current@,
            match replacement {
                Some(a) => Some(a@),
                None => None,
            },
        ),
{
    let next = replacement.map(|a| a.bytes.into());
    let ix = solana_loader_v3_interface::instruction::set_upgrade_authority(
        &program.bytes.into(),
        &current.bytes.into(),
        next.as_ref(),
    );
    let metas = ix.accounts.iter();
    let accounts = metas.map(|m| AccountMeta::new(m.pubkey.to_bytes(), m.is_signer, m.is_writable));
    Instruction::from_parts(ix.program_id.to_bytes(), accounts.collect(), ix.data)
}

} // verus!
