//! Staging a payload on the ledger: the buffer account that holds it, and the writes
//! that fill the buffer piece by piece.

use crate::account::{buffer_size, buffer_size_of};
use crate::address::{loader_id, Address};
use crate::chunking::{chunk_at, chunk_bytes, chunk_count, chunk_offset, count_chunks, lemma_chunk_range, CHUNK_SIZE};
use crate::error::Step;
use crate::instruction::{
    account_creation, chunk_write, instruction_views, loader_write, system_create_account, Instruction,
};
use crate::protocol::{single_submission, submit_signed_by, submit_signed_by_two, Action, ActionView};
use vstd::prelude::*;

verus! {

/// Longest payload that can be uploaded: a write's offset is a 32-bit number.
pub const MAX_PAYLOAD_LEN: usize = 0xffff_ffff;

/// Number of writes that upload a payload of `len` bytes.
pub open spec fn write_count(len: nat) -> nat {
    chunk_count(len, CHUNK_SIZE as nat)
}

/// The query for the rent-exempt balance of the buffer for `len` bytes.
pub open spec fn buffer_rent_query(len: nat) -> ActionView {
    ActionView::QueryRent { size: buffer_size_of(len) as usize }
}

/// The transaction that creates the buffer for `len` bytes: an account of exactly the
/// buffer's size, owned by the loader, funded with `lamports` by the payer, and signed
/// by the payer and by the buffer's own key.
pub open spec fn buffer_creation(payer: Address, buffer: Address, len: nat, lamports: u64) -> ActionView {
    ActionView::Submit {
        instructions: seq![
            account_creation(payer@, buffer@, lamports, buffer_size_of(len) as u64, loader_id()),
        ],
        signers: seq![payer, buffer],
        step: Step::CreateBuffer,
    }
}

/// The transaction that writes piece `index` of the payload into the buffer at the
/// piece's offset, signed by the authority alone.
pub open spec fn chunk_submission(authority: Address, buffer: Address, payload: Seq<u8>, index: nat) -> ActionView {
    single_submission(
        chunk_write(
            buffer@,
            authority@,
            chunk_offset(index, CHUNK_SIZE as nat) as u32,
            chunk_bytes(payload, index, CHUNK_SIZE as nat),
        ),
        seq![authority],
        Step::WriteChunk { number: (index + 1) as usize, total: write_count(payload.len()) as usize },
    )
}

/// Number of writes that upload a payload of `len` bytes.
pub fn count_writes(len: usize) -> (r: usize)
    ensures
        r == write_count(len as nat),
{
    count_chunks(len, CHUNK_SIZE)
}

/// Asks for the rent-exempt balance of the buffer for a payload of `len` bytes.
pub fn query_buffer_rent(len: usize) -> (r: Action)
    ensures
        r@ == buffer_rent_query(len as nat),
{
    Action::QueryRent { size: buffer_size(len) }
}

/// Builds the transaction that creates the buffer for a payload of `len` bytes.
pub fn create_buffer(payer: &Address, buffer: &Address, len: usize, lamports: u64) -> (r: Action)
    ensures
        r@ == buffer_creation(*payer, *buffer, len as nat, lamports),
{
    let loader = Address::loader();
    let space = buffer_size(len) as u64;
    let instruction = system_create_account(payer, buffer, lamports, space, &loader);
    let mut instructions: Vec<Instruction> = Vec::new();
    instructions.push(instruction);
    let r = submit_signed_by_two(instructions, *payer, *buffer, Step::CreateBuffer);
    assert(instruction_views(instructions@) =~= seq![instruction@]);
    r
}

/// Builds the transaction that writes piece `index` of the payload.
pub fn write_chunk(authority: &Address, buffer: &Address, payload: &[u8], index: usize) -> (r:
    Action)
    requires
        payload@.len() <= MAX_PAYLOAD_LEN,
        index < write_count(payload@.len()),
    ensures
        r@ == chunk_submission(*authority, *buffer, payload@, index as nat),
{
    proof {
        lemma_chunk_range(payload@.len(), index as nat, CHUNK_SIZE as nat);
    }
    let total = count_chunks(payload.len(), CHUNK_SIZE);
    let chunk = chunk_at(payload, index, CHUNK_SIZE);
    let instruction = loader_write(buffer, authority, chunk.offset as u32, chunk.data);
    submit_signed_by(instruction, *authority, Step::WriteChunk { number: index + 1, total })
}

} // verus!
