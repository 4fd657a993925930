//! The exchange between a protocol and the code that talks to the ledger.
//!
//! A protocol never talks to the ledger itself. It hands out an [`Action`], the caller
//! performs it and hands back the [`Event`] that tells how it went, and the protocol
//! answers with the next action. One request is outstanding at a time.

use crate::address::Address;
use crate::error::{ProtocolError, Step};
use crate::instruction::{instruction_views, Instruction, InstructionView};
use vstd::prelude::*;

verus! {

/// What came back from the ledger for the outstanding request.
#[derive(Clone, Debug, PartialEq, Eq)]
pub enum Event {
    /// The balance that was asked for, in lamports.
    Balance(u64),
    /// The rent-exempt balance that was asked for, in lamports.
    Rent(u64),
    /// The raw data of the account that was fetched.
    Account(Vec<u8>),
    /// The submitted transaction was confirmed.
    Confirmed,
    /// The request could not be made, or the ledger refused it.
    Failed,
}

/// What an event holds.
pub ghost enum EventView {
    Balance(u64),
    Rent(u64),
    Account(Seq<u8>),
    Confirmed,
    Failed,
}

impl View for Event {
    type V = EventView;

    open spec fn view(&self) -> EventView {
        match self {
            Event::Balance(lamports) => EventView::Balance(*lamports),
            Event::Rent(lamports) => EventView::Rent(*lamports),
            Event::Account(data) => EventView::Account(data@),
            Event::Confirmed => EventView::Confirmed,
            Event::Failed => EventView::Failed,
        }
    }
}

/// What the caller is to do next.
#[derive(Clone, Debug, PartialEq, Eq)]
pub enum Action {
    /// Ask for the balance of `owner`; answer with [`Event::Balance`].
    QueryBalance { owner: Address },
    /// Ask for the rent-exempt balance of `size` bytes; answer with [`Event::Rent`].
    QueryRent { size: usize },
    /// Fetch the account at `address`; answer with [`Event::Account`].
    FetchAccount { address: Address },
    /// Submit one transaction that holds `instructions`, paid by the first of `signers`
    /// and signed by all of them, and wait until it is confirmed; answer with
    /// [`Event::Confirmed`].
    Submit { instructions: Vec<Instruction>, signers: Vec<Address>, step: Step },
    /// The protocol is through: the ledger has confirmed all of it.
    Complete,
    /// The protocol has stopped. Nothing that was done on the ledger is undone.
    Abort { error: ProtocolError },
}

/// What an action holds.
pub ghost enum ActionView {
    QueryBalance { owner: Address },
    QueryRent { size: usize },
    FetchAccount { address: Address },
    Submit { instructions: Seq<InstructionView>, signers: Seq<Address>, step: Step },
    Complete,
    Abort { error: ProtocolError },
}

impl View for Action {
    type V = ActionView;

    open spec fn view(&self) -> ActionView {
        match self {
            Action::QueryBalance { owner } => ActionView::QueryBalance { owner: *owner },
            Action::QueryRent { size } => ActionView::QueryRent { size: *size },
            Action::FetchAccount { address } => ActionView::FetchAccount { address: *address },
            Action::Submit { instructions, signers, step } => ActionView::Submit {
                instructions: instruction_views(instructions@),
                signers: signers@,
                step: *step,
            },
            Action::Complete => ActionView::Complete,
            Action::Abort { error } => ActionView::Abort { error: *error },
        }
    }
}

impl ActionView {
    /// Tells whether the action changes anything on the ledger.
    pub open spec fn mutates(self) -> bool {
        self is Submit
    }
}

/// The transaction of one instruction, signed by `signers`.
pub open spec fn single_submission(instruction: InstructionView, signers: Seq<Address>, step: Step) -> ActionView {
    ActionView::Submit { instructions: seq![instruction], signers, step }
}

/// Builds the action that submits one instruction signed by one key.
pub fn submit_signed_by(instruction: Instruction, signer: Address, step: Step) -> (r: Action)
    ensures
        r@ == single_submission(instruction@, seq![signer], step),
{
    let mut instructions: Vec<Instruction> = Vec::new();
    instructions.push(instruction);
    let mut signers: Vec<Address> = Vec::new();
    signers.push(signer);
    assert(instruction_views(instructions@) =~= seq![instruction@]);
    assert(signers@ =~= seq![signer]);
    Action::Submit { instructions, signers, step }
}

/// Builds the action that submits instructions signed by the payer and one more key.
pub fn submit_signed_by_two(
    instructions: Vec<Instruction>,
    payer: Address,
    other: Address,
    step: Step,
) -> (r: Action)
    ensures
        r@ == (ActionView::Submit {
            instructions: instruction_views(instructions@),
            signers: seq![payer, other],
            step,
        }),
{
    let mut signers: Vec<Address> = Vec::new();
    signers.push(payer);
    signers.push(other);
    assert(signers@ =~= seq![payer, other]);
    Action::Submit { instructions, signers, step }
}

} // verus!
