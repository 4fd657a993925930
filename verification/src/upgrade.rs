//! Replacing the code of a deployed program, whose address stays what it is.
//!
//! An upgrade first checks that the controller holds enough and that it is the program's
//! authority; nothing is created on the ledger before both are known. Then it stages the
//! new code as a deployment does, and swaps it in with one transaction that the
//! authority alone signs.

use crate::account::{authority_verdict, decoded_account, verify_authority};
use crate::address::{parsed_program, program_data_address, Address};
use crate::clock::unix_timestamp;
use crate::config::{ProjectState, ProjectStateView};
use crate::error::{ProtocolError, Step};
use crate::instruction::{loader_upgrade, program_swap};
use crate::protocol::{single_submission, submit_signed_by, Action, ActionView, Event, EventView};
use crate::upload::{
    buffer_creation, buffer_rent_query, chunk_submission, count_writes, create_buffer,
    query_buffer_rent, write_chunk, write_count, MAX_PAYLOAD_LEN,
};
use vstd::prelude::*;

verus! {

/// Smallest controller balance, in lamports, with which an upgrade is started.
pub const MIN_UPGRADE_BALANCE: u64 = 1_000_000_000;

/// How far an upgrade has come on the ledger.
#[derive(Clone, Copy, Debug, PartialEq, Eq)]
pub enum UpgradeStage {
    /// The controller is known to be the program's authority.
    AuthorityVerified,
    /// The buffer account exists.
    BufferCreated,
    /// The whole payload is in the buffer.
    DataWritten,
    /// The program runs the new code.
    Swapped,
}

/// Where an upgrade stands: the request that is outstanding, or how it ended.
#[derive(Clone, Copy, Debug, PartialEq, Eq)]
pub enum UpgradePhase {
    /// The controller's balance was asked for.
    AwaitBalance,
    /// The program-data account was fetched, to check the authority.
    AwaitAuthority,
    /// The buffer's rent was asked for.
    AwaitBufferRent,
    /// The buffer's creation was submitted.
    AwaitBufferCreation,
    /// The write of piece `index` was submitted; all pieces before it are confirmed.
    AwaitChunk { index: usize },
    /// The swap was submitted.
    AwaitSwap,
    /// The ledger has confirmed the swap.
    Swapped,
    /// The upgrade has stopped.
    Failed { error: ProtocolError },
}

/// An upgrade in progress.
#[derive(Debug)]
pub struct Upgrade {
    authority: Address,
    program: Address,
    program_data: Address,
    buffer: Address,
    payload: Vec<u8>,
    balance: u64,
    phase: UpgradePhase,
}

/// What an upgrade holds.
pub ghost struct UpgradeView {
    /// The controller: it pays, it signs, and it receives what the buffer refunds.
    pub authority: Address,
    /// The program that is upgraded.
    pub program: Address,
    /// The account that holds the program's code and authority.
    pub program_data: Address,
    /// The staging account.
    pub buffer: Address,
    /// The new code.
    pub payload: Seq<u8>,
    /// The controller's balance as the ledger reported it; zero before that.
    pub balance: u64,
    pub phase: UpgradePhase,
}

/// The identifier of the newest program on record, which an upgrade replaces.
pub open spec fn latest_program_id(state: ProjectStateView) -> Option<Seq<char>> {
    if state.deployed_programs.len() == 0 {
        None
    } else {
        Some(state.deployed_programs.last().program_id)
    }
}

impl UpgradeView {
    /// What holds of every upgrade: the payload can be addressed by write offsets, the
    /// program-data address is the program's, and a write that is outstanding is one of
    /// the payload's pieces.
    pub open spec fn valid(self) -> bool {
        &&& self.payload.len() <= MAX_PAYLOAD_LEN
        &&& program_data_address(self.program) == Some(self.program_data)
        &&& (self.phase matches UpgradePhase::AwaitChunk { index } ==> index < write_count(
            self.payload.len(),
        ))
    }

    /// How far the upgrade has come; `None` before the authority is verified and once
    /// the upgrade has failed.
    pub open spec fn stage(self) -> Option<UpgradeStage> {
        match self.phase {
            UpgradePhase::AwaitBufferRent => Some(UpgradeStage::AuthorityVerified),
            UpgradePhase::AwaitBufferCreation => Some(UpgradeStage::AuthorityVerified),
            UpgradePhase::AwaitChunk { index } => Some(UpgradeStage::BufferCreated),
            UpgradePhase::AwaitSwap => Some(UpgradeStage::DataWritten),
            UpgradePhase::Swapped => Some(UpgradeStage::Swapped),
            _ => None,
        }
    }

    /// The same upgrade in another phase.
    pub open spec fn at(self, phase: UpgradePhase) -> UpgradeView {
        UpgradeView { phase, ..self }
    }

    /// The upgrade stopped by `error`.
    pub open spec fn stopped(self, error: ProtocolError) -> (UpgradeView, ActionView) {
        (self.at(UpgradePhase::Failed { error }), ActionView::Abort { error })
    }

    /// The request that is outstanding.
    pub open spec fn pending(self) -> Step {
        match self.phase {
            UpgradePhase::AwaitBalance => Step::QueryBalance,
            UpgradePhase::AwaitAuthority => Step::FetchAccount,
            UpgradePhase::AwaitBufferCreation => Step::CreateBuffer,
            UpgradePhase::AwaitChunk { index } => Step::WriteChunk {
                number: (index + 1) as usize,
                total: write_count(self.payload.len()) as usize,
            },
            UpgradePhase::AwaitSwap => Step::Swap,
            _ => Step::QueryRent,
        }
    }

    /// What follows an event that is not the answer hoped for: a failure of the
    /// outstanding request stops the upgrade at that step, anything else stops it as out
    /// of turn.
    pub open spec fn rejected(self, event: EventView) -> (UpgradeView, ActionView) {
        if event is Failed {
            self.stopped(ProtocolError::TransactionFailed { step: self.pending() })
        } else {
            self.stopped(ProtocolError::UnexpectedEvent)
        }
    }

    /// The swap: one transaction that names the program, the written buffer and the
    /// authority, which also receives the refund; signed by the authority alone.
    pub open spec fn swap(self) -> ActionView {
        single_submission(
            program_swap(self.program@, self.buffer@, self.authority@, self.authority@),
            seq![self.authority],
            Step::Swap,
        )
    }

    /// What follows once `done` writes are confirmed: the write of the next piece, at
    /// its offset, or, when no piece is left, the swap.
    pub open spec fn after_writes(self, done: nat) -> (UpgradeView, ActionView) {
        if done < write_count(self.payload.len()) {
            (
                self.at(UpgradePhase::AwaitChunk { index: done as usize }),
                chunk_submission(self.authority, self.buffer, self.payload, done),
            )
        } else {
            (self.at(UpgradePhase::AwaitSwap), self.swap())
        }
    }

    /// The upgrade after `event`, and the action that it asks for next.
    pub open spec fn step(self, event: EventView) -> (UpgradeView, ActionView) {
        match self.phase {
            UpgradePhase::Swapped => (self, ActionView::Complete),
            UpgradePhase::Failed { error } => (self, ActionView::Abort { error }),
            UpgradePhase::AwaitBalance => match event {
                EventView::Balance(balance) => if balance < MIN_UPGRADE_BALANCE {
                    self.stopped(
                        ProtocolError::InsufficientBalance {
                            balance,
                            required: MIN_UPGRADE_BALANCE,
                        },
                    )
                } else {
                    (
                        UpgradeView { balance, phase: UpgradePhase::AwaitAuthority, ..self },
                        ActionView::FetchAccount { address: self.program_data },
                    )
                },
                _ => self.rejected(event),
            },
            UpgradePhase::AwaitAuthority => match event {
                EventView::Account(data) => match authority_verdict(
                    decoded_account(data),
                    self.authority,
                ) {
                    Ok(_) => (
                        self.at(UpgradePhase::AwaitBufferRent),
                        buffer_rent_query(self.payload.len()),
                    ),
                    Err(error) => self.stopped(error),
                },
                _ => self.rejected(event),
            },
            UpgradePhase::AwaitBufferRent => match event {
                EventView::Rent(lamports) => (
                    self.at(UpgradePhase::AwaitBufferCreation),
                    buffer_creation(self.authority, self.buffer, self.payload.len(), lamports),
                ),
                _ => self.rejected(event),
            },
            UpgradePhase::AwaitBufferCreation => match event {
                EventView::Confirmed => self.after_writes(0),
                _ => self.rejected(event),
            },
            UpgradePhase::AwaitChunk { index } => match event {
                EventView::Confirmed => self.after_writes((index + 1) as nat),
                _ => self.rejected(event),
            },
            UpgradePhase::AwaitSwap => match event {
                EventView::Confirmed => (self.at(UpgradePhase::Swapped), ActionView::Complete),
                _ => self.rejected(event),
            },
        }
    }
}

/// A step keeps an upgrade valid, and leaves what it works on as it is.
pub proof fn lemma_upgrade_step_valid(before: UpgradeView, event: EventView)
    requires
        before.valid(),
    ensures
        before.step(event).0.valid(),
        before.step(event).0.payload == before.payload,
        before.step(event).0.program == before.program,
        before.step(event).0.authority == before.authority,
        before.step(event).0.buffer == before.buffer,
{
}

/// Nothing is changed on the ledger before the authority is verified, nor after a
/// failure or after the swap: a step from such a phase submits no transaction. A failed
/// upgrade stays failed.
pub proof fn lemma_upgrade_needs_authority(before: UpgradeView, event: EventView)
    requires
        before.stage() is None || before.phase is Swapped,
    ensures
        !before.step(event).1.mutates(),
        before.phase is Failed ==> before.step(event).0 == before,
        before.phase is Swapped ==> before.step(event).0 == before,
{
}

/// Where the account does not show the controller as the program's authority, the
/// upgrade stops with the verifier's error, before any buffer is asked for: an authority
/// that is another key stops it as a mismatch, an absent one as immutable.
pub proof fn lemma_upgrade_rejects_other_authority(before: UpgradeView, data: Seq<u8>)
    requires
        before.phase is AwaitAuthority,
        authority_verdict(decoded_account(data), before.authority) is Err,
    ensures
        before.step(EventView::Account(data)) == before.stopped(
            authority_verdict(decoded_account(data), before.authority)->Err_0,
        ),
        before.step(EventView::Account(data)).0.phase is Failed,
        before.step(EventView::Account(data)).0.stage() is None,
        !before.step(EventView::Account(data)).1.mutates(),
        (decoded_account(data) matches Some(
            crate::account::LoaderState::ProgramData { authority: Some(found), .. },
        ) && found != before.authority) ==> before.step(EventView::Account(data)).1 == (
        ActionView::Abort {
            error: ProtocolError::AuthorityMismatch {
                expected: before.authority,
                found: decoded_account(data).unwrap()->ProgramData_authority.unwrap(),
            },
        }),
{
}

/// Writes go out in offset order, one at a time: whenever a write is outstanding, it is
/// the write of the piece that follows the confirmed ones, and it came after the
/// buffer's creation or the write before it was confirmed.
pub proof fn lemma_upgrade_writes_in_order(before: UpgradeView, event: EventView)
    requires
        before.valid(),
        before.step(event).0.phase is AwaitChunk,
        !(before.phase is AwaitChunk && before.step(event).0 == before),
    ensures
        event is Confirmed,
        before.phase is AwaitBufferCreation || before.phase is AwaitChunk,
        before.phase is AwaitBufferCreation ==> before.step(event) == before.after_writes(0),
        before.phase matches UpgradePhase::AwaitChunk { index } ==> before.step(event)
            == before.after_writes((index + 1) as nat),
{
}

/// The upgrade after `count` confirmations in a row.
pub open spec fn after_confirmations(start: UpgradeView, count: nat) -> UpgradeView
    decreases count,
{
    if count == 0 {
        start
    } else {
        after_confirmations(start, (count - 1) as nat).step(EventView::Confirmed).0
    }
}

/// An upload takes exactly one write for each piece: after the buffer's creation and
/// `done` writes are confirmed, the write of piece `done` is outstanding, and when no
/// piece is left the swap is. An empty payload takes no write.
pub proof fn lemma_upgrade_one_write_per_piece(start: UpgradeView, done: nat)
    requires
        start.valid(),
        start.phase is AwaitBufferCreation,
        done <= write_count(start.payload.len()),
    ensures
        after_confirmations(start, done).step(EventView::Confirmed) == start.after_writes(done),
        after_confirmations(start, done + 1) == start.after_writes(done).0,
        done < write_count(start.payload.len()) ==> after_confirmations(start, done + 1).phase
            == (UpgradePhase::AwaitChunk { index: done as usize }),
        done == write_count(start.payload.len()) ==> after_confirmations(start, done + 1).phase
            == UpgradePhase::AwaitSwap,
    decreases done,
{
    crate::chunking::lemma_chunk_count_bounds(start.payload.len(), crate::chunking::CHUNK_SIZE as nat);
    reveal_with_fuel(after_confirmations, 2);
    if done > 0 {
        lemma_upgrade_one_write_per_piece(start, (done - 1) as nat);
        let previous = after_confirmations(start, done);
        assert(previous == start.after_writes((done - 1) as nat).0);
        assert(previous.phase == UpgradePhase::AwaitChunk { index: (done - 1) as usize });
        assert(previous.step(EventView::Confirmed) == previous.after_writes(done));
        assert(previous.after_writes(done) == start.after_writes(done));
    }
}

/// How an upgrade starts. It is turned away where no program is on record, where the
/// newest record's identifier is no address, where the payload is too long to address,
/// and where the program has no program-data address; otherwise the controller's balance
/// is asked for.
pub open spec fn upgrade_start(
    state: ProjectStateView,
    authority: Address,
    buffer: Address,
    payload: Seq<u8>,
) -> Result<(UpgradeView, ActionView), ProtocolError> {
    match latest_program_id(state) {
        None => Err(ProtocolError::NoDeployedProgram),
        Some(text) => match parsed_program(text) {
            None => Err(ProtocolError::InvalidProgramId),
            Some(program) => if payload.len() > MAX_PAYLOAD_LEN {
                Err(ProtocolError::PayloadTooLarge)
            } else {
                match program_data_address(program) {
                    None => Err(ProtocolError::NoProgramDataAddress),
                    Some(program_data) => Ok(
                        (
                            UpgradeView {
                                authority,
                                program,
                                program_data,
                                buffer,
                                payload,
                                balance: 0,
                                phase: UpgradePhase::AwaitBalance,
                            },
                            ActionView::QueryBalance { owner: authority },
                        ),
                    ),
                }
            },
        },
    }
}

impl View for Upgrade {
    type V = UpgradeView;

    closed spec fn view(&self) -> UpgradeView {
        UpgradeView {
            authority: self.authority,
            program: self.program,
            program_data: self.program_data,
            buffer: self.buffer,
            payload: self.payload@,
            balance: self.balance,
            phase: self.phase,
        }
    }
}

impl Upgrade {
    #[verifier::type_invariant]
    spec fn well_formed(self) -> bool {
        self@.valid()
    }

    /// Starts the upgrade of the newest program on record to `payload`, signed by
    /// `authority` and staged in the fresh account at `buffer`.
    pub fn begin(state: &ProjectState, authority: Address, buffer: Address, payload: Vec<u8>) -> (r:
        Result<(Upgrade, Action), ProtocolError>)
        ensures
            match r {
                Ok(started) => upgrade_start(state@, authority, buffer, payload@) == Ok::<
                    (UpgradeView, ActionView),
                    ProtocolError,
                >((started.0@, started.1@)) && started.0@.valid(),
                Err(error) => upgrade_start(state@, authority, buffer, payload@) == Err::<
                    (UpgradeView, ActionView),
                    ProtocolError,
                >(error),
            },
    {
        let text = match state.latest_program_id() {
            None => { return Err(ProtocolError::NoDeployedProgram); },
            Some(text) => text,
        };
        let program = match Address::parse(text.as_str()) {
            None => { return Err(ProtocolError::InvalidProgramId); },
            Some(program) => program,
        };
        if payload.len() > MAX_PAYLOAD_LEN {
            return Err(ProtocolError::PayloadTooLarge);
        }
        let program_data = match program.program_data() {
            None => { return Err(ProtocolError::NoProgramDataAddress); },
            Some(program_data) => program_data,
        };
        let upgrade = Upgrade {
            authority,
            program,
            program_data,
            buffer,
            payload,
            balance: 0,
            phase: UpgradePhase::AwaitBalance,
        };
        Ok((upgrade, Action::QueryBalance { owner: authority }))
    }

    /// Stops the upgrade.
    fn stop(self, error: ProtocolError) -> (r: (Upgrade, Action))
        ensures
            (r.0@, r.1@) == self@.stopped(error),
    {
        proof {
            use_type_invariant(&self);
        }
        (Upgrade { phase: UpgradePhase::Failed { error }, ..self }, Action::Abort { error })
    }

    /// Stops the upgrade on an event that is not the answer hoped for.
    fn reject(self, event: &Event) -> (r: (Upgrade, Action))
        ensures
            (r.0@, r.1@) == self@.rejected(event@),
    {
        proof {
            use_type_invariant(&self);
        }
        let pending = match self.phase {
            UpgradePhase::AwaitBalance => Step::QueryBalance,
            UpgradePhase::AwaitAuthority => Step::FetchAccount,
            UpgradePhase::AwaitBufferCreation => Step::CreateBuffer,
            UpgradePhase::AwaitChunk { index } => Step::WriteChunk {
                number: index + 1,
                total: count_writes(self.payload.len()),
            },
            UpgradePhase::AwaitSwap => Step::Swap,
            _ => Step::QueryRent,
        };
        match event {
            Event::Failed => self.stop(ProtocolError::TransactionFailed { step: pending }),
            _ => self.stop(ProtocolError::UnexpectedEvent),
        }
    }

    /// Goes on once `done` writes are confirmed.
    fn proceed(self, done: usize) -> (r: (Upgrade, Action))
        requires
            done <= write_count(self@.payload.len()),
        ensures
            (r.0@, r.1@) == self@.after_writes(done as nat),
    {
        proof {
            use_type_invariant(&self);
        }
        if done < count_writes(self.payload.len()) {
            let action = write_chunk(&self.authority, &self.buffer, self.payload.as_slice(), done);
            (Upgrade { phase: UpgradePhase::AwaitChunk { index: done }, ..self }, action)
        } else {
            let instruction = loader_upgrade(
                &self.program,
                &self.buffer,
                &self.authority,
                &self.authority,
            );
            let action = submit_signed_by(instruction, self.authority, Step::Swap);
            (Upgrade { phase: UpgradePhase::AwaitSwap, ..self }, action)
        }
    }

    /// Takes the event that answers the outstanding request, and says what to do next.
    /// Once the upgrade is swapped in or has failed, every event gets the same answer.
    pub fn step(self, event: Event) -> (r: (Upgrade, Action))
        ensures
            (r.0@, r.1@) == self@.step(event@),
            self@.valid(),
            r.0@.valid(),
    {
        proof {
            use_type_invariant(&self);
        }
        let r = match self.phase {
            UpgradePhase::Swapped => (self, Action::Complete),
            UpgradePhase::Failed { error } => (self, Action::Abort { error }),
            UpgradePhase::AwaitBalance => match event {
                Event::Balance(balance) => {
                    if balance < MIN_UPGRADE_BALANCE {
                        self.stop(
                            ProtocolError::InsufficientBalance {
                                balance,
                                required: MIN_UPGRADE_BALANCE,
                            },
                        )
                    } else {
                        let address = self.program_data;
                        (
                            Upgrade { balance, phase: UpgradePhase::AwaitAuthority, ..self },
                            Action::FetchAccount { address },
                        )
                    }
                },
                _ => self.reject(&event),
            },
            UpgradePhase::AwaitAuthority => match event {
                Event::Account(data) => match verify_authority(data.as_slice(), &self.authority) {
                    Ok(_) => {
                        let action = query_buffer_rent(self.payload.len());
                        (Upgrade { phase: UpgradePhase::AwaitBufferRent, ..self }, action)
                    },
                    Err(error) => self.stop(error),
                },
                _ => self.reject(&event),
            },
            UpgradePhase::AwaitBufferRent => match event {
                Event::Rent(lamports) => {
                    let action = create_buffer(
                        &self.authority,
                        &self.buffer,
                        self.payload.len(),
                        lamports,
                    );
                    (Upgrade { phase: UpgradePhase::AwaitBufferCreation, ..self }, action)
                },
                _ => self.reject(&event),
            },
            UpgradePhase::AwaitBufferCreation => match event {
                Event::Confirmed => self.proceed(0),
                _ => self.reject(&event),
            },
            UpgradePhase::AwaitChunk { index } => match event {
                Event::Confirmed => self.proceed(index + 1),
                _ => self.reject(&event),
            },
            UpgradePhase::AwaitSwap => match event {
                Event::Confirmed => (
                    Upgrade { phase: UpgradePhase::Swapped, ..self },
                    Action::Complete,
                ),
                _ => self.reject(&event),
            },
        };
        proof {
            use_type_invariant(&r.0);
        }
        r
    }

    /// Where the upgrade stands.
    pub fn phase(&self) -> (r: UpgradePhase)
        ensures
            r == self@.phase,
    {
        self.phase
    }

    /// How far the upgrade has come on the ledger.
    pub fn stage(&self) -> (r: Option<UpgradeStage>)
        ensures
            r == self@.stage(),
    {
        match self.phase {
            UpgradePhase::AwaitBufferRent => Some(UpgradeStage::AuthorityVerified),
            UpgradePhase::AwaitBufferCreation => Some(UpgradeStage::AuthorityVerified),
            UpgradePhase::AwaitChunk { index: _ } => Some(UpgradeStage::BufferCreated),
            UpgradePhase::AwaitSwap => Some(UpgradeStage::DataWritten),
            UpgradePhase::Swapped => Some(UpgradeStage::Swapped),
            _ => None,
        }
    }

    /// The program that is upgraded.
    pub fn program(&self) -> (r: Address)
        ensures
            r == self@.program,
    {
        self.program
    }

    /// The controller's balance as the ledger reported it; zero before that.
    pub fn balance(&self) -> (r: u64)
        ensures
            r == self@.balance,
    {
        self.balance
    }

    /// Stamps the newest program on record as upgraded at `upgraded_at`, if and only if
    /// the ledger has confirmed the swap and a program is on record. Otherwise the
    /// record stays as it is.
    pub fn record(&self, state: &mut ProjectState, upgraded_at: i64) -> (recorded: bool)
        ensures
            recorded == (self@.phase is Swapped && old(state)@.deployed_programs.len() > 0),
            recorded ==> final(state)@ == old(state)@.with_upgrade(upgraded_at, self@.balance),
            !recorded ==> final(state)@ == old(state)@,
            old(state)@.kept_by(final(state)@),
    {
        match self.phase {
            UpgradePhase::Swapped => state.record_upgrade(upgraded_at, self.balance).is_ok(),
            _ => false,
        }
    }

    /// Stamps the newest program on record as upgraded at the time of the call, if and
    /// only if the ledger has confirmed the swap and a program is on record.
    pub fn record_now(&self, state: &mut ProjectState) -> (recorded: bool)
        ensures
            recorded == (self@.phase is Swapped && old(state)@.deployed_programs.len() > 0),
            recorded ==> exists|upgraded_at: i64|
                final(state)@ == #[trigger] old(state)@.with_upgrade(upgraded_at, self@.balance),
            !recorded ==> final(state)@ == old(state)@,
            old(state)@.kept_by(final(state)@),
    {
        let now = unix_timestamp();
        self.record(state, now)
    }
}

} // verus!
