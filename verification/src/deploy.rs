//! First deployment of a program.
//!
//! A deployment passes through four stages, each reached only when the ledger has
//! confirmed the one before: nothing of the program exists; its buffer account exists;
//! the whole payload is written to the buffer; the program is activated, with the
//! deploying controller as its authority. The balance is checked once, before anything
//! is spent. A failure stops the deployment where it is; what was done on the ledger
//! stays.

use crate::account::{program_data_size, program_data_size_of};
use crate::address::{address_text, program_data_of, Address};
use crate::clock::unix_timestamp;
use crate::config::ProjectState;
use crate::error::{ProtocolError, Step};
use crate::instruction::{loader_deploy, program_activation};
use crate::protocol::{submit_signed_by_two, Action, ActionView, Event, EventView};
use crate::upload::{
    buffer_creation, buffer_rent_query, chunk_submission, count_writes, create_buffer,
    query_buffer_rent, write_chunk, write_count, MAX_PAYLOAD_LEN,
};
use vstd::prelude::*;

verus! {

/// Smallest controller balance, in lamports, with which a deployment is started: enough
/// for the rent of a whole program.
pub const MIN_DEPLOY_BALANCE: u64 = 5_000_000_000;

/// How far a deployment has come on the ledger.
#[derive(Clone, Copy, Debug, PartialEq, Eq)]
pub enum DeployStage {
    /// Nothing of the program exists.
    NoProgram,
    /// The buffer account exists.
    BufferCreated,
    /// The whole payload is in the buffer.
    DataWritten,
    /// The program is executable.
    Activated,
}

/// Where a deployment stands: the request that is outstanding, or how it ended.
#[derive(Clone, Copy, Debug, PartialEq, Eq)]
pub enum DeployPhase {
    /// The controller's balance was asked for.
    AwaitBalance,
    /// The buffer's rent was asked for.
    AwaitBufferRent,
    /// The buffer's creation was submitted.
    AwaitBufferCreation,
    /// The write of piece `index` was submitted; all pieces before it are confirmed.
    AwaitChunk { index: usize },
    /// The program's rent was asked for.
    AwaitProgramRent,
    /// The activation was submitted.
    AwaitActivation,
    /// The ledger has confirmed the activation.
    Activated,
    /// The deployment has stopped.
    Failed { error: ProtocolError },
}

/// A first deployment in progress.
#[derive(Debug)]
pub struct Deployment {
    payer: Address,
    program: Address,
    buffer: Address,
    payload: Vec<u8>,
    balance: u64,
    phase: DeployPhase,
}

/// What a deployment holds.
pub ghost struct DeploymentView {
    /// The controller: it pays, it signs, and it becomes the program's authority.
    pub payer: Address,
    /// The program's own address, fixed for good.
    pub program: Address,
    /// The staging account.
    pub buffer: Address,
    /// The program's code.
    pub payload: Seq<u8>,
    /// The controller's balance as the ledger reported it; zero before that.
    pub balance: u64,
    pub phase: DeployPhase,
}

/// Room reserved for the program's code: twice the payload's length, so that a later
/// upgrade may be longer, held at the largest size there is.
pub open spec fn reserved_len(len: nat) -> usize {
    if 2 * len <= usize::MAX {
        (2 * len) as usize
    } else {
        usize::MAX
    }
}

impl DeploymentView {
    /// What holds of every deployment: the payload can be addressed by write offsets,
    /// the program has a program-data address, and a write that is outstanding is one of
    /// the payload's pieces.
    pub open spec fn valid(self) -> bool {
        &&& self.payload.len() <= MAX_PAYLOAD_LEN
        &&& program_data_of(self.program@) is Some
        &&& (self.phase matches DeployPhase::AwaitChunk { index } ==> index < write_count(
            self.payload.len(),
        ))
    }

    /// How far the deployment has come, while it has not failed.
    pub open spec fn stage(self) -> Option<DeployStage> {
        match self.phase {
            DeployPhase::AwaitBalance => Some(DeployStage::NoProgram),
            DeployPhase::AwaitBufferRent => Some(DeployStage::NoProgram),
            DeployPhase::AwaitBufferCreation => Some(DeployStage::NoProgram),
            DeployPhase::AwaitChunk { index } => Some(DeployStage::BufferCreated),
            DeployPhase::AwaitProgramRent => Some(DeployStage::DataWritten),
            DeployPhase::AwaitActivation => Some(DeployStage::DataWritten),
            DeployPhase::Activated => Some(DeployStage::Activated),
            DeployPhase::Failed { error } => None,
        }
    }

    /// Number of writes that are confirmed once the outstanding request is: none while
    /// the buffer is being created, one more than before while a write is outstanding.
    pub open spec fn confirmed_writes_after(self) -> nat {
        match self.phase {
            DeployPhase::AwaitChunk { index } => (index + 1) as nat,
            _ => 0,
        }
    }

    /// The same deployment in another phase.
    pub open spec fn at(self, phase: DeployPhase) -> DeploymentView {
        DeploymentView { phase, ..self }
    }

    /// The deployment stopped by `error`.
    pub open spec fn stopped(self, error: ProtocolError) -> (DeploymentView, ActionView) {
        (self.at(DeployPhase::Failed { error }), ActionView::Abort { error })
    }

    /// The request that is outstanding.
    pub open spec fn pending(self) -> Step {
        match self.phase {
            DeployPhase::AwaitBalance => Step::QueryBalance,
            DeployPhase::AwaitBufferCreation => Step::CreateBuffer,
            DeployPhase::AwaitChunk { index } => Step::WriteChunk {
                number: (index + 1) as usize,
                total: write_count(self.payload.len()) as usize,
            },
            DeployPhase::AwaitActivation => Step::Activate,
            _ => Step::QueryRent,
        }
    }

    /// What follows an event that is not the answer hoped for: a failure of the
    /// outstanding request stops the deployment at that step, anything else stops it as
    /// out of turn.
    pub open spec fn rejected(self, event: EventView) -> (DeploymentView, ActionView) {
        if event is Failed {
            self.stopped(ProtocolError::TransactionFailed { step: self.pending() })
        } else {
            self.stopped(ProtocolError::UnexpectedEvent)
        }
    }

    /// What follows once `done` writes are confirmed: the write of the next piece, at
    /// its offset, or, when no piece is left, the query for the program's rent.
    pub open spec fn after_writes(self, done: nat) -> (DeploymentView, ActionView) {
        if done < write_count(self.payload.len()) {
            (
                self.at(DeployPhase::AwaitChunk { index: done as usize }),
                chunk_submission(self.payer, self.buffer, self.payload, done),
            )
        } else {
            (
                self.at(DeployPhase::AwaitProgramRent),
                ActionView::QueryRent { size: program_data_size_of(self.payload.len()) as usize },
            )
        }
    }

    /// The activation: one transaction that creates the program, makes it executable
    /// from the buffer with room for twice the payload, and sets the payer as its
    /// authority; signed by the payer and by the program's own key.
    pub open spec fn activation(self, lamports: u64) -> (DeploymentView, ActionView) {
        match program_activation(
            self.payer@,
            self.program@,
            self.buffer@,
            self.payer@,
            lamports,
            reserved_len(self.payload.len()),
        ) {
            Some(instructions) => (
                self.at(DeployPhase::AwaitActivation),
                ActionView::Submit {
                    instructions,
                    signers: seq![self.payer, self.program],
                    step: Step::Activate,
                },
            ),
            None => self.stopped(ProtocolError::ActivationUnavailable),
        }
    }

    /// The deployment after `event`, and the action that it asks for next.
    pub open spec fn step(self, event: EventView) -> (DeploymentView, ActionView) {
        match self.phase {
            DeployPhase::Activated => (self, ActionView::Complete),
            DeployPhase::Failed { error } => (self, ActionView::Abort { error }),
            DeployPhase::AwaitBalance => match event {
                EventView::Balance(balance) => if balance < MIN_DEPLOY_BALANCE {
                    self.stopped(
                        ProtocolError::InsufficientBalance { balance, required: MIN_DEPLOY_BALANCE },
                    )
                } else {
                    (
                        DeploymentView { balance, phase: DeployPhase::AwaitBufferRent, ..self },
                        buffer_rent_query(self.payload.len()),
                    )
                },
                _ => self.rejected(event),
            },
            DeployPhase::AwaitBufferRent => match event {
                EventView::Rent(lamports) => (
                    self.at(DeployPhase::AwaitBufferCreation),
                    buffer_creation(self.payer, self.buffer, self.payload.len(), lamports),
                ),
                _ => self.rejected(event),
            },
            DeployPhase::AwaitBufferCreation => match event {
                EventView::Confirmed => self.after_writes(0),
                _ => self.rejected(event),
            },
            DeployPhase::AwaitChunk { index } => match event {
                EventView::Confirmed => self.after_writes((index + 1) as nat),
                _ => self.rejected(event),
            },
            DeployPhase::AwaitProgramRent => match event {
                EventView::Rent(lamports) => self.activation(lamports),
                _ => self.rejected(event),
            },
            DeployPhase::AwaitActivation => match event {
                EventView::Confirmed => (self.at(DeployPhase::Activated), ActionView::Complete),
                _ => self.rejected(event),
            },
        }
    }
}

/// How many stages a deployment has behind it.
pub open spec fn stage_rank(stage: DeployStage) -> nat {
    match stage {
        DeployStage::NoProgram => 0,
        DeployStage::BufferCreated => 1,
        DeployStage::DataWritten => 2,
        DeployStage::Activated => 3,
    }
}

/// The deployment after `count` confirmations in a row.
pub open spec fn after_confirmations(start: DeploymentView, count: nat) -> DeploymentView
    decreases count,
{
    if count == 0 {
        start
    } else {
        after_confirmations(start, (count - 1) as nat).step(EventView::Confirmed).0
    }
}

/// A step keeps a deployment valid.
pub proof fn lemma_deploy_step_valid(before: DeploymentView, event: EventView)
    requires
        before.valid(),
    ensures
        before.step(event).0.valid(),
        before.step(event).0.payload == before.payload,
        before.step(event).0.program == before.program,
        before.step(event).0.payer == before.payer,
        before.step(event).0.buffer == before.buffer,
{
}

/// A deployment never goes back: after a step it has failed, or it is at the stage it
/// was at, or at the next one. Only an empty payload, which needs no write, is written
/// as soon as its buffer exists.
pub proof fn lemma_deploy_stages_in_order(before: DeploymentView, event: EventView)
    requires
        before.valid(),
    ensures
        before.step(event).0.phase is Failed || ({
            let earlier = stage_rank(before.stage().unwrap());
            let later = stage_rank(before.step(event).0.stage().unwrap());
            later == earlier || later == earlier + 1 || (before.payload.len() == 0 && earlier == 0
                && later == 2)
        }),
        before.phase is Failed ==> before.step(event).0 == before,
        before.phase is Activated ==> before.step(event).0 == before,
{
    crate::chunking::lemma_chunk_count_bounds(before.payload.len(), crate::chunking::CHUNK_SIZE as nat);
}

/// Writes go out in offset order, one at a time: whenever a write is outstanding, it is
/// the write of the piece that follows the confirmed ones, it was asked for by the step
/// that led there, and it came after the buffer's creation or the write before it was
/// confirmed.
pub proof fn lemma_deploy_writes_in_order(before: DeploymentView, event: EventView)
    requires
        before.valid(),
        before.step(event).0.phase is AwaitChunk,
        !(before.phase is AwaitChunk && before.step(event).0 == before),
    ensures
        event is Confirmed,
        before.step(event).0.phase == (DeployPhase::AwaitChunk {
            index: before.confirmed_writes_after() as usize,
        }),
        before.step(event).1 == chunk_submission(
            before.payer,
            before.buffer,
            before.payload,
            before.confirmed_writes_after(),
        ),
        before.phase is AwaitBufferCreation || before.phase is AwaitChunk,
{
}

/// Nothing is spent before the balance is known to suffice, and nothing after a failure
/// or after the activation: a step from such a phase submits no transaction.
pub proof fn lemma_deploy_spends_only_when_funded(before: DeploymentView, event: EventView)
    requires
        before.phase is AwaitBalance || before.phase is Failed || before.phase is Activated,
    ensures
        !before.step(event).1.mutates(),
        before.phase is AwaitBalance && (event matches EventView::Balance(balance) && balance
            < MIN_DEPLOY_BALANCE) ==> before.step(event).0.phase is Failed,
{
}

/// An upload takes exactly one write for each piece: after the buffer's creation and
/// `done` writes are confirmed, the write of piece `done` is outstanding, and when no
/// piece is left the program's rent is asked for. An empty payload takes no write.
pub proof fn lemma_deploy_one_write_per_piece(start: DeploymentView, done: nat)
    requires
        start.valid(),
        start.phase is AwaitBufferCreation,
        done <= write_count(start.payload.len()),
    ensures
        after_confirmations(start, done + 1) == start.after_writes(done).0,
        after_confirmations(start, done).step(EventView::Confirmed) == start.after_writes(done),
        done < write_count(start.payload.len()) ==> after_confirmations(start, done + 1).phase
            == (DeployPhase::AwaitChunk { index: done as usize }),
        done == write_count(start.payload.len()) ==> after_confirmations(start, done + 1).phase
            == DeployPhase::AwaitProgramRent,
    decreases done,
{
    crate::chunking::lemma_chunk_count_bounds(start.payload.len(), crate::chunking::CHUNK_SIZE as nat);
    reveal_with_fuel(after_confirmations, 2);
    if done > 0 {
        lemma_deploy_one_write_per_piece(start, (done - 1) as nat);
        let previous = after_confirmations(start, done);
        assert(previous == start.after_writes((done - 1) as nat).0);
        assert(previous.phase == DeployPhase::AwaitChunk { index: (done - 1) as usize });
        assert(previous.step(EventView::Confirmed) == previous.after_writes(done));
        assert(previous.after_writes(done) == start.after_writes(done));
    }
}

/// How a deployment starts: a payload too long to address and a program without a
/// program-data address are turned away; otherwise the controller's balance is asked
/// for.
pub open spec fn deployment_start(
    payer: Address,
    program: Address,
    buffer: Address,
    payload: Seq<u8>,
) -> Result<(DeploymentView, ActionView), ProtocolError> {
    if payload.len() > MAX_PAYLOAD_LEN {
        Err(ProtocolError::PayloadTooLarge)
    } else if program_data_of(program@) is None {
        Err(ProtocolError::NoProgramDataAddress)
    } else {
        Ok(
            (
                DeploymentView {
                    payer,
                    program,
                    buffer,
                    payload,
                    balance: 0,
                    phase: DeployPhase::AwaitBalance,
                },
                ActionView::QueryBalance { owner: payer },
            ),
        )
    }
}

impl View for Deployment {
    type V = DeploymentView;

    closed spec fn view(&self) -> DeploymentView {
        DeploymentView {
            payer: self.payer,
            program: self.program,
            buffer: self.buffer,
            payload: self.payload@,
            balance: self.balance,
            phase: self.phase,
        }
    }
}

impl Deployment {
    #[verifier::type_invariant]
    spec fn well_formed(self) -> bool {
        self@.valid()
    }

    /// Starts the deployment of `payload` as the program at `program`, paid and later
    /// controlled by `payer`, staged in the fresh account at `buffer`.
    pub fn begin(payer: Address, program: Address, buffer: Address, payload: Vec<u8>) -> (r:
        Result<(Deployment, Action), ProtocolError>)
        ensures
            match r {
                Ok(started) => deployment_start(payer, program, buffer, payload@) == Ok::<
                    (DeploymentView, ActionView),
                    ProtocolError,
                >((started.0@, started.1@)) && started.0@.valid(),
                Err(error) => deployment_start(payer, program, buffer, payload@) == Err::<
                    (DeploymentView, ActionView),
                    ProtocolError,
                >(error),
            },
    {
        if payload.len() > MAX_PAYLOAD_LEN {
            return Err(ProtocolError::PayloadTooLarge);
        }
        if program.program_data().is_none() {
            return Err(ProtocolError::NoProgramDataAddress);
        }
        let deployment = Deployment {
            payer,
            program,
            buffer,
            payload,
            balance: 0,
            phase: DeployPhase::AwaitBalance,
        };
        Ok((deployment, Action::QueryBalance { owner: payer }))
    }

    /// Stops the deployment.
    fn stop(self, error: ProtocolError) -> (r: (Deployment, Action))
        ensures
            (r.0@, r.1@) == self@.stopped(error),
    {
        proof {
            use_type_invariant(&self);
        }
        (Deployment { phase: DeployPhase::Failed { error }, ..self }, Action::Abort { error })
    }

    /// Stops the deployment on an event that is not the answer hoped for.
    fn reject(self, event: &Event) -> (r: (Deployment, Action))
        ensures
            (r.0@, r.1@) == self@.rejected(event@),
    {
        proof {
            use_type_invariant(&self);
        }
        let pending = match self.phase {
            DeployPhase::AwaitBalance => Step::QueryBalance,
            DeployPhase::AwaitBufferCreation => Step::CreateBuffer,
            DeployPhase::AwaitChunk { index } => Step::WriteChunk {
                number: index + 1,
                total: count_writes(self.payload.len()),
            },
            DeployPhase::AwaitActivation => Step::Activate,
            _ => Step::QueryRent,
        };
        match event {
            Event::Failed => self.stop(ProtocolError::TransactionFailed { step: pending }),
            _ => self.stop(ProtocolError::UnexpectedEvent),
        }
    }

    /// Goes on once `done` writes are confirmed.
    fn proceed(self, done: usize) -> (r: (Deployment, Action))
        requires
            done <= write_count(self@.payload.len()),
        ensures
            (r.0@, r.1@) == self@.after_writes(done as nat),
    {
        proof {
            use_type_invariant(&self);
        }
        if done < count_writes(self.payload.len()) {
            let action = write_chunk(&self.payer, &self.buffer, self.payload.as_slice(), done);
            (Deployment { phase: DeployPhase::AwaitChunk { index: done }, ..self }, action)
        } else {
            let size = program_data_size(self.payload.len());
            (
                Deployment { phase: DeployPhase::AwaitProgramRent, ..self },
                Action::QueryRent { size },
            )
        }
    }

    /// Builds the activation.
    fn activate(self, lamports: u64) -> (r: (Deployment, Action))
        ensures
            (r.0@, r.1@) == self@.activation(lamports),
    {
        proof {
            use_type_invariant(&self);
        }
        let len = self.payload.len();
        let room = if len <= usize::MAX / 2 {
            len * 2
        } else {
            usize::MAX
        };
        match loader_deploy(&self.payer, &self.program, &self.buffer, &self.payer, lamports, room) {
            Some(instructions) => {
                let action = submit_signed_by_two(
                    instructions,
                    self.payer,
                    self.program,
                    Step::Activate,
                );
                (Deployment { phase: DeployPhase::AwaitActivation, ..self }, action)
            },
            None => self.stop(ProtocolError::ActivationUnavailable),
        }
    }

    /// Takes the event that answers the outstanding request, and says what to do next.
    /// Once the deployment is activated or has failed, every event gets the same answer.
    pub fn step(self, event: Event) -> (r: (Deployment, Action))
        ensures
            (r.0@, r.1@) == self@.step(event@),
            self@.valid(),
            r.0@.valid(),
    {
        proof {
            use_type_invariant(&self);
        }
        let r = match self.phase {
            DeployPhase::Activated => (self, Action::Complete),
            DeployPhase::Failed { error } => (self, Action::Abort { error }),
            DeployPhase::AwaitBalance => match event {
                Event::Balance(balance) => {
                    if balance < MIN_DEPLOY_BALANCE {
                        self.stop(
                            ProtocolError::InsufficientBalance {
                                balance,
                                required: MIN_DEPLOY_BALANCE,
                            },
                        )
                    } else {
                        let action = query_buffer_rent(self.payload.len());
                        (
                            Deployment { balance, phase: DeployPhase::AwaitBufferRent, ..self },
                            action,
                        )
                    }
                },
                _ => self.reject(&event),
            },
            DeployPhase::AwaitBufferRent => match event {
                Event::Rent(lamports) => {
                    let action = create_buffer(
                        &self.payer,
                        &self.buffer,
                        self.payload.len(),
                        lamports,
                    );
                    (Deployment { phase: DeployPhase::AwaitBufferCreation, ..self }, action)
                },
                _ => self.reject(&event),
            },
            DeployPhase::AwaitBufferCreation => match event {
                Event::Confirmed => self.proceed(0),
                _ => self.reject(&event),
            },
            DeployPhase::AwaitChunk { index } => match event {
                Event::Confirmed => self.proceed(index + 1),
                _ => self.reject(&event),
            },
            DeployPhase::AwaitProgramRent => match event {
                Event::Rent(lamports) => self.activate(lamports),
                _ => self.reject(&event),
            },
            DeployPhase::AwaitActivation => match event {
                Event::Confirmed => (
                    Deployment { phase: DeployPhase::Activated, ..self },
                    Action::Complete,
                ),
                _ => self.reject(&event),
            },
        };
        proof {
            use_type_invariant(&r.0);
        }
        r
    }

    /// Where the deployment stands.
    pub fn phase(&self) -> (r: DeployPhase)
        ensures
            r == self@.phase,
    {
        self.phase
    }

    /// How far the deployment has come on the ledger; `None` once it has failed.
    pub fn stage(&self) -> (r: Option<DeployStage>)
        ensures
            r == self@.stage(),
    {
        match self.phase {
            DeployPhase::AwaitBalance => Some(DeployStage::NoProgram),
            DeployPhase::AwaitBufferRent => Some(DeployStage::NoProgram),
            DeployPhase::AwaitBufferCreation => Some(DeployStage::NoProgram),
            DeployPhase::AwaitChunk { index: _ } => Some(DeployStage::BufferCreated),
            DeployPhase::AwaitProgramRent => Some(DeployStage::DataWritten),
            DeployPhase::AwaitActivation => Some(DeployStage::DataWritten),
            DeployPhase::Activated => Some(DeployStage::Activated),
            DeployPhase::Failed { error: _ } => None,
        }
    }

    /// The program's address.
    pub fn program(&self) -> (r: Address)
        ensures
            r == self@.program,
    {
        self.program
    }

    /// The controller's balance as the ledger reported it; zero before that.
    pub fn balance(&self) -> (r: u64)
        ensures
            r == self@.balance,
    {
        self.balance
    }

    /// Enters the program into the local record, stamped `deployed_at`, if and only if
    /// the ledger has confirmed its activation. Otherwise the record stays as it is.
    pub fn record(&self, state: &mut ProjectState, deployed_at: i64) -> (recorded: bool)
        ensures
            recorded == (self@.phase is Activated),
            recorded ==> final(state)@ == old(state)@.with_deployment(
                address_text(self@.program@),
                deployed_at,
                self@.balance,
            ),
            !recorded ==> final(state)@ == old(state)@,
            old(state)@.kept_by(final(state)@),
    {
        match self.phase {
            DeployPhase::Activated => {
                state.record_deployment(self.program.to_text(), deployed_at, self.balance);
                true
            },
            _ => false,
        }
    }

    /// Enters the program into the local record, stamped with the time of the call, if
    /// and only if the ledger has confirmed its activation.
    pub fn record_now(&self, state: &mut ProjectState) -> (recorded: bool)
        ensures
            recorded == (self@.phase is Activated),
            recorded ==> exists|deployed_at: i64|
                final(state)@ == #[trigger] old(state)@.with_deployment(
                    address_text(self@.program@),
                    deployed_at,
                    self@.balance,
                ),
            !recorded ==> final(state)@ == old(state)@,
            old(state)@.kept_by(final(state)@),
    {
        let now = unix_timestamp();
        self.record(state, now)
    }
}

} // verus!
