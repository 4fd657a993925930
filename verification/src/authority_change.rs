//! Handing a program's authority to another key, or clearing it for good.
//!
//! Both start with the check that the caller is the program's authority. A transfer then
//! sets the new authority and is done when the ledger confirms. A finalization clears the
//! authority, which cannot be undone, and so does not trust the confirmation alone: it
//! reads the account again and fails loudly if an authority is still there.

use crate::account::{
    authority_verdict, decoded_account, immutability_verdict, verify_authority, verify_immutable,
};
use crate::address::{parsed_program, program_data_address, Address};
use crate::error::{ProtocolError, Step};
use crate::instruction::{authority_change, loader_set_authority};
use crate::protocol::{single_submission, submit_signed_by, Action, ActionView, Event, EventView};
use vstd::prelude::*;

verus! {

/// Where a change of authority stands: the request that is outstanding, or how it ended.
#[derive(Clone, Copy, Debug, PartialEq, Eq)]
pub enum ChangePhase {
    /// The program-data account was fetched, to check the authority.
    AwaitAuthority,
    /// The change was submitted.
    AwaitChange,
    /// After a finalization, the program-data account was fetched again.
    AwaitProof,
    /// The ledger has confirmed the change; after a finalization, the authority is seen
    /// to be gone.
    Done,
    /// The change has stopped.
    Failed { error: ProtocolError },
}

/// A transfer or a finalization in progress.
#[derive(Clone, Copy, Debug, PartialEq, Eq)]
pub struct AuthorityChange {
    authority: Address,
    program: Address,
    program_data: Address,
    replacement: Option<Address>,
    phase: ChangePhase,
}

/// What a change of authority holds.
pub ghost struct AuthorityChangeView {
    /// The authority that makes the change, and signs it.
    pub authority: Address,
    /// The program whose authority changes.
    pub program: Address,
    /// The account that holds the program's code and authority.
    pub program_data: Address,
    /// The authority to be; `None` for a finalization.
    pub replacement: Option<Address>,
    pub phase: ChangePhase,
}

impl AuthorityChangeView {
    /// What holds of every change: the program-data address is the program's, and only
    /// a finalization reads the account a second time.
    pub open spec fn valid(self) -> bool {
        &&& program_data_address(self.program) == Some(self.program_data)
        &&& (self.phase is AwaitProof ==> self.replacement is None)
    }

    /// The same change in another phase.
    pub open spec fn at(self, phase: ChangePhase) -> AuthorityChangeView {
        AuthorityChangeView { phase, ..self }
    }

    /// The change stopped by `error`.
    pub open spec fn stopped(self, error: ProtocolError) -> (AuthorityChangeView, ActionView) {
        (self.at(ChangePhase::Failed { error }), ActionView::Abort { error })
    }

    /// The request that is outstanding.
    pub open spec fn pending(self) -> Step {
        match self.phase {
            ChangePhase::AwaitChange => Step::SetAuthority,
            _ => Step::FetchAccount,
        }
    }

    /// What follows an event that is not the answer hoped for: a failure of the
    /// outstanding request stops the change at that step, anything else stops it as out
    /// of turn.
    pub open spec fn rejected(self, event: EventView) -> (AuthorityChangeView, ActionView) {
        if event is Failed {
            self.stopped(ProtocolError::TransactionFailed { step: self.pending() })
        } else {
            self.stopped(ProtocolError::UnexpectedEvent)
        }
    }

    /// The transaction that sets or clears the authority, signed by the present one.
    pub open spec fn submission(self) -> ActionView {
        single_submission(
            authority_change(
                self.program@,
                self.authority@,
                match self.replacement {
                    Some(next) => Some(next@),
                    None => None,
                },
            ),
            seq![self.authority],
            Step::SetAuthority,
        )
    }

    /// The change after `event`, and the action that it asks for next.
    pub open spec fn step(self, event: EventView) -> (AuthorityChangeView, ActionView) {
        match self.phase {
            ChangePhase::Done => (self, ActionView::Complete),
            ChangePhase::Failed { error } => (self, ActionView::Abort { error }),
            ChangePhase::AwaitAuthority => match event {
                EventView::Account(data) => match authority_verdict(
                    decoded_account(data),
                    self.authority,
                ) {
                    Ok(_) => (self.at(ChangePhase::AwaitChange), self.submission()),
                    Err(error) => self.stopped(error),
                },
                _ => self.rejected(event),
            },
            ChangePhase::AwaitChange => match event {
                EventView::Confirmed => if self.replacement is Some {
                    (self.at(ChangePhase::Done), ActionView::Complete)
                } else {
                    (
                        self.at(ChangePhase::AwaitProof),
                        ActionView::FetchAccount { address: self.program_data },
                    )
                },
                _ => self.rejected(event),
            },
            ChangePhase::AwaitProof => match event {
                EventView::Account(data) => match immutability_verdict(decoded_account(data)) {
                    Ok(_) => (self.at(ChangePhase::Done), ActionView::Complete),
                    Err(error) => self.stopped(error),
                },
                _ => self.rejected(event),
            },
        }
    }
}

/// A step keeps a change valid, and leaves what it works on as it is.
pub proof fn lemma_change_step_valid(before: AuthorityChangeView, event: EventView)
    requires
        before.valid(),
    ensures
        before.step(event).0.valid(),
        before.step(event).0.program == before.program,
        before.step(event).0.authority == before.authority,
        before.step(event).0.replacement == before.replacement,
{
}

/// The authority is changed only by the authority: a transaction is submitted only in
/// answer to an account that shows the caller as the program's authority.
pub proof fn lemma_change_needs_authority(before: AuthorityChangeView, event: EventView)
    requires
        before.step(event).1.mutates(),
    ensures
        before.phase is AwaitAuthority,
        event matches EventView::Account(data) && authority_verdict(
            decoded_account(data),
            before.authority,
        ) is Ok,
        before.step(event).1 == before.submission(),
{
}

/// A program that has no authority any more is turned away as immutable before anything
/// is submitted: a second finalization is an error, not a success.
pub proof fn lemma_finalize_rejects_immutable(before: AuthorityChangeView, data: Seq<u8>)
    requires
        before.phase is AwaitAuthority,
        decoded_account(data) matches Some(
            crate::account::LoaderState::ProgramData { authority: None, .. },
        ),
    ensures
        before.step(EventView::Account(data)) == before.stopped(ProtocolError::AlreadyImmutable),
        !before.step(EventView::Account(data)).1.mutates(),
        !(before.step(EventView::Account(data)).0.phase is Done),
{
}

/// A finalization is done only when a read after the change shows no authority; a
/// transfer is done when its transaction is confirmed.
pub proof fn lemma_change_is_done_when_seen(before: AuthorityChangeView, event: EventView)
    requires
        before.valid(),
        before.step(event).0.phase is Done,
        !(before.phase is Done),
    ensures
        before.replacement is None ==> before.phase is AwaitProof && (
        event matches EventView::Account(data) && decoded_account(data) matches Some(
            crate::account::LoaderState::ProgramData { authority: None, .. },
        )),
        before.replacement is Some ==> before.phase is AwaitChange && event is Confirmed,
{
}

/// A read after a finalization that still shows an authority stops the finalization
/// with an error that names the authority.
pub proof fn lemma_finalization_unconfirmed(before: AuthorityChangeView, data: Seq<u8>)
    requires
        before.phase is AwaitProof,
        decoded_account(data) matches Some(
            crate::account::LoaderState::ProgramData { authority: Some(found), .. },
        ),
    ensures
        before.step(EventView::Account(data)).1 == (ActionView::Abort {
            error: ProtocolError::FinalizationUnconfirmed {
                authority: decoded_account(data).unwrap()->ProgramData_authority.unwrap(),
            },
        }),
{
}

/// How a change of authority starts. It is turned away where the identifier is no
/// address and where the program has no program-data address; otherwise the
/// program-data account is fetched.
pub open spec fn change_start(
    authority: Address,
    program_id: Seq<char>,
    replacement: Option<Address>,
) -> Result<(AuthorityChangeView, ActionView), ProtocolError> {
    match parsed_program(program_id) {
        None => Err(ProtocolError::InvalidProgramId),
        Some(program) => match program_data_address(program) {
            None => Err(ProtocolError::NoProgramDataAddress),
            Some(program_data) => Ok(
                (
                    AuthorityChangeView {
                        authority,
                        program,
                        program_data,
                        replacement,
                        phase: ChangePhase::AwaitAuthority,
                    },
                    ActionView::FetchAccount { address: program_data },
                ),
            ),
        },
    }
}

impl View for AuthorityChange {
    type V = AuthorityChangeView;

    closed spec fn view(&self) -> AuthorityChangeView {
        AuthorityChangeView {
            authority: self.authority,
            program: self.program,
            program_data: self.program_data,
            replacement: self.replacement,
            phase: self.phase,
        }
    }
}

impl AuthorityChange {
    #[verifier::type_invariant]
    spec fn well_formed(self) -> bool {
        self@.valid()
    }

    /// Starts a change of the authority over the program named by `program_id`.
    fn begin(authority: Address, program_id: &str, replacement: Option<Address>) -> (r: Result<
        (AuthorityChange, Action),
        ProtocolError,
    >)
        ensures
            match r {
                Ok(started) => change_start(authority, program_id@, replacement) == Ok::<
                    (AuthorityChangeView, ActionView),
                    ProtocolError,
                >((started.0@, started.1@)) && started.0@.valid(),
                Err(error) => change_start(authority, program_id@, replacement) == Err::<
                    (AuthorityChangeView, ActionView),
                    ProtocolError,
                >(error),
            },
    {
        let program = match Address::parse(program_id) {
            None => { return Err(ProtocolError::InvalidProgramId); },
            Some(program) => program,
        };
        let program_data = match program.program_data() {
            None => { return Err(ProtocolError::NoProgramDataAddress); },
            Some(program_data) => program_data,
        };
        let change = AuthorityChange {
            authority,
            program,
            program_data,
            replacement,
            phase: ChangePhase::AwaitAuthority,
        };
        Ok((change, Action::FetchAccount { address: program_data }))
    }

    /// Starts the transfer of the authority over the program named by `program_id` from
    /// `authority` to `new_authority`.
    pub fn transfer(authority: Address, program_id: &str, new_authority: Address) -> (r: Result<
        (AuthorityChange, Action),
        ProtocolError,
    >)
        ensures
            match r {
                Ok(started) => change_start(authority, program_id@, Some(new_authority)) == Ok::<
                    (AuthorityChangeView, ActionView),
                    ProtocolError,
                >((started.0@, started.1@)) && started.0@.valid(),
                Err(error) => change_start(authority, program_id@, Some(new_authority)) == Err::<
                    (AuthorityChangeView, ActionView),
                    ProtocolError,
                >(error),
            },
    {
        AuthorityChange::begin(authority, program_id, Some(new_authority))
    }

    /// Starts the finalization of the program named by `program_id`, whose authority is
    /// `authority`: after it nobody can change the program again.
    pub fn finalize(authority: Address, program_id: &str) -> (r: Result<
        (AuthorityChange, Action),
        ProtocolError,
    >)
        ensures
            match r {
                Ok(started) => change_start(authority, program_id@, None) == Ok::<
                    (AuthorityChangeView, ActionView),
                    ProtocolError,
                >((started.0@, started.1@)) && started.0@.valid(),
                Err(error) => change_start(authority, program_id@, None) == Err::<
                    (AuthorityChangeView, ActionView),
                    ProtocolError,
                >(error),
            },
    {
        AuthorityChange::begin(authority, program_id, None)
    }

    /// Stops the change.
    fn stop(self, error: ProtocolError) -> (r: (AuthorityChange, Action))
        ensures
            (r.0@, r.1@) == self@.stopped(error),
    {
        proof {
            use_type_invariant(&self);
        }
        (AuthorityChange { phase: ChangePhase::Failed { error }, ..self }, Action::Abort { error })
    }

    /// Stops the change on an event that is not the answer hoped for.
    fn reject(self, event: &Event) -> (r: (AuthorityChange, Action))
        ensures
            (r.0@, r.1@) == self@.rejected(event@),
    {
        proof {
            use_type_invariant(&self);
        }
        let pending = match self.phase {
            ChangePhase::AwaitChange => Step::SetAuthority,
            _ => Step::FetchAccount,
        };
        match event {
            Event::Failed => self.stop(ProtocolError::TransactionFailed { step: pending }),
            _ => self.stop(ProtocolError::UnexpectedEvent),
        }
    }

    /// Takes the event that answers the outstanding request, and says what to do next.
    /// Once the change is done or has failed, every event gets the same answer.
    pub fn step(self, event: Event) -> (r: (AuthorityChange, Action))
        ensures
            (r.0@, r.1@) == self@.step(event@),
            self@.valid(),
            r.0@.valid(),
    {
        proof {
            use_type_invariant(&self);
        }
        let r = match self.phase {
            ChangePhase::Done => (self, Action::Complete),
            ChangePhase::Failed { error } => (self, Action::Abort { error }),
            ChangePhase::AwaitAuthority => match event {
                Event::Account(data) => match verify_authority(data.as_slice(), &self.authority) {
                    Ok(_) => {
                        let instruction = loader_set_authority(
                            &self.program,
                            &self.authority,
                            self.replacement.as_ref(),
                        );
                        let action = submit_signed_by(
                            instruction,
                            self.authority,
                            Step::SetAuthority,
                        );
                        (AuthorityChange { phase: ChangePhase::AwaitChange, ..self }, action)
                    },
                    Err(error) => self.stop(error),
                },
                _ => self.reject(&event),
            },
            ChangePhase::AwaitChange => match event {
                Event::Confirmed => {
                    if self.replacement.is_some() {
                        (AuthorityChange { phase: ChangePhase::Done, ..self }, Action::Complete)
                    } else {
                        (
                            AuthorityChange { phase: ChangePhase::AwaitProof, ..self },
                            Action::FetchAccount { address: self.program_data },
                        )
                    }
                },
                _ => self.reject(&event),
            },
            ChangePhase::AwaitProof => match event {
                Event::Account(data) => match verify_immutable(data.as_slice()) {
                    Ok(_) => (AuthorityChange { phase: ChangePhase::Done, ..self }, Action::Complete),
                    Err(error) => self.stop(error),
                },
                _ => self.reject(&event),
            },
        };
        proof {
            use_type_invariant(&r.0);
        }
        r
    }

    /// Where the change stands.
    pub fn phase(&self) -> (r: ChangePhase)
        ensures
            r == self@.phase,
    {
        self.phase
    }

    /// The program whose authority changes.
    pub fn program(&self) -> (r: Address)
        ensures
            r == self@.program,
    {
        self.program
    }
}

} // verus!
