//! Replacing the controlling keypair.
//!
//! A rotation goes through the programs on record, oldest first. For each it checks the
//! program's authority against the old key and, where the old key is the authority,
//! hands the authority to the new key in a transaction that the old key signs. A program
//! that the old key does not control any more, because its authority was moved or
//! cleared before, is passed over: nothing can be done for it with the old key, and this
//! is what lets a rotation that broke off be run again. The new key is adopted only when
//! every program has been dealt with. A rotation is not atomic: when it breaks off, the
//! programs before the break have the new authority and the old key stays in use.

use crate::account::{authority_verdict, decoded_account, verify_authority};
use crate::address::{parsed_program, program_data_address, Address};
use crate::config::text_views;
use crate::error::{ProtocolError, Step};
use crate::instruction::{authority_change, loader_set_authority};
use crate::protocol::{single_submission, submit_signed_by, Action, ActionView, Event, EventView};
use vstd::prelude::*;

verus! {

/// Where a rotation stands: the request that is outstanding, or how it ended.
#[derive(Clone, Copy, Debug, PartialEq, Eq)]
pub enum RotatePhase {
    /// The program-data account of the program in work was fetched.
    AwaitAuthority,
    /// The transfer for the program in work was submitted.
    AwaitTransfer,
    /// Every program has been dealt with: the new key is to be adopted.
    Rotated,
    /// The rotation has stopped: the old key stays in use.
    Failed { error: ProtocolError },
}

/// The program that a rotation is working on.
#[derive(Clone, Copy, Debug, PartialEq, Eq)]
pub struct Target {
    pub program: Address,
    pub program_data: Address,
}

/// A rotation in progress.
#[derive(Debug)]
pub struct Rotation {
    old: Address,
    new: Address,
    programs: Vec<String>,
    position: usize,
    target: Option<Target>,
    transferred: usize,
    skipped: usize,
    phase: RotatePhase,
}

/// What a rotation holds.
pub ghost struct RotationView {
    /// The key that is retired.
    pub old: Address,
    /// The key that takes over.
    pub new: Address,
    /// The identifiers of the programs on record, oldest first.
    pub programs: Seq<Seq<char>>,
    /// Number of programs that have been dealt with; the next one is in work.
    pub position: nat,
    /// The program in work, while a request for it is outstanding.
    pub target: Option<Target>,
    /// Number of programs whose authority the ledger has confirmed to be the new key.
    pub transferred: nat,
    /// Number of programs passed over because the old key does not control them.
    pub skipped: nat,
    pub phase: RotatePhase,
}

/// Tells whether a failed check means that the old key does not control the program:
/// its authority is another key, or it has none.
pub open spec fn out_of_reach(error: ProtocolError) -> bool {
    error is AuthorityMismatch || error is AlreadyImmutable
}

impl RotationView {
    /// What holds of every rotation: the programs dealt with were transferred or passed
    /// over; while a request is outstanding, it is for the program at `position`.
    pub open spec fn valid(self) -> bool {
        &&& self.position <= self.programs.len()
        &&& self.programs.len() <= usize::MAX
        &&& self.transferred + self.skipped == self.position
        &&& (self.phase is AwaitAuthority || self.phase is AwaitTransfer ==> {
            &&& self.position < self.programs.len()
            &&& self.target matches Some(target)
            &&& parsed_program(self.programs[self.position as int]) == Some(target.program)
            &&& program_data_address(target.program) == Some(target.program_data)
        })
        &&& (self.phase is Rotated ==> self.position == self.programs.len())
    }

    /// The rotation stopped by `error`.
    pub open spec fn stopped(self, error: ProtocolError) -> (RotationView, ActionView) {
        (RotationView { phase: RotatePhase::Failed { error }, ..self }, ActionView::Abort { error })
    }

    /// The request that is outstanding.
    pub open spec fn pending(self) -> Step {
        match self.phase {
            RotatePhase::AwaitTransfer => Step::SetAuthority,
            _ => Step::FetchAccount,
        }
    }

    /// What follows an event that is not the answer hoped for: a failure of the
    /// outstanding request stops the rotation at that step, anything else stops it as
    /// out of turn.
    pub open spec fn rejected(self, event: EventView) -> (RotationView, ActionView) {
        if event is Failed {
            self.stopped(ProtocolError::TransactionFailed { step: self.pending() })
        } else {
            self.stopped(ProtocolError::UnexpectedEvent)
        }
    }

    /// What follows once `position` programs are dealt with: the rotation is through
    /// when none is left; else the next program's account is fetched, unless its
    /// identifier is no address or it has no program-data address.
    pub open spec fn enter(self, position: nat) -> (RotationView, ActionView) {
        let here = RotationView { position, target: None, ..self };
        if position >= self.programs.len() {
            (RotationView { phase: RotatePhase::Rotated, ..here }, ActionView::Complete)
        } else {
            match parsed_program(self.programs[position as int]) {
                None => here.stopped(ProtocolError::InvalidProgramId),
                Some(program) => match program_data_address(program) {
                    None => here.stopped(ProtocolError::NoProgramDataAddress),
                    Some(program_data) => (
                        RotationView {
                            target: Some(Target { program, program_data }),
                            phase: RotatePhase::AwaitAuthority,
                            ..here
                        },
                        ActionView::FetchAccount { address: program_data },
                    ),
                },
            }
        }
    }

    /// The transaction that hands the program in work to the new key, signed by the
    /// old one.
    pub open spec fn transfer(self) -> ActionView
        recommends
            self.target is Some,
    {
        single_submission(
            authority_change(self.target.unwrap().program@, self.old@, Some(self.new@)),
            seq![self.old],
            Step::SetAuthority,
        )
    }

    /// The rotation after `event`, and the action that it asks for next.
    pub open spec fn step(self, event: EventView) -> (RotationView, ActionView) {
        match self.phase {
            RotatePhase::Rotated => (self, ActionView::Complete),
            RotatePhase::Failed { error } => (self, ActionView::Abort { error }),
            RotatePhase::AwaitAuthority => match event {
                EventView::Account(data) => match authority_verdict(
                    decoded_account(data),
                    self.old,
                ) {
                    Ok(_) => (
                        RotationView { phase: RotatePhase::AwaitTransfer, ..self },
                        self.transfer(),
                    ),
                    Err(error) => if out_of_reach(error) {
                        RotationView { skipped: self.skipped + 1, ..self }.enter(self.position + 1)
                    } else {
                        self.stopped(error)
                    },
                },
                _ => self.rejected(event),
            },
            RotatePhase::AwaitTransfer => match event {
                EventView::Confirmed => RotationView {
                    transferred: self.transferred + 1,
                    ..self
                }.enter(self.position + 1),
                _ => self.rejected(event),
            },
        }
    }
}

/// A step keeps a rotation valid, and leaves the keys and the programs as they are.
pub proof fn lemma_rotation_step_valid(before: RotationView, event: EventView)
    requires
        before.valid(),
    ensures
        before.step(event).0.valid(),
        before.step(event).0.programs == before.programs,
        before.step(event).0.old == before.old,
        before.step(event).0.new == before.new,
{
}

/// A rotation goes forward only: no program is dealt with twice, and no count goes
/// down.
pub proof fn lemma_rotation_goes_forward(before: RotationView, event: EventView)
    requires
        before.valid(),
    ensures
        before.position <= before.step(event).0.position <= before.position + 1,
        before.transferred <= before.step(event).0.transferred <= before.transferred + 1,
        before.skipped <= before.step(event).0.skipped <= before.skipped + 1,
{
}

/// The new key is adopted only when every program on record has been dealt with, each
/// transferred or passed over. A rotation that has failed stays failed, whatever comes:
/// the old key stays in use, and nothing more is submitted.
pub proof fn lemma_rotation_adopts_at_end(before: RotationView, event: EventView)
    requires
        before.valid(),
    ensures
        before.step(event).0.phase is Rotated ==> before.step(event).0.position
            == before.programs.len() && before.step(event).0.transferred + before.step(
            event,
        ).0.skipped == before.programs.len(),
        before.phase is Failed ==> before.step(event).0 == before && !before.step(
            event,
        ).1.mutates(),
        before.phase is Rotated ==> before.step(event).0 == before && !before.step(
            event,
        ).1.mutates(),
{
    lemma_rotation_step_valid(before, event);
}

/// A transfer is submitted only for a program that the old key is seen to control, and
/// it hands that program to the new key.
pub proof fn lemma_rotation_transfers_verified(before: RotationView, event: EventView)
    requires
        before.valid(),
        before.step(event).1.mutates(),
    ensures
        before.phase is AwaitAuthority,
        event matches EventView::Account(data) && authority_verdict(
            decoded_account(data),
            before.old,
        ) is Ok,
        before.step(event).1 == before.transfer(),
        before.step(event).0.position == before.position,
{
}

/// A program that the old key does not control is passed over, without a transaction
/// for it, and the rotation goes on with the next program.
pub proof fn lemma_rotation_passes_over(before: RotationView, data: Seq<u8>)
    requires
        before.valid(),
        before.phase is AwaitAuthority,
        authority_verdict(decoded_account(data), before.old) matches Err(error) && out_of_reach(
            error,
        ),
    ensures
        before.step(EventView::Account(data)) == (RotationView {
            skipped: before.skipped + 1,
            ..before
        }).enter(before.position + 1),
        !before.step(EventView::Account(data)).1.mutates(),
        before.step(EventView::Account(data)).0.transferred == before.transferred,
{
}

/// A transfer that the ledger refuses stops the rotation there: the programs before it
/// keep their new authority, the one in work and those behind it are not touched, and
/// the new key is not adopted.
pub proof fn lemma_rotation_breaks_off(before: RotationView)
    requires
        before.valid(),
        before.phase is AwaitTransfer,
    ensures
        before.step(EventView::Failed).0.phase == (RotatePhase::Failed {
            error: ProtocolError::TransactionFailed { step: Step::SetAuthority },
        }),
        before.step(EventView::Failed).0.transferred == before.transferred,
        before.step(EventView::Failed).0.position == before.position,
        !before.step(EventView::Failed).1.mutates(),
{
}

/// How a rotation starts: with the oldest program on record, or, where none is on
/// record, at its end.
pub open spec fn rotation_start(old: Address, new: Address, programs: Seq<Seq<char>>) -> (
    RotationView,
    ActionView,
) {
    RotationView {
        old,
        new,
        programs,
        position: 0,
        target: None,
        transferred: 0,
        skipped: 0,
        phase: RotatePhase::AwaitAuthority,
    }.enter(0)
}

impl View for Rotation {
    type V = RotationView;

    closed spec fn view(&self) -> RotationView {
        RotationView {
            old: self.old,
            new: self.new,
            programs: text_views(self.programs@),
            position: self.position as nat,
            target: self.target,
            transferred: self.transferred as nat,
            skipped: self.skipped as nat,
            phase: self.phase,
        }
    }
}

impl Rotation {
    #[verifier::type_invariant]
    spec fn well_formed(self) -> bool {
        self@.valid()
    }

    /// Starts the rotation from the key at `old` to the key at `new` over the programs
    /// with these identifiers, oldest first.
    pub fn begin(old: Address, new: Address, programs: Vec<String>) -> (r: (Rotation, Action))
        ensures
            (r.0@, r.1@) == rotation_start(old, new, text_views(programs@)),
            r.0@.valid(),
    {
        assert(text_views(programs@).len() == programs.len());
        let rotation = Rotation {
            old,
            new,
            programs,
            position: 0,
            target: None,
            transferred: 0,
            skipped: 0,
            // Holds until `enter` has looked at the first program and set the phase.
            phase: RotatePhase::Failed { error: ProtocolError::UnexpectedEvent },
        };
        let r = rotation.enter(0, 0, 0);
        proof {
            use_type_invariant(&r.0);
        }
        r
    }

    /// Stops the rotation.
    fn stop(self, error: ProtocolError) -> (r: (Rotation, Action))
        requires
            self@.phase is Failed || self@.phase is AwaitAuthority || self@.phase is AwaitTransfer,
        ensures
            (r.0@, r.1@) == self@.stopped(error),
    {
        proof {
            use_type_invariant(&self);
        }
        (Rotation { phase: RotatePhase::Failed { error }, ..self }, Action::Abort { error })
    }

    /// Stops the rotation on an event that is not the answer hoped for.
    fn reject(self, event: &Event) -> (r: (Rotation, Action))
        requires
            self@.phase is AwaitAuthority || self@.phase is AwaitTransfer,
        ensures
            (r.0@, r.1@) == self@.rejected(event@),
    {
        let pending = match self.phase {
            RotatePhase::AwaitTransfer => Step::SetAuthority,
            _ => Step::FetchAccount,
        };
        match event {
            Event::Failed => self.stop(ProtocolError::TransactionFailed { step: pending }),
            _ => self.stop(ProtocolError::UnexpectedEvent),
        }
    }

    /// Goes on with the program at `position`, the counts being what they are then.
    fn enter(self, position: usize, transferred: usize, skipped: usize) -> (r: (Rotation, Action))
        requires
            position <= self@.programs.len(),
            transferred + skipped == position,
            !(self@.phase is Rotated),
        ensures
            (r.0@, r.1@) == (RotationView {
                transferred: transferred as nat,
                skipped: skipped as nat,
                ..self@
            }).enter(position as nat),
    {
        proof {
            use_type_invariant(&self);
        }
        let failed = RotatePhase::Failed { error: ProtocolError::UnexpectedEvent };
        if position >= self.programs.len() {
            let done = Rotation {
                position,
                target: None,
                transferred,
                skipped,
                phase: RotatePhase::Rotated,
                ..self
            };
            return (done, Action::Complete);
        }
        match Address::parse(self.programs[position].as_str()) {
            None => {
                let here = Rotation {
                    position,
                    target: None,
                    transferred,
                    skipped,
                    phase: failed,
                    ..self
                };
                here.stop(ProtocolError::InvalidProgramId)
            },
            Some(program) => match program.program_data() {
                None => {
                    let here = Rotation {
                        position,
                        target: None,
                        transferred,
                        skipped,
                        phase: failed,
                        ..self
                    };
                    here.stop(ProtocolError::NoProgramDataAddress)
                },
                Some(program_data) => {
                    let next = Rotation {
                        position,
                        target: Some(Target { program, program_data }),
                        transferred,
                        skipped,
                        phase: RotatePhase::AwaitAuthority,
                        ..self
                    };
                    (next, Action::FetchAccount { address: program_data })
                },
            },
        }
    }

    /// Takes the event that answers the outstanding request, and says what to do next.
    /// Once the rotation is through or has failed, every event gets the same answer.
    pub fn step(self, event: Event) -> (r: (Rotation, Action))
        ensures
            (r.0@, r.1@) == self@.step(event@),
            self@.valid(),
            r.0@.valid(),
    {
        proof {
            use_type_invariant(&self);
        }
        let r = match self.phase {
            RotatePhase::Rotated => (self, Action::Complete),
            RotatePhase::Failed { error } => (self, Action::Abort { error }),
            RotatePhase::AwaitAuthority => match event {
                Event::Account(data) => match verify_authority(data.as_slice(), &self.old) {
                    Ok(_) => match self.target {
                        Some(target) => {
                            let instruction = loader_set_authority(
                                &target.program,
                                &self.old,
                                Some(&self.new),
                            );
                            let action = submit_signed_by(
                                instruction,
                                self.old,
                                Step::SetAuthority,
                            );
                            (Rotation { phase: RotatePhase::AwaitTransfer, ..self }, action)
                        },
                        None => self.stop(ProtocolError::UnexpectedEvent),
                    },
                    Err(ProtocolError::AuthorityMismatch { expected: _, found: _ }) => {
                        let (position, transferred, skipped) = (
                            self.position,
                            self.transferred,
                            self.skipped,
                        );
                        self.enter(position + 1, transferred, skipped + 1)
                    },
                    Err(ProtocolError::AlreadyImmutable) => {
                        let (position, transferred, skipped) = (
                            self.position,
                            self.transferred,
                            self.skipped,
                        );
                        self.enter(position + 1, transferred, skipped + 1)
                    },
                    Err(error) => self.stop(error),
                },
                _ => self.reject(&event),
            },
            RotatePhase::AwaitTransfer => match event {
                Event::Confirmed => {
                    let (position, transferred, skipped) = (
                        self.position,
                        self.transferred,
                        self.skipped,
                    );
                    self.enter(position + 1, transferred + 1, skipped)
                },
                _ => self.reject(&event),
            },
        };
        proof {
            use_type_invariant(&r.0);
        }
        r
    }

    /// Where the rotation stands.
    pub fn phase(&self) -> (r: RotatePhase)
        ensures
            r == self@.phase,
    {
        self.phase
    }

    /// Tells whether the new key is to be adopted: only once every program on record has
    /// been dealt with. Until then, and after a failure, the old key stays in use.
    pub fn adopts_new_key(&self) -> (r: bool)
        ensures
            r == (self@.phase is Rotated),
            r ==> self@.position == self@.programs.len(),
    {
        proof {
            use_type_invariant(self);
        }
        match self.phase {
            RotatePhase::Rotated => true,
            _ => false,
        }
    }

    /// Number of programs that have been dealt with.
    pub fn position(&self) -> (r: usize)
        ensures
            r == self@.position,
    {
        self.position
    }

    /// Number of programs whose authority the ledger has confirmed to be the new key.
    pub fn transferred(&self) -> (r: usize)
        ensures
            r == self@.transferred,
    {
        self.transferred
    }

    /// Number of programs passed over because the old key does not control them.
    pub fn skipped(&self) -> (r: usize)
        ensures
            r == self@.skipped,
    {
        self.skipped
    }
}

} // verus!
