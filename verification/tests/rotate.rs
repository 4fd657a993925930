use shield_deploy::address::Address;
use shield_deploy::error::{ProtocolError, Step};
use shield_deploy::instruction::{AccountMeta, Instruction};
use shield_deploy::protocol::{Action, Event};
use shield_deploy::rotate::{RotatePhase, Rotation};
use solana_loader_v3_interface::state::UpgradeableLoaderState;
use solana_sdk::pubkey::Pubkey;
use std::collections::HashMap;

const OLD: [u8; 32] = [31; 32];
const NEW: [u8; 32] = [32; 32];

fn plain(ix: &solana_sdk::instruction::Instruction) -> Instruction {
    Instruction {
        program: Address::new(ix.program_id.to_bytes()),
        accounts: ix
            .accounts
            .iter()
            .map(|m| AccountMeta {
                address: Address::new(m.pubkey.to_bytes()),
                is_signer: m.is_signer,
                is_writable: m.is_writable,
            })
            .collect(),
        data: ix.data.clone(),
    }
}

fn program(n: u8) -> [u8; 32] {
    [100 + n; 32]
}

fn ids(count: u8) -> Vec<String> {
    (1..=count).map(|n| Pubkey::new_from_array(program(n)).to_string()).collect()
}

fn program_data(n: u8) -> Address {
    let address = solana_loader_v3_interface::get_program_data_address(&Pubkey::new_from_array(program(n)));
    Address::new(address.to_bytes())
}

fn account(authority: Option<[u8; 32]>) -> Vec<u8> {
    let state = UpgradeableLoaderState::ProgramData {
        slot: 1,
        upgrade_authority_address: authority.map(Pubkey::new_from_array),
    };
    bincode::serialize(&state).unwrap()
}

fn transfer(n: u8, new: [u8; 32]) -> Action {
    let expected = solana_loader_v3_interface::instruction::set_upgrade_authority(
        &Pubkey::new_from_array(program(n)),
        &Pubkey::new_from_array(OLD),
        Some(&Pubkey::new_from_array(new)),
    );
    Action::Submit {
        instructions: vec![plain(&expected)],
        signers: vec![Address::new(OLD)],
        step: Step::SetAuthority,
    }
}

/// A ledger that holds one authority for each program-data account and refuses the
/// transfer with the given number, counted from 1 over those submitted.
struct Ledger {
    authorities: HashMap<Address, Option<[u8; 32]>>,
    refused: Option<usize>,
    submitted: usize,
}

impl Ledger {
    fn perform(&mut self, action: &Action, new: [u8; 32]) -> Event {
        match action {
            Action::FetchAccount { address } => Event::Account(account(self.authorities[address])),
            Action::Submit { instructions, .. } => {
                self.submitted += 1;
                if self.refused == Some(self.submitted) {
                    return Event::Failed;
                }
                let target = instructions[0].accounts[0].address;
                self.authorities.insert(target, Some(new));
                Event::Confirmed
            }
            other => panic!("unexpected action {:?}", other),
        }
    }

    fn run(&mut self, new: [u8; 32], programs: Vec<String>) -> (Rotation, Action) {
        let (mut rotation, mut action) = Rotation::begin(Address::new(OLD), Address::new(new), programs);
        while !matches!(action, Action::Complete | Action::Abort { .. }) {
            let event = self.perform(&action, new);
            let (next, next_action) = rotation.step(event);
            rotation = next;
            action = next_action;
        }
        (rotation, action)
    }
}

#[test]
fn rotation_without_programs_adopts_the_new_key_at_once() {
    let (rotation, action) = Rotation::begin(Address::new(OLD), Address::new(NEW), Vec::new());
    assert_eq!(action, Action::Complete);
    assert_eq!(rotation.phase(), RotatePhase::Rotated);
    assert!(rotation.adopts_new_key());
    assert_eq!(rotation.position(), 0);
    assert_eq!(rotation.transferred(), 0);
}

#[test]
fn rotation_checks_then_transfers_each_program() {
    let (rotation, action) = Rotation::begin(Address::new(OLD), Address::new(NEW), ids(2));
    assert_eq!(action, Action::FetchAccount { address: program_data(1) });
    assert_eq!(rotation.phase(), RotatePhase::AwaitAuthority);
    assert!(!rotation.adopts_new_key());
    let (rotation, action) = rotation.step(Event::Account(account(Some(OLD))));
    assert_eq!(action, transfer(1, NEW));
    assert_eq!(rotation.phase(), RotatePhase::AwaitTransfer);
    let (rotation, action) = rotation.step(Event::Confirmed);
    assert_eq!(action, Action::FetchAccount { address: program_data(2) });
    assert_eq!((rotation.position(), rotation.transferred(), rotation.skipped()), (1, 1, 0));
    let (rotation, action) = rotation.step(Event::Account(account(Some(OLD))));
    assert_eq!(action, transfer(2, NEW));
    assert!(!rotation.adopts_new_key());
    let (rotation, action) = rotation.step(Event::Confirmed);
    assert_eq!(action, Action::Complete);
    assert!(rotation.adopts_new_key());
    assert_eq!((rotation.position(), rotation.transferred(), rotation.skipped()), (2, 2, 0));
}

#[test]
fn refused_transfer_keeps_the_old_key_and_rotation_can_be_run_again() {
    let mut ledger = Ledger {
        authorities: (1..=3).map(|n| (program_data(n), Some(OLD))).collect(),
        refused: Some(2),
        submitted: 0,
    };
    let (rotation, action) = ledger.run(NEW, ids(3));
    let error = ProtocolError::TransactionFailed { step: Step::SetAuthority };
    assert_eq!(action, Action::Abort { error });
    assert_eq!(rotation.phase(), RotatePhase::Failed { error });
    assert!(!rotation.adopts_new_key());
    assert_eq!((rotation.position(), rotation.transferred(), rotation.skipped()), (1, 1, 0));
    assert_eq!(ledger.authorities[&program_data(1)], Some(NEW));
    assert_eq!(ledger.authorities[&program_data(2)], Some(OLD));
    assert_eq!(ledger.authorities[&program_data(3)], Some(OLD));
    assert_eq!(ledger.submitted, 2);

    let newer = [33; 32];
    ledger.refused = None;
    ledger.submitted = 0;
    let (rotation, action) = ledger.run(newer, ids(3));
    assert_eq!(action, Action::Complete);
    assert!(rotation.adopts_new_key());
    assert_eq!((rotation.position(), rotation.transferred(), rotation.skipped()), (3, 2, 1));
    assert_eq!(ledger.submitted, 2);
    assert_eq!(ledger.authorities[&program_data(1)], Some(NEW));
    assert_eq!(ledger.authorities[&program_data(2)], Some(newer));
    assert_eq!(ledger.authorities[&program_data(3)], Some(newer));
}

#[test]
fn rotation_passes_over_programs_out_of_reach() {
    let (rotation, _) = Rotation::begin(Address::new(OLD), Address::new(NEW), ids(3));
    let (rotation, action) = rotation.step(Event::Account(account(None)));
    assert_eq!(action, Action::FetchAccount { address: program_data(2) });
    assert_eq!((rotation.position(), rotation.transferred(), rotation.skipped()), (1, 0, 1));
    let (rotation, action) = rotation.step(Event::Account(account(Some([1; 32]))));
    assert_eq!(action, Action::FetchAccount { address: program_data(3) });
    assert_eq!((rotation.position(), rotation.transferred(), rotation.skipped()), (2, 0, 2));
    let (rotation, action) = rotation.step(Event::Account(account(Some(OLD))));
    assert_eq!(action, transfer(3, NEW));
    let (rotation, action) = rotation.step(Event::Confirmed);
    assert_eq!(action, Action::Complete);
    assert_eq!((rotation.position(), rotation.transferred(), rotation.skipped()), (3, 1, 2));
    assert!(rotation.adopts_new_key());
}

#[test]
fn rotation_stops_at_what_it_cannot_read() {
    let (rotation, _) = Rotation::begin(Address::new(OLD), Address::new(NEW), ids(2));
    let (rotation, action) = rotation.step(Event::Account(vec![1]));
    assert_eq!(action, Action::Abort { error: ProtocolError::MalformedAccount });
    assert!(!rotation.adopts_new_key());
    let (rotation, action) = rotation.step(Event::Confirmed);
    assert_eq!(action, Action::Abort { error: ProtocolError::MalformedAccount });
    assert_eq!(rotation.phase(), RotatePhase::Failed { error: ProtocolError::MalformedAccount });

    let (rotation, _) = Rotation::begin(Address::new(OLD), Address::new(NEW), ids(2));
    let (rotation, action) = rotation.step(Event::Failed);
    assert_eq!(
        action,
        Action::Abort { error: ProtocolError::TransactionFailed { step: Step::FetchAccount } }
    );
    assert!(!rotation.adopts_new_key());

    let (rotation, _) = Rotation::begin(Address::new(OLD), Address::new(NEW), ids(2));
    let (_, action) = rotation.step(Event::Balance(3));
    assert_eq!(action, Action::Abort { error: ProtocolError::UnexpectedEvent });
}

#[test]
fn rotation_stops_at_a_program_id_that_is_no_address() {
    let (rotation, action) =
        Rotation::begin(Address::new(OLD), Address::new(NEW), vec!["bad".to_string()]);
    assert_eq!(action, Action::Abort { error: ProtocolError::InvalidProgramId });
    assert!(!rotation.adopts_new_key());

    let mut programs = ids(1);
    programs.push("also bad".to_string());
    let (rotation, _) = Rotation::begin(Address::new(OLD), Address::new(NEW), programs);
    let (rotation, action) = rotation.step(Event::Account(account(Some(OLD))));
    assert_eq!(action, transfer(1, NEW));
    let (rotation, action) = rotation.step(Event::Confirmed);
    assert_eq!(action, Action::Abort { error: ProtocolError::InvalidProgramId });
    assert_eq!(rotation.phase(), RotatePhase::Failed { error: ProtocolError::InvalidProgramId });
    assert_eq!((rotation.position(), rotation.transferred()), (1, 1));
    assert!(!rotation.adopts_new_key());
}
