use shield_deploy::address::Address;
use shield_deploy::config::{DeployedProgram, ProjectState};
use shield_deploy::deploy::{DeployPhase, DeployStage, Deployment, MIN_DEPLOY_BALANCE};
use shield_deploy::error::{ProtocolError, Step};
use shield_deploy::instruction::{AccountMeta, Instruction};
use shield_deploy::protocol::{Action, Event};
use solana_loader_v3_interface::instruction::UpgradeableLoaderInstruction;
use solana_sdk::pubkey::Pubkey;

const PAYER: [u8; 32] = [1; 32];
const PROGRAM: [u8; 32] = [2; 32];
const BUFFER: [u8; 32] = [3; 32];

fn plain(ix: &solana_sdk::instruction::Instruction) -> Instruction {
    Instruction {
        program: Address::new(ix.program_id.to_bytes()),
        accounts: ix
            .accounts
            .iter()
            .map(|m| AccountMeta {
                address: Address::new(m.pubkey.to_bytes()),
                is_signer: m.is_signer,
                is_writable: m.is_writable,
            })
            .collect(),
        data: ix.data.clone(),
    }
}

fn sample(len: usize) -> Vec<u8> {
    (0..len).map(|i| (i * 31 + 5) as u8).collect()
}

fn begin(payload: Vec<u8>) -> (Deployment, Action) {
    Deployment::begin(Address::new(PAYER), Address::new(PROGRAM), Address::new(BUFFER), payload).unwrap()
}

fn funded(payload: Vec<u8>, rent: u64) -> (Deployment, Action) {
    let (deployment, _) = begin(payload);
    let (deployment, _) = deployment.step(Event::Balance(MIN_DEPLOY_BALANCE));
    deployment.step(Event::Rent(rent))
}

fn signer_addresses(instructions: &[Instruction]) -> Vec<Address> {
    let mut signers = Vec::new();
    for ix in instructions {
        for meta in &ix.accounts {
            if meta.is_signer && !signers.contains(&meta.address) {
                signers.push(meta.address);
            }
        }
    }
    signers
}

#[test]
fn deployment_starts_by_asking_for_the_balance() {
    let (deployment, action) = begin(sample(10));
    assert_eq!(action, Action::QueryBalance { owner: Address::new(PAYER) });
    assert_eq!(deployment.phase(), DeployPhase::AwaitBalance);
    assert_eq!(deployment.stage(), Some(DeployStage::NoProgram));
    assert_eq!(deployment.program(), Address::new(PROGRAM));
    assert_eq!(deployment.balance(), 0);
}

#[test]
fn deployment_needs_five_sol() {
    assert_eq!(MIN_DEPLOY_BALANCE, 5_000_000_000);
    let (deployment, _) = begin(sample(10));
    let (deployment, action) = deployment.step(Event::Balance(4_999_999_999));
    let error = ProtocolError::InsufficientBalance { balance: 4_999_999_999, required: 5_000_000_000 };
    assert_eq!(action, Action::Abort { error });
    assert_eq!(deployment.phase(), DeployPhase::Failed { error });
    assert_eq!(deployment.stage(), None);

    let (deployment, _) = begin(sample(10));
    let (deployment, action) = deployment.step(Event::Balance(5_000_000_000));
    assert_eq!(action, Action::QueryRent { size: 47 });
    assert_eq!(deployment.phase(), DeployPhase::AwaitBufferRent);
    assert_eq!(deployment.balance(), 5_000_000_000);
}

#[test]
fn buffer_is_created_by_the_payer_and_the_buffer_key() {
    let (deployment, action) = funded(sample(1000), 7_777);
    let expected = solana_system_interface::instruction::create_account(
        &Pubkey::new_from_array(PAYER),
        &Pubkey::new_from_array(BUFFER),
        7_777,
        1037,
        &solana_sdk_ids::bpf_loader_upgradeable::id(),
    );
    match action {
        Action::Submit { instructions, signers, step } => {
            assert_eq!(instructions, vec![plain(&expected)]);
            assert_eq!(signers, vec![Address::new(PAYER), Address::new(BUFFER)]);
            assert_eq!(signer_addresses(&instructions), signers);
            assert_eq!(step, Step::CreateBuffer);
            assert_ne!(instructions[0].program, Address::new(PAYER));
        }
        other => panic!("unexpected action {:?}", other),
    }
    assert_eq!(deployment.phase(), DeployPhase::AwaitBufferCreation);
    assert_eq!(deployment.stage(), Some(DeployStage::NoProgram));
}

#[test]
fn empty_payload_is_deployed_without_a_write() {
    let (deployment, action) = begin(Vec::new());
    assert_eq!(action, Action::QueryBalance { owner: Address::new(PAYER) });
    let (deployment, action) = deployment.step(Event::Balance(6_000_000_000));
    assert_eq!(action, Action::QueryRent { size: 37 });
    let (deployment, action) = deployment.step(Event::Rent(1_000));
    match &action {
        Action::Submit { instructions, step, .. } => {
            assert_eq!(*step, Step::CreateBuffer);
            let expected = solana_system_interface::instruction::create_account(
                &Pubkey::new_from_array(PAYER),
                &Pubkey::new_from_array(BUFFER),
                1_000,
                37,
                &solana_sdk_ids::bpf_loader_upgradeable::id(),
            );
            assert_eq!(instructions, &vec![plain(&expected)]);
        }
        other => panic!("unexpected action {:?}", other),
    }
    let (deployment, action) = deployment.step(Event::Confirmed);
    assert_eq!(action, Action::QueryRent { size: 45 });
    assert_eq!(deployment.phase(), DeployPhase::AwaitProgramRent);
    assert_eq!(deployment.stage(), Some(DeployStage::DataWritten));
    let (deployment, action) = deployment.step(Event::Rent(2_000));
    assert!(matches!(action, Action::Submit { step: Step::Activate, .. }));
    assert_eq!(deployment.phase(), DeployPhase::AwaitActivation);
    let (deployment, action) = deployment.step(Event::Confirmed);
    assert_eq!(action, Action::Complete);
    assert_eq!(deployment.phase(), DeployPhase::Activated);
    assert_eq!(deployment.stage(), Some(DeployStage::Activated));
}

#[test]
fn fifty_thousand_bytes_take_fifty_six_writes() {
    let payload = sample(50_000);
    let (mut deployment, mut action) = funded(payload.clone(), 1);
    assert!(matches!(action, Action::Submit { step: Step::CreateBuffer, .. }));
    let mut offsets = Vec::new();
    let mut written = Vec::new();
    loop {
        let (next, next_action) = deployment.step(Event::Confirmed);
        deployment = next;
        action = next_action;
        match &action {
            Action::Submit { instructions, signers, step: Step::WriteChunk { number, total } } => {
                assert_eq!(*total, 56);
                assert_eq!(*number, offsets.len() + 1);
                assert_eq!(signers, &vec![Address::new(PAYER)]);
                assert_eq!(instructions.len(), 1);
                assert_eq!(deployment.phase(), DeployPhase::AwaitChunk { index: offsets.len() });
                assert_eq!(deployment.stage(), Some(DeployStage::BufferCreated));
                match bincode::deserialize(&instructions[0].data).unwrap() {
                    UpgradeableLoaderInstruction::Write { offset, bytes } => {
                        assert_eq!(offset as usize, written.len());
                        offsets.push(offset);
                        written.extend_from_slice(&bytes);
                    }
                    other => panic!("unexpected instruction {:?}", other),
                }
            }
            _ => break,
        }
    }
    assert_eq!(offsets.len(), 56);
    assert!(offsets.windows(2).all(|pair| pair[0] < pair[1]));
    assert_eq!(offsets[0], 0);
    assert_eq!(offsets[1], 900);
    assert_eq!(offsets[55], 55 * 900);
    assert_eq!(written, payload);
    assert_eq!(action, Action::QueryRent { size: 50_045 });
    assert_eq!(deployment.phase(), DeployPhase::AwaitProgramRent);
}

#[test]
fn write_is_the_instruction_of_the_loader() {
    let payload = sample(1000);
    let (deployment, _) = funded(payload.clone(), 1);
    let (deployment, first) = deployment.step(Event::Confirmed);
    let (_, second) = deployment.step(Event::Confirmed);
    let buffer = Pubkey::new_from_array(BUFFER);
    let payer = Pubkey::new_from_array(PAYER);
    let expected_first =
        solana_loader_v3_interface::instruction::write(&buffer, &payer, 0, payload[..900].to_vec());
    let expected_second =
        solana_loader_v3_interface::instruction::write(&buffer, &payer, 900, payload[900..].to_vec());
    assert_eq!(
        first,
        Action::Submit {
            instructions: vec![plain(&expected_first)],
            signers: vec![Address::new(PAYER)],
            step: Step::WriteChunk { number: 1, total: 2 },
        }
    );
    assert_eq!(
        second,
        Action::Submit {
            instructions: vec![plain(&expected_second)],
            signers: vec![Address::new(PAYER)],
            step: Step::WriteChunk { number: 2, total: 2 },
        }
    );
    assert_eq!(signer_addresses(&[plain(&expected_first)]), vec![Address::new(PAYER)]);
}

#[test]
#[allow(deprecated)]
fn activation_is_signed_by_the_payer_and_the_program_key() {
    let payload = sample(10);
    let (deployment, _) = funded(payload, 1);
    let (deployment, _) = deployment.step(Event::Confirmed);
    let (deployment, action) = deployment.step(Event::Confirmed);
    assert_eq!(action, Action::QueryRent { size: 55 });
    let (deployment, action) = deployment.step(Event::Rent(9_000));
    let payer = Pubkey::new_from_array(PAYER);
    let expected = solana_loader_v3_interface::instruction::deploy_with_max_program_len(
        &payer,
        &Pubkey::new_from_array(PROGRAM),
        &Pubkey::new_from_array(BUFFER),
        &payer,
        9_000,
        20,
    )
    .unwrap();
    let expected: Vec<Instruction> = expected.iter().map(plain).collect();
    assert_eq!(expected.len(), 2);
    match action {
        Action::Submit { instructions, signers, step } => {
            assert_eq!(instructions, expected);
            assert_eq!(signers, vec![Address::new(PAYER), Address::new(PROGRAM)]);
            assert_eq!(signer_addresses(&instructions), signers);
            assert_eq!(step, Step::Activate);
            let authority = instructions[1].accounts.last().unwrap();
            assert_eq!(authority.address, Address::new(PAYER));
            assert!(authority.is_signer);
        }
        other => panic!("unexpected action {:?}", other),
    }
    assert_eq!(deployment.phase(), DeployPhase::AwaitActivation);
    assert_eq!(deployment.stage(), Some(DeployStage::DataWritten));
}

#[test]
fn failed_write_names_the_chunk() {
    let (mut deployment, _) = funded(sample(40 * 900), 1);
    for _ in 0..12 {
        let (next, action) = deployment.step(Event::Confirmed);
        assert!(matches!(action, Action::Submit { step: Step::WriteChunk { .. }, .. }));
        deployment = next;
    }
    let (deployment, action) = deployment.step(Event::Failed);
    let error = ProtocolError::TransactionFailed { step: Step::WriteChunk { number: 12, total: 40 } };
    assert_eq!(action, Action::Abort { error });
    assert_eq!(deployment.phase(), DeployPhase::Failed { error });
    let (deployment, action) = deployment.step(Event::Confirmed);
    assert_eq!(action, Action::Abort { error });
    assert_eq!(deployment.phase(), DeployPhase::Failed { error });
}

#[test]
fn failure_names_the_step() {
    let (deployment, _) = begin(sample(5));
    let (_, action) = deployment.step(Event::Failed);
    assert_eq!(
        action,
        Action::Abort { error: ProtocolError::TransactionFailed { step: Step::QueryBalance } }
    );
    let (deployment, _) = begin(sample(5));
    let (deployment, _) = deployment.step(Event::Balance(u64::MAX));
    let (_, action) = deployment.step(Event::Failed);
    assert_eq!(action, Action::Abort { error: ProtocolError::TransactionFailed { step: Step::QueryRent } });
    let (deployment, _) = funded(sample(5), 1);
    let (_, action) = deployment.step(Event::Failed);
    assert_eq!(
        action,
        Action::Abort { error: ProtocolError::TransactionFailed { step: Step::CreateBuffer } }
    );
    let (deployment, _) = funded(Vec::new(), 1);
    let (deployment, _) = deployment.step(Event::Confirmed);
    let (deployment, _) = deployment.step(Event::Rent(1));
    let (_, action) = deployment.step(Event::Failed);
    assert_eq!(action, Action::Abort { error: ProtocolError::TransactionFailed { step: Step::Activate } });
}

#[test]
fn event_out_of_turn_stops_the_deployment() {
    let (deployment, _) = begin(sample(5));
    let (deployment, action) = deployment.step(Event::Confirmed);
    assert_eq!(action, Action::Abort { error: ProtocolError::UnexpectedEvent });
    assert_eq!(deployment.phase(), DeployPhase::Failed { error: ProtocolError::UnexpectedEvent });
    let (deployment, _) = funded(sample(5), 1);
    let (_, action) = deployment.step(Event::Account(vec![1, 2, 3]));
    assert_eq!(action, Action::Abort { error: ProtocolError::UnexpectedEvent });
}

#[test]
fn activated_deployment_answers_complete() {
    let (deployment, _) = funded(Vec::new(), 1);
    let (deployment, _) = deployment.step(Event::Confirmed);
    let (deployment, _) = deployment.step(Event::Rent(1));
    let (deployment, _) = deployment.step(Event::Confirmed);
    let (deployment, action) = deployment.step(Event::Failed);
    assert_eq!(action, Action::Complete);
    assert_eq!(deployment.phase(), DeployPhase::Activated);
}

#[test]
fn record_enters_only_a_confirmed_deployment() {
    let mut state = ProjectState::new("devnet".to_string());
    let (deployment, _) = funded(Vec::new(), 1);
    assert!(!deployment.record(&mut state, 100));
    assert_eq!(state, ProjectState::new("devnet".to_string()));
    let (deployment, _) = deployment.step(Event::Confirmed);
    let (deployment, _) = deployment.step(Event::Rent(1));
    assert!(!deployment.record(&mut state, 100));
    assert!(state.deployed_programs.is_empty());
    let (deployment, _) = deployment.step(Event::Confirmed);
    assert!(deployment.record(&mut state, 1_700_000_000));
    assert_eq!(
        state.deployed_programs,
        vec![DeployedProgram {
            program_id: Pubkey::new_from_array(PROGRAM).to_string(),
            deployed_at: 1_700_000_000,
            last_upgraded: None,
        }]
    );
    assert_eq!(state.last_balance, MIN_DEPLOY_BALANCE);
    assert_eq!(state.network, "devnet");
}

#[test]
fn record_now_stamps_with_the_clock() {
    let mut state = ProjectState::default();
    let (deployment, _) = funded(Vec::new(), 1);
    let (deployment, _) = deployment.step(Event::Confirmed);
    let (deployment, _) = deployment.step(Event::Rent(1));
    let (deployment, _) = deployment.step(Event::Confirmed);
    assert!(deployment.record_now(&mut state));
    assert_eq!(state.deployed_programs.len(), 1);
    assert!(state.deployed_programs[0].deployed_at > 1_600_000_000);
    assert_eq!(state.deployed_programs[0].last_upgraded, None);
}
