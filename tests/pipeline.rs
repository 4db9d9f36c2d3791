use solana_sdk::pubkey::Pubkey;
use solclient::address::{derive_instance_address, SEED};
use solclient::error::ProtocolError;
use solclient::record::{CounterRecord, RECORD_SIZE};
use solclient::service::{CreationOutcome, Provisioning, SolanaService, Stage};

const PAYER: [u8; 32] = [7u8; 32];
const PROGRAM: [u8; 32] = [9u8; 32];

fn service() -> SolanaService {
    SolanaService::new("http://localhost:8899".to_string(), PAYER, PROGRAM)
}

fn marked_program() -> [u8; 32] {
    let mut key = [1u8; 32];
    key[11..].copy_from_slice(b"ProgramDerivedAddress");
    key
}

fn expected_address() -> [u8; 32] {
    Pubkey::create_with_seed(
        &Pubkey::new_from_array(PAYER),
        "WHATEVER",
        &Pubkey::new_from_array(PROGRAM),
    )
    .unwrap()
    .to_bytes()
}

#[test]
fn derivation_matches_seeded_address() {
    let a = derive_instance_address(&PAYER, &PROGRAM).unwrap();
    assert_eq!(a, expected_address());
    assert_ne!(a, PAYER);
    assert_ne!(a, PROGRAM);
    assert_eq!(SEED, "WHATEVER");
}

#[test]
fn derivation_is_deterministic() {
    let a = derive_instance_address(&PAYER, &PROGRAM).unwrap();
    let b = derive_instance_address(&PAYER, &PROGRAM).unwrap();
    assert_eq!(a, b);
    let c = derive_instance_address(&PROGRAM, &PAYER).unwrap();
    assert_ne!(a, c);
}

#[test]
fn derivation_refuses_marked_owner() {
    assert_eq!(
        derive_instance_address(&PAYER, &marked_program()),
        Err(ProtocolError::AccountDerivationFailure)
    );
}

#[test]
fn record_serializes_little_endian() {
    assert_eq!(CounterRecord::new().serialize(), vec![0u8, 0, 0, 0]);
    assert_eq!(CounterRecord { counter: 0x01020304 }.serialize(), vec![4u8, 3, 2, 1]);
    assert_eq!(CounterRecord::get_contract_size(), RECORD_SIZE);
    assert_eq!(RECORD_SIZE, 4);
}

#[test]
fn unconnected_service_refuses_everything_but_connect() {
    let mut s = service();
    assert_eq!(s.stage(), Stage::Disconnected);
    assert_eq!(s.is_program_deployed(Some(true)), Err(ProtocolError::ClientNotConnected));
    assert_eq!(s.resolve_instance_address(), Err(ProtocolError::ClientNotConnected));
    assert!(matches!(
        s.get_or_create_program_instance_account(false),
        Err(ProtocolError::ClientNotConnected)
    ));
    assert!(matches!(s.create_account_instance(10), Err(ProtocolError::ClientNotConnected)));
    assert_eq!(s.record_creation(CreationOutcome::Created), Err(ProtocolError::ClientNotConnected));
    assert!(matches!(s.add_to_counter(), Err(ProtocolError::ClientNotConnected)));
    assert_eq!(s.record_submission(true), Err(ProtocolError::ClientNotConnected));
    assert_eq!(s.stage(), Stage::Disconnected);
    assert_eq!(s.connect(true, true), Ok(()));
    assert_eq!(s.stage(), Stage::Connected);
}

#[test]
fn connect_failures_are_distinct() {
    let mut s = service();
    assert_eq!(s.connect(false, true), Err(ProtocolError::NetworkFailure));
    assert_eq!(s.connect(true, false), Err(ProtocolError::KeyPairForPayerNotFound));
    assert_eq!(s.stage(), Stage::Disconnected);
    assert_eq!(s.json_rpc_url(), "http://localhost:8899");
    assert_eq!(s.payer(), PAYER);
    assert_eq!(s.program(), PROGRAM);
}

#[test]
fn scenario_fresh_account_is_created_then_mutated() {
    let mut s = service();
    assert_eq!(s.connect(true, true), Ok(()));
    assert_eq!(s.is_program_deployed(Some(true)), Ok(true));
    assert_eq!(s.stage(), Stage::DeploymentVerified);
    let address = s.resolve_instance_address().unwrap();
    assert_eq!(address, expected_address());
    let p = s.get_or_create_program_instance_account(false).unwrap();
    assert!(matches!(p, Provisioning::Absent(a) if a == address));
    assert_eq!(s.stage(), Stage::AccountResolved { present: false });
    let q = s.create_account_instance(946_560).unwrap();
    assert_eq!(q.from, PAYER);
    assert_eq!(q.base, PAYER);
    assert_eq!(q.to, address);
    assert_eq!(q.owner, PROGRAM);
    assert_eq!(q.lamports, 946_560);
    assert_eq!(q.space, 4);
    assert_eq!(s.record_creation(CreationOutcome::Created), Ok(()));
    assert_eq!(s.stage(), Stage::AccountReady);
    let m = s.add_to_counter().unwrap();
    assert_eq!(m.program_id, PROGRAM);
    assert_eq!(m.account, address);
    assert!(m.is_writable);
    assert!(!m.is_signer);
    assert_eq!(m.data, vec![0u8, 0, 0, 0]);
    assert_eq!(s.record_submission(true), Ok(()));
    assert_eq!(s.stage(), Stage::MutationSubmitted);
}

#[test]
fn scenario_undeployed_program_stops_the_pipeline() {
    let mut s = service();
    s.connect(true, true).unwrap();
    assert_eq!(s.is_program_deployed(Some(false)), Ok(false));
    assert_eq!(s.stage(), Stage::Connected);
    assert_eq!(s.resolve_instance_address(), Err(ProtocolError::AccountIsNotExecutable));
    assert!(s.get_or_create_program_instance_account(true).is_err());
    assert!(s.create_account_instance(1).is_err());
    assert!(s.add_to_counter().is_err());
    assert_eq!(s.record_submission(true), Err(ProtocolError::AccountIsNotExecutable));
    assert_eq!(s.stage(), Stage::Connected);

    let mut absent = service();
    absent.connect(true, true).unwrap();
    assert_eq!(absent.is_program_deployed(None), Err(ProtocolError::NetworkFailure));
    assert_eq!(absent.resolve_instance_address(), Err(ProtocolError::AccountIsNotExecutable));
}

#[test]
fn scenario_existing_account_skips_creation() {
    let mut s = service();
    s.connect(true, true).unwrap();
    assert_eq!(s.is_program_deployed(Some(true)), Ok(true));
    let p = s.get_or_create_program_instance_account(true).unwrap();
    assert!(matches!(p, Provisioning::Present(_)));
    assert_eq!(p.address(), expected_address());
    assert_eq!(s.stage(), Stage::AccountReady);
    assert_eq!(s.record_submission(true), Ok(()));
    let m = s.add_to_counter().unwrap();
    assert_eq!(m.account, expected_address());
    assert_eq!(s.record_submission(true), Ok(()));
    assert_eq!(s.stage(), Stage::MutationSubmitted);
}

#[test]
fn second_run_finds_the_account_created_by_the_first() {
    let mut ledger: Vec<[u8; 32]> = Vec::new();
    let mut created = 0;
    for _ in 0..2 {
        let mut s = service();
        s.connect(true, true).unwrap();
        s.is_program_deployed(Some(true)).unwrap();
        let address = s.resolve_instance_address().unwrap();
        let present = ledger.contains(&address);
        match s.get_or_create_program_instance_account(present).unwrap() {
            Provisioning::Absent(a) => {
                ledger.push(a);
                created += 1;
                s.record_creation(CreationOutcome::Created).unwrap();
            }
            Provisioning::Present(_) => {}
        }
        s.record_submission(true).unwrap();
    }
    assert_eq!(created, 1);
    assert_eq!(ledger.len(), 1);
}

#[test]
fn creation_race_is_benign_and_other_failures_are_not() {
    let mut s = service();
    s.connect(true, true).unwrap();
    s.is_program_deployed(Some(true)).unwrap();
    s.get_or_create_program_instance_account(false).unwrap();
    assert_eq!(s.record_creation(CreationOutcome::Failed), Err(ProtocolError::TransactionRejected));
    assert_eq!(s.stage(), Stage::AccountResolved { present: false });
    assert!(matches!(s.add_to_counter(), Err(ProtocolError::InstanceAccountNotReady)));
    assert_eq!(s.record_creation(CreationOutcome::AlreadyExists), Ok(()));
    assert_eq!(s.stage(), Stage::AccountReady);
}

#[test]
fn rejected_mutation_keeps_account_ready() {
    let mut s = service();
    s.connect(true, true).unwrap();
    s.is_program_deployed(Some(true)).unwrap();
    assert_eq!(s.record_submission(true), Err(ProtocolError::InstanceAccountNotReady));
    s.get_or_create_program_instance_account(true).unwrap();
    assert_eq!(s.record_submission(false), Err(ProtocolError::TransactionRejected));
    assert_eq!(s.stage(), Stage::AccountReady);
}

#[test]
fn recheck_withdraws_confirmation() {
    let mut s = service();
    s.connect(true, true).unwrap();
    s.is_program_deployed(Some(true)).unwrap();
    s.get_or_create_program_instance_account(true).unwrap();
    assert_eq!(s.is_program_deployed(Some(true)), Ok(true));
    assert_eq!(s.stage(), Stage::AccountReady);
    assert_eq!(s.is_program_deployed(Some(false)), Ok(false));
    assert_eq!(s.stage(), Stage::Connected);
    assert!(s.add_to_counter().is_err());
}

#[test]
fn marked_program_fails_resolution() {
    let mut s = SolanaService::new(String::new(), PAYER, marked_program());
    s.connect(true, true).unwrap();
    s.is_program_deployed(Some(true)).unwrap();
    assert_eq!(s.resolve_instance_address(), Err(ProtocolError::AccountDerivationFailure));
}
