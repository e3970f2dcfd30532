use escrow::account::AccountRef;
use escrow::custody::{AccountMeta, Instruction};
use escrow::error::EscrowError;
use escrow::identity::Identity;
use escrow::processor::{DelegationOutcome, Pending, Processor};
use escrow::state::Escrow;
use solana_program::pubkey::Pubkey;
use solana_program::sysvar::rent::Rent;
use spl_token::instruction::{set_authority, AuthorityType};

const INITIALIZER: [u8; 32] = [0xa1; 32];
const HOLDING: [u8; 32] = [0xa2; 32];
const RECEIVING: [u8; 32] = [0xa3; 32];
const RECORD: [u8; 32] = [0xa4; 32];
const PROGRAM: [u8; 32] = [0xe5; 32];
const SYSTEM: [u8; 32] = [0u8; 32];

/// What the six accounts of a call hold; `list` lends it out as references.
struct Ledger {
    signed: bool,
    receiving_owner: [u8; 32],
    record_balance: u64,
    record_data: Vec<u8>,
    rent_key: [u8; 32],
    rent_data: Vec<u8>,
    service_key: [u8; 32],
}

fn ledger() -> Ledger {
    Ledger {
        signed: true,
        receiving_owner: spl_token::id().to_bytes(),
        record_balance: Rent::default().minimum_balance(Escrow::LEN),
        record_data: vec![0u8; Escrow::LEN],
        rent_key: solana_program::sysvar::rent::id().to_bytes(),
        rent_data: bincode::serialize(&Rent::default()).unwrap(),
        service_key: spl_token::id().to_bytes(),
    }
}

fn account<'a>(
    key: [u8; 32],
    is_signer: bool,
    owner: [u8; 32],
    lamports: u64,
    data: &'a [u8],
) -> AccountRef<'a> {
    AccountRef { key: Identity::new(key), is_signer, owner: Identity::new(owner), lamports, data }
}

fn list(l: &Ledger) -> Vec<AccountRef<'_>> {
    let token = spl_token::id().to_bytes();
    vec![
        account(INITIALIZER, l.signed, SYSTEM, 5_000_000, &[]),
        account(HOLDING, false, token, 2_039_280, &[]),
        account(RECEIVING, false, l.receiving_owner, 2_039_280, &[]),
        account(RECORD, false, PROGRAM, l.record_balance, &l.record_data),
        account(l.rent_key, false, solana_program::sysvar::id().to_bytes(), 1_009_200, &l.rent_data),
        account(l.service_key, false, [3u8; 32], 1, &[]),
    ]
}

fn payload(amount: u64) -> Vec<u8> {
    let mut data = vec![0u8];
    data.extend_from_slice(&amount.to_le_bytes());
    data
}

fn process(l: &Ledger, amount: u64) -> Result<Pending, EscrowError> {
    Processor::process(&Identity::new(PROGRAM), &list(l), &payload(amount))
}

fn expected_record(amount: u64) -> Escrow {
    Escrow {
        is_initialized: true,
        initializer_pubkey: Identity::new(INITIALIZER),
        temp_token_account_pubkey: Identity::new(HOLDING),
        initializer_token_to_receive_account_pubkey: Identity::new(RECEIVING),
        expected_amount: amount,
    }
}

fn expected_delegation() -> Instruction {
    let (authority, _bump) =
        Pubkey::find_program_address(&[b"escrow"], &Pubkey::new_from_array(PROGRAM));
    let initializer = Pubkey::new_from_array(INITIALIZER);
    let built = set_authority(
        &spl_token::id(),
        &Pubkey::new_from_array(HOLDING),
        Some(&authority),
        AuthorityType::AccountOwner,
        &initializer,
        &[&initializer],
    )
    .unwrap();
    Instruction {
        program_id: Identity::new(built.program_id.to_bytes()),
        accounts: built
            .accounts
            .iter()
            .map(|m| AccountMeta::new(m.pubkey.to_bytes(), m.is_signer, m.is_writable))
            .collect(),
        data: built.data,
    }
}

#[test]
fn initialization_succeeds_end_to_end() {
    let mut l = ledger();
    let pending = process(&l, 1_000_000).unwrap();
    assert_eq!(pending.record, expected_record(1_000_000));
    assert_eq!(pending.delegation, expected_delegation());

    let (authority, _bump) =
        Pubkey::find_program_address(&[b"escrow"], &Pubkey::new_from_array(PROGRAM));
    assert_eq!(pending.delegation.program_id.bytes, spl_token::id().to_bytes());
    assert_eq!(pending.delegation.accounts[0], AccountMeta::new(HOLDING, false, true));
    assert_eq!(pending.delegation.accounts[2], AccountMeta::new(INITIALIZER, true, false));
    assert_eq!(&pending.delegation.data[..3], &[6u8, 2, 1]);
    assert_eq!(&pending.delegation.data[3..], &authority.to_bytes());

    assert_eq!(l.record_data, vec![0u8; Escrow::LEN]);
    let settled = Processor::settle(pending, DelegationOutcome::Completed, &mut l.record_data);
    assert_eq!(settled, Ok(()));

    let record = Escrow::unpack_unchecked(&l.record_data).unwrap();
    assert!(record.is_initialized);
    assert_eq!(record.expected_amount, 1_000_000);
    assert_eq!(record.initializer_pubkey, Identity::new(INITIALIZER));
    assert_eq!(record, expected_record(1_000_000));

    let mut stored = vec![1u8];
    stored.extend_from_slice(&INITIALIZER);
    stored.extend_from_slice(&HOLDING);
    stored.extend_from_slice(&RECEIVING);
    stored.extend_from_slice(&1_000_000u64.to_le_bytes());
    assert_eq!(l.record_data, stored);
}

#[test]
fn failed_delegation_fails_the_call_and_keeps_the_storage() {
    let mut l = ledger();
    l.record_data = (0..Escrow::LEN).map(|i| if i == 0 { 0 } else { i as u8 }).collect();
    let before = l.record_data.clone();
    let pending = process(&l, 1_000_000).unwrap();
    let settled = Processor::settle(pending, DelegationOutcome::Failed, &mut l.record_data);
    assert_eq!(settled, Err(EscrowError::DelegationFailed));
    assert_eq!(l.record_data, before);

    let mut fresh = ledger();
    let pending = process(&fresh, 1_000_000).unwrap();
    let settled = Processor::settle(pending, DelegationOutcome::Failed, &mut fresh.record_data);
    assert_eq!(settled, Err(EscrowError::DelegationFailed));
    assert_eq!(fresh.record_data, vec![0u8; Escrow::LEN]);
}

#[test]
fn a_failed_call_can_be_made_again() {
    let mut l = ledger();
    let pending = process(&l, 5).unwrap();
    assert_eq!(
        Processor::settle(pending, DelegationOutcome::Failed, &mut l.record_data),
        Err(EscrowError::DelegationFailed)
    );
    let pending = process(&l, 5).unwrap();
    assert_eq!(
        Processor::settle(pending, DelegationOutcome::Completed, &mut l.record_data),
        Ok(())
    );
    assert_eq!(Escrow::unpack_unchecked(&l.record_data), Ok(expected_record(5)));
}

#[test]
fn a_second_initialization_is_refused() {
    let mut l = ledger();
    let pending = process(&l, 1_000_000).unwrap();
    Processor::settle(pending, DelegationOutcome::Completed, &mut l.record_data).unwrap();
    let written = l.record_data.clone();
    assert_eq!(process(&l, 1_000_000), Err(EscrowError::AlreadyInitialized));
    assert_eq!(process(&l, 7), Err(EscrowError::AlreadyInitialized));
    assert_eq!(l.record_data, written);
    assert_eq!(Escrow::unpack_unchecked(&l.record_data), Ok(expected_record(1_000_000)));
}

#[test]
fn storage_marked_initialized_is_refused() {
    let mut l = ledger();
    l.record_data[0] = 1;
    assert_eq!(process(&l, 1), Err(EscrowError::AlreadyInitialized));
    l.record_data = vec![0xee; Escrow::LEN];
    l.record_data[0] = 1;
    assert_eq!(process(&l, 1), Err(EscrowError::AlreadyInitialized));
}

#[test]
fn garbage_in_unused_storage_is_tolerated() {
    let mut l = ledger();
    l.record_data = vec![0xee; Escrow::LEN];
    let pending = process(&l, 9).unwrap();
    assert_eq!(pending.record, expected_record(9));
    l.record_data[0] = 2;
    assert!(process(&l, 9).is_ok());
}

#[test]
fn an_unknown_tag_is_refused_before_the_accounts_are_read() {
    let l = ledger();
    let program = Identity::new(PROGRAM);
    let mut data = payload(1_000_000);
    data[0] = 1;
    assert_eq!(Processor::process(&program, &list(&l), &data), Err(EscrowError::DecodeError));
    assert_eq!(Processor::process(&program, &[], &data), Err(EscrowError::DecodeError));
    assert_eq!(Processor::process(&program, &[], &[]), Err(EscrowError::DecodeError));
    assert_eq!(Processor::process(&program, &list(&l), &[0, 1, 2]), Err(EscrowError::DecodeError));
    assert_eq!(
        Processor::process(&program, &[], &payload(1)),
        Err(EscrowError::MissingAccount)
    );
}

#[test]
fn an_unsigned_initializer_is_refused() {
    let mut l = ledger();
    l.signed = false;
    assert_eq!(process(&l, 1_000_000), Err(EscrowError::MissingSignature));
    assert_eq!(l.record_data, vec![0u8; Escrow::LEN]);
}

#[test]
fn the_signature_is_checked_first() {
    let mut l = ledger();
    l.signed = false;
    l.receiving_owner = [9u8; 32];
    l.record_balance = 0;
    l.record_data = vec![1u8; 3];
    l.rent_key = [8u8; 32];
    l.service_key = [7u8; 32];
    assert_eq!(process(&l, 1), Err(EscrowError::MissingSignature));
    let accounts = list(&l);
    let program = Identity::new(PROGRAM);
    assert_eq!(
        Processor::process_init_escrow(&accounts[..1], 1, &program),
        Err(EscrowError::MissingSignature)
    );
}

#[test]
fn a_foreign_receiving_account_is_refused() {
    let mut l = ledger();
    l.receiving_owner = SYSTEM;
    assert_eq!(process(&l, 1_000_000), Err(EscrowError::WrongCustodyService));
    let mut near = spl_token::id().to_bytes();
    near[0] ^= 0x80;
    l.receiving_owner = near;
    assert_eq!(process(&l, 1_000_000), Err(EscrowError::WrongCustodyService));
}

#[test]
fn the_receiving_account_is_checked_before_rent() {
    let mut l = ledger();
    l.receiving_owner = [9u8; 32];
    l.record_balance = 0;
    l.rent_key = [8u8; 32];
    assert_eq!(process(&l, 1), Err(EscrowError::WrongCustodyService));
}

#[test]
fn storage_that_is_not_rent_exempt_is_refused() {
    let mut l = ledger();
    l.record_balance = Rent::default().minimum_balance(Escrow::LEN) - 1;
    assert_eq!(process(&l, 1_000_000), Err(EscrowError::NotRentExempt));
    l.record_balance = 0;
    assert_eq!(process(&l, 1_000_000), Err(EscrowError::NotRentExempt));
    l.record_balance = 1_621_680;
    assert!(process(&l, 1_000_000).is_ok());
}

#[test]
fn rent_is_checked_before_the_record() {
    let mut l = ledger();
    l.record_balance = 0;
    l.record_data[0] = 1;
    assert_eq!(process(&l, 1), Err(EscrowError::NotRentExempt));
    l.record_data = vec![0u8; 10];
    assert_eq!(process(&l, 1), Err(EscrowError::NotRentExempt));
}

#[test]
fn an_account_that_is_not_the_rent_oracle_is_refused() {
    let mut l = ledger();
    l.rent_key = [8u8; 32];
    assert_eq!(process(&l, 1_000_000), Err(EscrowError::InvalidRentOracle));
    let mut l = ledger();
    l.rent_data = vec![1, 2, 3];
    assert_eq!(process(&l, 1_000_000), Err(EscrowError::InvalidRentOracle));
}

#[test]
fn storage_of_another_size_is_refused() {
    let mut l = ledger();
    l.record_data = vec![0u8; Escrow::LEN - 1];
    l.record_balance = u64::MAX;
    assert_eq!(process(&l, 1_000_000), Err(EscrowError::InvalidRecordStorage));
    l.record_data = vec![0u8; Escrow::LEN + 1];
    assert_eq!(process(&l, 1_000_000), Err(EscrowError::InvalidRecordStorage));
    l.record_data = vec![];
    assert_eq!(process(&l, 1_000_000), Err(EscrowError::InvalidRecordStorage));
}

#[test]
fn another_custody_service_is_refused() {
    let mut l = ledger();
    l.service_key = SYSTEM;
    assert_eq!(process(&l, 1_000_000), Err(EscrowError::WrongCustodyService));
    assert_eq!(l.record_data, vec![0u8; Escrow::LEN]);
}

#[test]
fn a_short_list_is_refused_where_it_ends() {
    let l = ledger();
    let accounts = list(&l);
    let program = Identity::new(PROGRAM);
    for len in 0..6 {
        assert_eq!(
            Processor::process_init_escrow(&accounts[..len], 1_000_000, &program),
            Err(EscrowError::MissingAccount)
        );
        assert_eq!(
            Processor::process(&program, &accounts[..len], &payload(1_000_000)),
            Err(EscrowError::MissingAccount)
        );
    }
    assert!(Processor::process_init_escrow(&accounts, 1_000_000, &program).is_ok());
}

#[test]
fn a_short_list_is_read_as_far_as_it_goes() {
    let mut l = ledger();
    l.receiving_owner = SYSTEM;
    let program = Identity::new(PROGRAM);
    {
        let accounts = list(&l);
        assert_eq!(
            Processor::process_init_escrow(&accounts[..3], 1, &program),
            Err(EscrowError::WrongCustodyService)
        );
        assert_eq!(
            Processor::process_init_escrow(&accounts[..2], 1, &program),
            Err(EscrowError::MissingAccount)
        );
    }
    let mut l = ledger();
    l.record_data[0] = 1;
    let accounts = list(&l);
    assert_eq!(
        Processor::process_init_escrow(&accounts[..5], 1, &program),
        Err(EscrowError::AlreadyInitialized)
    );
}

#[test]
fn further_accounts_are_ignored() {
    let l = ledger();
    let mut accounts = list(&l);
    accounts.push(account([0x77; 32], true, [0x78; 32], 0, &[]));
    let program = Identity::new(PROGRAM);
    let pending = Processor::process_init_escrow(&accounts, 3, &program).unwrap();
    assert_eq!(pending.record, expected_record(3));
    assert_eq!(pending.delegation, expected_delegation());
}

#[test]
fn the_amount_goes_into_the_record() {
    let l = ledger();
    for amount in [0u64, 1, 1_000_000, u64::MAX] {
        assert_eq!(process(&l, amount).unwrap().record.expected_amount, amount);
    }
}

#[test]
fn the_authority_depends_on_the_program() {
    let l = ledger();
    let accounts = list(&l);
    let first = Processor::process_init_escrow(&accounts, 1, &Identity::new([1u8; 32])).unwrap();
    let second = Processor::process_init_escrow(&accounts, 1, &Identity::new([2u8; 32])).unwrap();
    assert_ne!(first.delegation.data, second.delegation.data);
    let (authority, _) =
        Pubkey::find_program_address(&[b"escrow"], &Pubkey::new_from_array([2u8; 32]));
    assert_eq!(&second.delegation.data[3..], &authority.to_bytes());
}

#[test]
fn check_parties_names_the_first_broken_rule() {
    let service = Identity::new(spl_token::id().to_bytes());
    let mut l = ledger();
    assert_eq!(Processor::check_parties(&list(&l), &service), Ok(()));
    assert_eq!(Processor::check_parties(&[], &service), Err(EscrowError::MissingAccount));
    assert_eq!(
        Processor::check_parties(&list(&l), &Identity::new([1u8; 32])),
        Err(EscrowError::WrongCustodyService)
    );
    l.signed = false;
    assert_eq!(Processor::check_parties(&list(&l), &service), Err(EscrowError::MissingSignature));
}

#[test]
fn check_storage_names_the_first_broken_rule() {
    let fresh = [0u8; 105];
    let mut used = [0u8; 105];
    used[0] = 1;
    assert_eq!(Processor::check_storage(&fresh, Ok(true)), Ok(()));
    assert_eq!(Processor::check_storage(&fresh, Ok(false)), Err(EscrowError::NotRentExempt));
    assert_eq!(
        Processor::check_storage(&fresh, Err(EscrowError::InvalidRentOracle)),
        Err(EscrowError::InvalidRentOracle)
    );
    assert_eq!(Processor::check_storage(&used, Ok(true)), Err(EscrowError::AlreadyInitialized));
    assert_eq!(Processor::check_storage(&used, Ok(false)), Err(EscrowError::NotRentExempt));
    assert_eq!(
        Processor::check_storage(&fresh[..104], Ok(true)),
        Err(EscrowError::InvalidRecordStorage)
    );
}

#[test]
fn stage_needs_an_authority() {
    let l = ledger();
    let accounts = list(&l);
    assert_eq!(Processor::stage(&accounts, 1, None), Err(EscrowError::NoDerivedAuthority));
    assert_eq!(
        Processor::stage(&accounts[..5], 1, None),
        Err(EscrowError::NoDerivedAuthority)
    );
    assert_eq!(
        Processor::stage(&accounts[..5], 1, Some(Identity::new([4u8; 32]))),
        Err(EscrowError::MissingAccount)
    );
    assert_eq!(Processor::stage(&accounts[..2], 1, None), Err(EscrowError::MissingAccount));
    let pending = Processor::stage(&accounts, 1, Some(Identity::new([4u8; 32]))).unwrap();
    assert_eq!(pending.record, expected_record(1));
    assert_eq!(&pending.delegation.data[3..], &[4u8; 32]);
}

#[test]
fn settle_refuses_storage_of_another_size() {
    let l = ledger();
    let pending = process(&l, 1).unwrap();
    let mut short = vec![9u8; 104];
    assert_eq!(
        Processor::settle(pending.clone(), DelegationOutcome::Completed, &mut short),
        Err(EscrowError::InvalidRecordStorage)
    );
    assert_eq!(short, vec![9u8; 104]);
    assert_eq!(
        Processor::settle(pending, DelegationOutcome::Failed, &mut short),
        Err(EscrowError::DelegationFailed)
    );
    assert_eq!(short, vec![9u8; 104]);
}
