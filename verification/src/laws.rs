use vstd::prelude::*;
use crate::account::AccountRef;
use crate::custody::{custody_service_id, derived_authority, spec_handoff, InstructionView};
use crate::error::EscrowError;
use crate::instruction::INIT_ESCROW_TAG;
use crate::processor::{DelegationOutcome, PendingView, Processor};
use crate::state::{Escrow, EscrowView};

verus! {

/// The delegation calls that an answer has the caller issue: the staged one
/// where the call is accepted, none where it is refused.
pub open spec fn delegations(answer: Result<PendingView, EscrowError>) -> Seq<InstructionView> {
    match answer {
        Ok(pending) => seq![pending.delegation],
        Err(_) => Seq::empty(),
    }
}

/// The bytes of the record storage once a call has run its course: a refused
/// call ends with its answer and writes nothing; an accepted one is settled
/// with what the custody service answered.
pub open spec fn storage_after(
    answer: Result<PendingView, EscrowError>,
    outcome: DelegationOutcome,
    storage: Seq<u8>,
) -> Seq<u8> {
    match answer {
        Ok(pending) => Processor::settled_storage(pending, outcome, storage),
        Err(_) => storage,
    }
}

/// A payload whose first byte is no known operation tag is refused with
/// `DecodeError`, whatever the accounts are: no operation is run, nothing is
/// staged and nothing is written.
pub proof fn unknown_tag_is_refused(
    program_id: Seq<u8>,
    accounts: Seq<AccountRef>,
    instruction_data: Seq<u8>,
    outcome: DelegationOutcome,
    storage: Seq<u8>,
)
    requires
        instruction_data.len() >= 1,
        instruction_data[0] != INIT_ESCROW_TAG,
    ensures
        Processor::spec_process(program_id, accounts, instruction_data) == Err::<
            PendingView,
            EscrowError,
        >(EscrowError::DecodeError),
        delegations(Processor::spec_process(program_id, accounts, instruction_data)).len() == 0,
        storage_after(
            Processor::spec_process(program_id, accounts, instruction_data),
            outcome,
            storage,
        ) == storage,
{
}

/// An initialization whose initializer has not signed is refused with
/// `MissingSignature`, and the record storage keeps its bytes.
pub proof fn unsigned_initializer_is_refused(
    accounts: Seq<AccountRef>,
    amount: u64,
    program_id: Seq<u8>,
    outcome: DelegationOutcome,
    storage: Seq<u8>,
)
    requires
        accounts.len() >= 1,
        !accounts[0].is_signer,
    ensures
        Processor::spec_init_escrow(accounts, amount, program_id) == Err::<
            PendingView,
            EscrowError,
        >(EscrowError::MissingSignature),
        storage_after(Processor::spec_init_escrow(accounts, amount, program_id), outcome, storage)
            == storage,
{
}

/// An initialization by a signed initializer whose receiving account is
/// controlled by another program than the custody service is refused with
/// `WrongCustodyService`, and no delegation is issued.
pub proof fn foreign_receiving_account_is_refused(
    accounts: Seq<AccountRef>,
    amount: u64,
    program_id: Seq<u8>,
)
    requires
        accounts.len() >= 3,
        accounts[0].is_signer,
        accounts[2].owner@ != custody_service_id(),
    ensures
        Processor::spec_init_escrow(accounts, amount, program_id) == Err::<
            PendingView,
            EscrowError,
        >(EscrowError::WrongCustodyService),
        delegations(Processor::spec_init_escrow(accounts, amount, program_id)).len() == 0,
{
}

/// An initialization that meets the rules on the parties, and whose record
/// storage the rent oracle does not find exempt, is refused with
/// `NotRentExempt`.
pub proof fn unfunded_storage_is_refused(
    accounts: Seq<AccountRef>,
    amount: u64,
    program_id: Seq<u8>,
)
    requires
        Processor::spec_check_parties(accounts, custody_service_id()) is Ok,
        Processor::storage_exempt(accounts) == Ok::<bool, EscrowError>(false),
    ensures
        Processor::spec_init_escrow(accounts, amount, program_id) == Err::<
            PendingView,
            EscrowError,
        >(EscrowError::NotRentExempt),
{
}

/// An initialization that meets the rules on the parties and on rent, and
/// whose record storage is marked initialized, is refused with
/// `AlreadyInitialized`, and the record keeps every byte.
pub proof fn initialized_record_is_refused(
    accounts: Seq<AccountRef>,
    amount: u64,
    program_id: Seq<u8>,
    outcome: DelegationOutcome,
)
    requires
        Processor::spec_check_parties(accounts, custody_service_id()) is Ok,
        Processor::storage_exempt(accounts) == Ok::<bool, EscrowError>(true),
        accounts[3].data@.len() == Escrow::LEN,
        accounts[3].data@[0] == 1,
    ensures
        Processor::spec_init_escrow(accounts, amount, program_id) == Err::<
            PendingView,
            EscrowError,
        >(EscrowError::AlreadyInitialized),
        storage_after(
            Processor::spec_init_escrow(accounts, amount, program_id),
            outcome,
            accounts[3].data@,
        ) == accounts[3].data@,
{
}

/// A record is initialized once: the storage that a settled initialization
/// has written refuses every later initialization.
pub proof fn settled_record_refuses_initialization(
    first: PendingView,
    accounts: Seq<AccountRef>,
    amount: u64,
    program_id: Seq<u8>,
)
    requires
        first.record.well_formed(),
        first.record.is_initialized,
        accounts.len() >= 4,
        accounts[3].data@ == first.record.encode(),
    ensures
        Processor::spec_init_escrow(accounts, amount, program_id) is Err,
        Processor::spec_check_parties(accounts, custody_service_id()) is Ok
            && Processor::storage_exempt(accounts) == Ok::<bool, EscrowError>(true)
            ==> Processor::spec_init_escrow(accounts, amount, program_id) == Err::<
            PendingView,
            EscrowError,
        >(EscrowError::AlreadyInitialized),
{
    first.record.lemma_decode_encode();
}

/// An accepted initialization has met every rule: the initializer signed,
/// the receiving account and the reference at position 5 belong to the
/// custody service, the record storage is exempt from rent, has the size of
/// a record and was not initialized.
pub proof fn accepted_call_met_every_rule(
    accounts: Seq<AccountRef>,
    amount: u64,
    program_id: Seq<u8>,
)
    requires
        Processor::spec_init_escrow(accounts, amount, program_id) is Ok,
    ensures
        accounts.len() >= 6,
        accounts[0].is_signer,
        accounts[2].owner@ == custody_service_id(),
        accounts[5].key@ == custody_service_id(),
        Processor::storage_exempt(accounts) == Ok::<bool, EscrowError>(true),
        accounts[3].data@.len() == Escrow::LEN,
        !EscrowView::decode(accounts[3].data@).is_initialized,
        derived_authority(program_id) is Some,
{
}

/// A list of fewer than six account references is refused.
pub proof fn short_list_is_refused(accounts: Seq<AccountRef>, amount: u64, program_id: Seq<u8>)
    requires
        accounts.len() < 6,
    ensures
        Processor::spec_init_escrow(accounts, amount, program_id) is Err,
{
}

/// An accepted initialization stages the record of the call, marked
/// initialized, and issues exactly one delegation: the handoff of the
/// holding account from the initializer to the authority derived for the
/// program.
pub proof fn accepted_call_stages_one_handoff(
    accounts: Seq<AccountRef>,
    amount: u64,
    program_id: Seq<u8>,
)
    requires
        Processor::spec_init_escrow(accounts, amount, program_id) is Ok,
    ensures
        ({
            let answer = Processor::spec_init_escrow(accounts, amount, program_id);
            let pending = answer.unwrap();
            &&& pending.record.is_initialized
            &&& pending.record.expected_amount == amount
            &&& pending.record.initializer_pubkey == accounts[0].key@
            &&& pending.record.temp_token_account_pubkey == accounts[1].key@
            &&& pending.record.initializer_token_to_receive_account_pubkey == accounts[2].key@
            &&& delegations(answer) == seq![
                spec_handoff(
                    accounts[1].key@,
                    derived_authority(program_id).unwrap(),
                    accounts[0].key@,
                ),
            ]
        }),
{
}

/// An accepted initialization whose delegation completed settles well on the
/// record storage that it was accepted for, and the storage then reads as
/// the staged record.
pub proof fn accepted_call_settles_on_its_storage(
    accounts: Seq<AccountRef>,
    amount: u64,
    program_id: Seq<u8>,
)
    requires
        Processor::spec_init_escrow(accounts, amount, program_id) is Ok,
    ensures
        ({
            let pending = Processor::spec_init_escrow(accounts, amount, program_id).unwrap();
            let storage = accounts[3].data@;
            &&& Processor::settle_result(DelegationOutcome::Completed, storage) == Ok::<
                (),
                EscrowError,
            >(())
            &&& EscrowView::decode(
                Processor::settled_storage(pending, DelegationOutcome::Completed, storage),
            ) == pending.record
        }),
{
    let pending = Processor::spec_init_escrow(accounts, amount, program_id).unwrap();
    pending.record.lemma_decode_encode();
}

/// The record and the handoff take effect together or not at all: where the
/// delegation failed, settling fails with `DelegationFailed` and the record
/// storage keeps every byte; where it completed and the storage has the size
/// of a record, settling ends well and the storage holds the staged record.
pub proof fn settling_is_all_or_nothing(
    pending: PendingView,
    outcome: DelegationOutcome,
    storage: Seq<u8>,
)
    ensures
        outcome is Failed ==> Processor::settle_result(outcome, storage) == Err::<(), EscrowError>(
            EscrowError::DelegationFailed,
        ) && Processor::settled_storage(pending, outcome, storage) == storage,
        outcome is Completed && storage.len() == Escrow::LEN ==> Processor::settle_result(
            outcome,
            storage,
        ) == Ok::<(), EscrowError>(()) && Processor::settled_storage(pending, outcome, storage)
            == pending.record.encode(),
        Processor::settle_result(outcome, storage) is Err ==> Processor::settled_storage(
            pending,
            outcome,
            storage,
        ) == storage,
{
}

} // verus!
