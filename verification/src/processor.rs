use vstd::prelude::*;
use crate::account::AccountRef;
use crate::custody::{
    custody_service, custody_service_id, derive_authority, derived_authority, handoff_instruction,
    spec_handoff, Instruction, InstructionView,
};
use crate::error::EscrowError;
use crate::identity::Identity;
use crate::instruction::EscrowInstruction;
use crate::rent;
use crate::state::{Escrow, EscrowView};

verus! {

/// An initialization that has met every rule and waits for the custody
/// service: the record to persist and the one delegation to issue.
#[derive(Clone, Debug, PartialEq, Eq)]
pub struct Pending {
    /// The record that is persisted once the delegation has completed.
    pub record: Escrow,
    /// The delegation that the caller is to issue to the custody service.
    pub delegation: Instruction,
}

/// A pending initialization as plain values.
pub struct PendingView {
    pub record: EscrowView,
    pub delegation: InstructionView,
}

impl View for Pending {
    type V = PendingView;

    open spec fn view(&self) -> PendingView {
        PendingView { record: self.record@, delegation: self.delegation@ }
    }
}

/// How the custody service answered the delegation call.
#[derive(Clone, Copy, Debug, PartialEq, Eq, Structural)]
pub enum DelegationOutcome {
    /// The holding account now belongs to the derived authority.
    Completed,
    /// The call failed and changed nothing.
    Failed,
}

/// The escrow program's rules: what a call is answered with, what it stages
/// and what it writes.
///
/// The account references of a call are read by position: 0 the initializer,
/// 1 the holding account, 2 the receiving account, 3 the record storage, 4
/// the rent oracle, 5 the custody service. A position is asked for only where
/// the rules before it are met.
pub struct Processor;

impl Processor {
    /// The rules on the parties: the initializer has signed, and the
    /// receiving account is controlled by the custody service
    /// `custody_service`. The first broken rule is the answer; a list that
    /// ends before a position that is asked for is a `MissingAccount`.
    pub open spec fn spec_check_parties(accounts: Seq<AccountRef>, custody_service: Seq<u8>) -> Result<
        (),
        EscrowError,
    > {
        if accounts.len() < 1 {
            Err(EscrowError::MissingAccount)
        } else if !accounts[0].is_signer {
            Err(EscrowError::MissingSignature)
        } else if accounts.len() < 3 {
            Err(EscrowError::MissingAccount)
        } else if accounts[2].owner@ != custody_service {
            Err(EscrowError::WrongCustodyService)
        } else if accounts.len() < 5 {
            Err(EscrowError::MissingAccount)
        } else {
            Ok(())
        }
    }

    /// The rules on the record storage, given the rent oracle's answer
    /// `exempt`: the oracle can be read and says that the storage is exempt
    /// from rent, the storage has the size of a record, and it holds no
    /// initialized record.
    pub open spec fn spec_check_storage(stored: Seq<u8>, exempt: Result<bool, EscrowError>) -> Result<
        (),
        EscrowError,
    > {
        match exempt {
            Err(e) => Err(e),
            Ok(false) => Err(EscrowError::NotRentExempt),
            Ok(true) => if stored.len() != Escrow::LEN {
                Err(EscrowError::InvalidRecordStorage)
            } else if EscrowView::decode(stored).is_initialized {
                Err(EscrowError::AlreadyInitialized)
            } else {
                Ok(())
            },
        }
    }

    /// What is staged, given the derived authority `authority`: the record
    /// of the three identities and the amount, marked initialized, and the
    /// handoff of the holding account from the initializer to the authority.
    /// Nothing is staged where no authority could be derived or where
    /// position 5 does not name the custody service.
    pub open spec fn spec_stage(
        accounts: Seq<AccountRef>,
        amount: u64,
        authority: Option<Seq<u8>>,
    ) -> Result<PendingView, EscrowError> {
        if accounts.len() < 3 {
            Err(EscrowError::MissingAccount)
        } else if authority is None {
            Err(EscrowError::NoDerivedAuthority)
        } else if accounts.len() < 6 {
            Err(EscrowError::MissingAccount)
        } else if accounts[5].key@ != custody_service_id() {
            Err(EscrowError::WrongCustodyService)
        } else {
            Ok(
                PendingView {
                    record: EscrowView {
                        is_initialized: true,
                        initializer_pubkey: accounts[0].key@,
                        temp_token_account_pubkey: accounts[1].key@,
                        initializer_token_to_receive_account_pubkey: accounts[2].key@,
                        expected_amount: amount,
                    },
                    delegation: spec_handoff(
                        accounts[1].key@,
                        authority.unwrap(),
                        accounts[0].key@,
                    ),
                },
            )
        }
    }

    /// Whether the rent oracle at position 4 lets the balance of the record
    /// storage at position 3 exempt its bytes from rent.
    pub open spec fn storage_exempt(accounts: Seq<AccountRef>) -> Result<bool, EscrowError>
        recommends
            accounts.len() >= 5,
    {
        rent::spec_is_exempt(
            accounts[4].key@,
            accounts[4].data@,
            accounts[3].lamports,
            accounts[3].data@.len(),
        )
    }

    /// The answer to an initialization: the first broken rule, in the order
    /// parties, record storage, staging; or what is staged.
    pub open spec fn spec_init_escrow(
        accounts: Seq<AccountRef>,
        amount: u64,
        program_id: Seq<u8>,
    ) -> Result<PendingView, EscrowError> {
        match Self::spec_check_parties(accounts, custody_service_id()) {
            Err(e) => Err(e),
            Ok(_) => match Self::spec_check_storage(
                accounts[3].data@,
                Self::storage_exempt(accounts),
            ) {
                Err(e) => Err(e),
                Ok(_) => Self::spec_stage(accounts, amount, derived_authority(program_id)),
            },
        }
    }

    /// The answer to a call: a payload that does not decode is refused before
    /// any account is looked at; one that decodes is handed to its operation.
    pub open spec fn spec_process(
        program_id: Seq<u8>,
        accounts: Seq<AccountRef>,
        instruction_data: Seq<u8>,
    ) -> Result<PendingView, EscrowError> {
        match EscrowInstruction::spec_unpack(instruction_data) {
            Err(e) => Err(e),
            Ok(EscrowInstruction::InitEscrow { amount }) => Self::spec_init_escrow(
                accounts,
                amount,
                program_id,
            ),
        }
    }

    /// How settling ends: with `DelegationFailed` where the delegation
    /// failed; with `InvalidRecordStorage` where the storage cannot hold a
    /// record; else well.
    pub open spec fn settle_result(outcome: DelegationOutcome, storage: Seq<u8>) -> Result<
        (),
        EscrowError,
    > {
        if outcome is Failed {
            Err(EscrowError::DelegationFailed)
        } else if storage.len() != Escrow::LEN {
            Err(EscrowError::InvalidRecordStorage)
        } else {
            Ok(())
        }
    }

    /// The bytes of the record storage after settling: the staged record
    /// where settling ends well, and the bytes it had in every other case.
    pub open spec fn settled_storage(
        pending: PendingView,
        outcome: DelegationOutcome,
        storage: Seq<u8>,
    ) -> Seq<u8> {
        if Self::settle_result(outcome, storage) is Ok {
            pending.record.encode()
        } else {
            storage
        }
    }

    /// Decodes the payload and runs the operation it names on the account
    /// references. Nothing is written: an accepted call returns what is
    /// staged, for the caller to issue the delegation and to `settle`.
    pub fn process(program_id: &Identity, accounts: &[AccountRef], instruction_data: &[u8]) -> (r:
        Result<Pending, EscrowError>)
        ensures
            match r {
                Ok(pending) => Self::spec_process(program_id@, accounts@, instruction_data@) == Ok::<
                    PendingView,
                    EscrowError,
                >(pending@),
                Err(e) => Self::spec_process(program_id@, accounts@, instruction_data@) == Err::<
                    PendingView,
                    EscrowError,
                >(e),
            },
    {
        match EscrowInstruction::unpack(instruction_data) {
            Err(e) => Err(e),
            Ok(EscrowInstruction::InitEscrow { amount }) => Self::process_init_escrow(
                accounts,
                amount,
                program_id,
            ),
        }
    }

    /// Runs an initialization: the rules on the parties, then the rent
    /// oracle's answer and the rules on the record storage, then the derived
    /// authority and the staging. The first broken rule ends it.
    pub fn process_init_escrow(accounts: &[AccountRef], amount: u64, program_id: &Identity) -> (r:
        Result<Pending, EscrowError>)
        ensures
            match r {
                Ok(pending) => Self::spec_init_escrow(accounts@, amount, program_id@) == Ok::<
                    PendingView,
                    EscrowError,
                >(pending@),
                Err(e) => Self::spec_init_escrow(accounts@, amount, program_id@) == Err::<
                    PendingView,
                    EscrowError,
                >(e),
            },
    {
        let custody = custody_service();
        match Self::check_parties(accounts, &custody) {
            Err(e) => {
                return Err(e);
            },
            Ok(_) => {},
        }
        let escrow_account = &accounts[3];
        let exempt = rent::is_exempt(
            &accounts[4],
            escrow_account.lamports,
            escrow_account.data.len(),
        );
        match Self::check_storage(escrow_account.data, exempt) {
            Err(e) => {
                return Err(e);
            },
            Ok(_) => {},
        }
        Self::stage(accounts, amount, derive_authority(program_id))
    }

    /// Checks the rules on the parties against the custody service's
    /// identity.
    pub fn check_parties(accounts: &[AccountRef], custody_service: &Identity) -> (r: Result<
        (),
        EscrowError,
    >)
        ensures
            r == Self::spec_check_parties(accounts@, custody_service@),
    {
        if accounts.len() < 1 {
            return Err(EscrowError::MissingAccount);
        }
        let initializer = &accounts[0];
        if !initializer.is_signer {
            return Err(EscrowError::MissingSignature);
        }
        if accounts.len() < 3 {
            return Err(EscrowError::MissingAccount);
        }
        let token_to_receive_account = &accounts[2];
        if token_to_receive_account.owner != *custody_service {
            return Err(EscrowError::WrongCustodyService);
        }
        if accounts.len() < 5 {
            return Err(EscrowError::MissingAccount);
        }
        Ok(())
    }

    /// Checks the rules on the record storage, given the rent oracle's
    /// answer.
    pub fn check_storage(stored: &[u8], exempt: Result<bool, EscrowError>) -> (r: Result<
        (),
        EscrowError,
    >)
        ensures
            r == Self::spec_check_storage(stored@, exempt),
    {
        match exempt {
            Err(e) => {
                return Err(e);
            },
            Ok(false) => {
                return Err(EscrowError::NotRentExempt);
            },
            Ok(true) => {},
        }
        let escrow_info = match Escrow::unpack_unchecked(stored) {
            Err(e) => {
                return Err(e);
            },
            Ok(found) => found,
        };
        if escrow_info.is_initialized() {
            return Err(EscrowError::AlreadyInitialized);
        }
        Ok(())
    }

    /// Stages the record and the delegation, given the derived authority.
    pub fn stage(accounts: &[AccountRef], amount: u64, authority: Option<Identity>) -> (r: Result<
        Pending,
        EscrowError,
    >)
        ensures
            match r {
                Ok(pending) => Self::spec_stage(accounts@, amount, authority.deep_view())
                    == Ok::<PendingView, EscrowError>(pending@),
                Err(e) => Self::spec_stage(accounts@, amount, authority.deep_view()) == Err::<
                    PendingView,
                    EscrowError,
                >(e),
            },
    {
        if accounts.len() < 3 {
            return Err(EscrowError::MissingAccount);
        }
        let initializer = &accounts[0];
        let temp_token_account = &accounts[1];
        let token_to_receive_account = &accounts[2];
        let escrow_info = Escrow {
            is_initialized: true,
            initializer_pubkey: initializer.key,
            temp_token_account_pubkey: temp_token_account.key,
            initializer_token_to_receive_account_pubkey: token_to_receive_account.key,
            expected_amount: amount,
        };
        let authority = match authority {
            None => {
                return Err(EscrowError::NoDerivedAuthority);
            },
            Some(authority) => authority,
        };
        if accounts.len() < 6 {
            return Err(EscrowError::MissingAccount);
        }
        let token_program = &accounts[5];
        let delegation = match handoff_instruction(
            &token_program.key,
            &temp_token_account.key,
            &authority,
            &initializer.key,
        ) {
            Err(e) => {
                return Err(e);
            },
            Ok(built) => built,
        };
        Ok(Pending { record: escrow_info, delegation })
    }

    /// Ends an accepted call once the custody service has answered. Where the
    /// delegation completed, the staged record is written to `storage`, and
    /// reads back as staged. Where it failed, the call fails with
    /// `DelegationFailed` and `storage` keeps every byte.
    pub fn settle(pending: Pending, outcome: DelegationOutcome, storage: &mut [u8]) -> (r: Result<
        (),
        EscrowError,
    >)
        ensures
            r == Self::settle_result(outcome, old(storage)@),
            final(storage)@ == Self::settled_storage(pending@, outcome, old(storage)@),
            r is Ok ==> EscrowView::decode(final(storage)@) == pending@.record,
    {
        proof {
            pending.record@.lemma_decode_encode();
        }
        match outcome {
            DelegationOutcome::Failed => Err(EscrowError::DelegationFailed),
            DelegationOutcome::Completed => Escrow::pack(pending.record, storage),
        }
    }
}

} // verus!
