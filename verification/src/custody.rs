use vstd::prelude::*;
use crate::error::EscrowError;
use crate::identity::Identity;
use solana_program::program_error::ProgramError;
use solana_program::pubkey::Pubkey;
use spl_token::instruction::AuthorityType;

verus! {

/// Which authority over a mint or an account a change of authority is about.
#[derive(Clone, Copy, Debug, PartialEq, Eq, Structural)]
pub enum AuthorityKind {
    MintTokens,
    FreezeAccount,
    AccountOwner,
    CloseAccount,
}

/// One account that an instruction touches.
#[derive(Clone, Copy, Debug, PartialEq, Eq)]
pub struct AccountMeta {
    pub pubkey: Identity,
    pub is_signer: bool,
    pub is_writable: bool,
}

/// An account of an instruction as plain values.
pub struct AccountMetaView {
    pub pubkey: Seq<u8>,
    pub is_signer: bool,
    pub is_writable: bool,
}

impl AccountMeta {
    /// The account `pubkey` with its two marks.
    pub fn new(pubkey: [u8; 32], is_signer: bool, is_writable: bool) -> (r: AccountMeta)
        ensures
            r@ == (AccountMetaView { pubkey: pubkey@, is_signer, is_writable }),
    {
        AccountMeta { pubkey: Identity::new(pubkey), is_signer, is_writable }
    }
}

impl View for AccountMeta {
    type V = AccountMetaView;

    open spec fn view(&self) -> AccountMetaView {
        AccountMetaView {
            pubkey: self.pubkey@,
            is_signer: self.is_signer,
            is_writable: self.is_writable,
        }
    }
}

/// A call to another program: the program, the accounts it is to touch and
/// the payload.
#[derive(Clone, Debug, PartialEq, Eq)]
pub struct Instruction {
    pub program_id: Identity,
    pub accounts: Vec<AccountMeta>,
    pub data: Vec<u8>,
}

/// An instruction as plain values.
pub struct InstructionView {
    pub program_id: Seq<u8>,
    pub accounts: Seq<AccountMetaView>,
    pub data: Seq<u8>,
}

impl View for Instruction {
    type V = InstructionView;

    open spec fn view(&self) -> InstructionView {
        InstructionView {
            program_id: self.program_id@,
            accounts: Seq::new(self.accounts@.len(), |i: int| self.accounts@[i]@),
            data: self.data@,
        }
    }
}

/// The bytes of the identity of the asset-custody service, the token program
/// `TokenkegQfeZyiNwAJbNbGKPFXCWuBvf9Ss623VQ5DA`.
pub const CUSTODY_SERVICE_ID: [u8; 32] = [
    6, 221, 246, 225, 215, 101, 161, 147, 217, 203, 225, 70, 206, 235, 121, 172,
    28, 180, 133, 237, 95, 91, 55, 145, 58, 140, 245, 133, 126, 255, 0, 169,
];

/// The domain tag from which the escrow's authority is derived: the bytes of
/// the word "escrow".
pub const AUTHORITY_SEED: [u8; 6] = [101, 115, 99, 114, 111, 119];

/// The identity of the asset-custody service.
pub open spec fn custody_service_id() -> Seq<u8> {
    CUSTODY_SERVICE_ID@
}

/// The domain tag from which the escrow's authority is derived.
pub open spec fn authority_seed() -> Seq<u8> {
    AUTHORITY_SEED@
}

/// The address that the program-address search finds for one seed and a
/// program, with the bump seed that gave it, or `None` where the search finds
/// none.
pub uninterp spec fn program_address(seed: Seq<u8>, program_id: Seq<u8>) -> Option<(Seq<u8>, u8)>;

/// The authority that the program itself holds over escrowed accounts: the
/// address derived from the tag "escrow" and the program's identity.
pub open spec fn derived_authority(program_id: Seq<u8>) -> Option<Seq<u8>> {
    match program_address(authority_seed(), program_id) {
        Some((address, _)) => Some(address),
        None => None,
    }
}

/// The number that stands for a kind of authority in a payload.
pub open spec fn authority_tag(kind: AuthorityKind) -> u8 {
    match kind {
        AuthorityKind::MintTokens => 0,
        AuthorityKind::FreezeAccount => 1,
        AuthorityKind::AccountOwner => 2,
        AuthorityKind::CloseAccount => 3,
    }
}

/// The instruction that asks the custody service `service` to hand the
/// authority of kind `kind` over `owned` from `owner` to `new_authority`, with
/// `signer` as the one party that signs for it: `owned` is writable, `owner`
/// is read and does not sign in its own place, `signer` signs; the payload is
/// the tag 6, the kind, the marker 1 and the new authority.
pub open spec fn authority_change(
    service: Seq<u8>,
    owned: Seq<u8>,
    new_authority: Seq<u8>,
    kind: AuthorityKind,
    owner: Seq<u8>,
    signer: Seq<u8>,
) -> InstructionView {
    InstructionView {
        program_id: service,
        accounts: seq![
            AccountMetaView { pubkey: owned, is_signer: false, is_writable: true },
            AccountMetaView { pubkey: owner, is_signer: false, is_writable: false },
            AccountMetaView { pubkey: signer, is_signer: true, is_writable: false },
        ],
        data: seq![6u8, authority_tag(kind), 1u8] + new_authority,
    }
}

/// `solana_program::program_error::ProgramError`: the reason that an outside
/// call gives for a refusal. It is carried, never looked into.
#[verifier::external_type_specification]
#[verifier::external_body]
pub struct ExProgramError(ProgramError);

/// `spl_token::id`: the identity of the token program, which is the constant
/// `custody_service_id`.
#[verifier::external_body]
fn token_program_id() -> (r: Identity)
    ensures
        r@ == custody_service_id(),
{
    Identity::new(spl_token::id().to_bytes())
}

/// `Pubkey::try_find_program_address` with the one seed `seed`: the address
/// and bump seed it finds are named by `program_address`. The search returns
/// `None` instead of failing when it finds nothing.
#[verifier::external_body]
fn try_find_program_address(seed: &[u8], program_id: &Identity) -> (r: Option<(Identity, u8)>)
    ensures
        match r {
            Some((address, bump)) => program_address(seed@, program_id@) == Some((address@, bump)),
            None => program_address(seed@, program_id@) is None,
        },
{
    match Pubkey::try_find_program_address(&[seed], &Pubkey::from(program_id.bytes)) {
        Some((address, bump)) => Some((Identity::new(address.to_bytes()), bump)),
        None => None,
    }
}

/// `spl_token::instruction::set_authority` with `Some(new_authority)` and the
/// one signer `signer`. It refuses every program but the token program, and
/// otherwise builds the instruction that `authority_change` spells out.
#[verifier::external_body]
fn set_authority(
    token_program: &Identity,
    owned: &Identity,
    new_authority: &Identity,
    kind: AuthorityKind,
    owner: &Identity,
    signer: &Identity,
) -> (r: Result<Instruction, ProgramError>)
    ensures
        r is Ok <==> token_program@ == custody_service_id(),
        r matches Ok(built) ==> built@ == authority_change(
            token_program@,
            owned@,
            new_authority@,
            kind,
            owner@,
            signer@,
        ),
{
    let kind = match kind {
        AuthorityKind::MintTokens => AuthorityType::MintTokens,
        AuthorityKind::FreezeAccount => AuthorityType::FreezeAccount,
        AuthorityKind::AccountOwner => AuthorityType::AccountOwner,
        AuthorityKind::CloseAccount => AuthorityType::CloseAccount,
    };
    let built = spl_token::instruction::set_authority(
        &token_program.bytes.into(), &owned.bytes.into(), Some(&new_authority.bytes.into()),
        kind, &owner.bytes.into(), &[&signer.bytes.into()],
    )?;
    let meta = built.accounts.iter().map(|m| AccountMeta::new(m.pubkey.to_bytes(), m.is_signer, m.is_writable));
    Ok(Instruction { program_id: Identity::new(built.program_id.to_bytes()), accounts: meta.collect(), data: built.data })
}

/// The identity of the asset-custody service.
pub fn custody_service() -> (r: Identity)
    ensures
        r@ == custody_service_id(),
{
    token_program_id()
}

/// Derives the authority that the program holds over escrowed accounts.
pub fn derive_authority(program_id: &Identity) -> (r: Option<Identity>)
    ensures
        match r {
            Some(authority) => derived_authority(program_id@) == Some(authority@),
            None => derived_authority(program_id@) is None,
        },
{
    match try_find_program_address(AUTHORITY_SEED.as_slice(), program_id) {
        Some((address, _)) => Some(address),
        None => None,
    }
}

/// Builds the one instruction of a custody handoff: the custody service
/// `service` is asked to make `new_owner` the owner of the account `holding`
/// in place of `initializer`, who signs for it. A `service` that is not the
/// asset-custody service is refused with `WrongCustodyService`.
pub fn handoff_instruction(
    service: &Identity,
    holding: &Identity,
    new_owner: &Identity,
    initializer: &Identity,
) -> (r: Result<Instruction, EscrowError>)
    ensures
        service@ != custody_service_id() ==> r == Err::<Instruction, EscrowError>(
            EscrowError::WrongCustodyService,
        ),
        service@ == custody_service_id() ==> r is Ok && r.unwrap()@ == spec_handoff(
            holding@,
            new_owner@,
            initializer@,
        ),
        r matches Ok(built) ==> built.accounts@.len() == 3 && built.data@.len() == 35,
{
    match set_authority(
        service,
        holding,
        new_owner,
        AuthorityKind::AccountOwner,
        initializer,
        initializer,
    ) {
        Ok(built) => {
            assert(built@.accounts.len() == 3);
            Ok(built)
        },
        Err(_) => Err(EscrowError::WrongCustodyService),
    }
}

/// The instruction of a custody handoff (see `handoff_instruction`).
pub open spec fn spec_handoff(
    holding: Seq<u8>,
    new_owner: Seq<u8>,
    initializer: Seq<u8>,
) -> InstructionView {
    authority_change(
        custody_service_id(),
        holding,
        new_owner,
        AuthorityKind::AccountOwner,
        initializer,
        initializer,
    )
}

} // verus!
