use vstd::prelude::*;

verus! {

/// Why an escrow call was refused. Every refusal is terminal for the call and
/// names the first rule that the call broke.
#[derive(Clone, Copy, Debug, PartialEq, Eq, Structural)]
pub enum EscrowError {
    /// The payload is empty, too short, or carries an unknown operation tag.
    DecodeError,
    /// The initializer did not sign the call.
    MissingSignature,
    /// An account that must belong to the asset-custody service does not, or
    /// the custody-service reference names another program.
    WrongCustodyService,
    /// The record storage does not hold the balance that exempts it from rent.
    NotRentExempt,
    /// The record storage already holds an initialized record.
    AlreadyInitialized,
    /// The list of account references ends before a position that is needed.
    MissingAccount,
    /// The asset-custody service refused the change of authority.
    DelegationFailed,
    /// The rent oracle reference is not the rent oracle, or its data cannot
    /// be read.
    InvalidRentOracle,
    /// The record storage does not have the size of one record.
    InvalidRecordStorage,
    /// No authority can be derived for the program.
    NoDerivedAuthority,
}

} // verus!
