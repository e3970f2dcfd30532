use vstd::prelude::*;
use crate::account::AccountRef;
use crate::error::EscrowError;
use solana_program::account_info::AccountInfo;
use solana_program::pubkey::Pubkey;
use solana_program::sysvar::rent::Rent;
use solana_program::sysvar::Sysvar;

verus! {

/// The bytes that every account takes up besides its data, and that rent is
/// charged for too.
pub const ACCOUNT_STORAGE_OVERHEAD: u64 = 128;

/// The rental rate, per byte and year, that the rent oracle with this key and
/// this data states; `None` where the account is not the rent oracle or its
/// data cannot be read.
pub uninterp spec fn rent_rate(key: Seq<u8>, data: Seq<u8>) -> Option<u64>;

/// The answer of the rent oracle with this key and this data to the question
/// whether `balance` exempts an account with `data_len` bytes of data from
/// rent.
pub uninterp spec fn rent_exemption(key: Seq<u8>, data: Seq<u8>, balance: u64, data_len: nat) -> bool;

/// The rent of one year for an account with `data_len` bytes of data at the
/// rate `rate`, where that is a 64-bit number.
pub open spec fn spec_yearly_rent(rate: u64, data_len: nat) -> Option<u64> {
    if ACCOUNT_STORAGE_OVERHEAD + data_len <= u64::MAX && (ACCOUNT_STORAGE_OVERHEAD + data_len)
        * rate <= u64::MAX {
        Some(((ACCOUNT_STORAGE_OVERHEAD + data_len) * rate) as u64)
    } else {
        None
    }
}

/// Whether the oracle lets `balance` exempt `data_len` bytes from rent: it
/// must be readable, or the question has no answer; the rent of one year must
/// be a 64-bit number, or no balance is enough; and the oracle must say yes.
pub open spec fn spec_is_exempt(
    oracle_key: Seq<u8>,
    oracle_data: Seq<u8>,
    balance: u64,
    data_len: nat,
) -> Result<bool, EscrowError> {
    match rent_rate(oracle_key, oracle_data) {
        None => Err(EscrowError::InvalidRentOracle),
        Some(rate) => Ok(
            spec_yearly_rent(rate, data_len) is Some && rent_exemption(
                oracle_key,
                oracle_data,
                balance,
                data_len,
            ),
        ),
    }
}

/// `Rent::from_account_info` on an account with the key and the data of
/// `oracle`: the rate of the rent it reads is named by `rent_rate`, and `None`
/// stands for its refusal.
#[verifier::external_body]
fn read_rent_rate(oracle: &AccountRef) -> (r: Option<u64>)
    ensures
        r == rent_rate(oracle.key@, oracle.data@),
{
    let (key, owner) = (Pubkey::from(oracle.key.bytes), Pubkey::from(oracle.owner.bytes));
    let (mut lamports, mut data) = (oracle.lamports, oracle.data.to_vec());
    let info = AccountInfo::new(&key, oracle.is_signer, false, &mut lamports, &mut data, &owner, false, 0);
    match Rent::from_account_info(&info) {
        Ok(rent) => Some(rent.lamports_per_byte_year),
        Err(_) => None,
    }
}

/// `Rent::is_exempt` of the rent that `Rent::from_account_info` reads from an
/// account with the key and the data of `oracle`: its answer is named by
/// `rent_exemption`. The call is only made where the rent of one year, which
/// `is_exempt` computes in 64 bits, does not overflow.
#[verifier::external_body]
fn ask_rent_exemption(oracle: &AccountRef, balance: u64, data_len: usize) -> (r: bool)
    requires
        rent_rate(oracle.key@, oracle.data@) matches Some(rate) && spec_yearly_rent(
            rate,
            data_len as nat,
        ) is Some,
    ensures
        r == rent_exemption(oracle.key@, oracle.data@, balance, data_len as nat),
{
    let (key, owner) = (Pubkey::from(oracle.key.bytes), Pubkey::from(oracle.owner.bytes));
    let (mut lamports, mut data) = (oracle.lamports, oracle.data.to_vec());
    let info = AccountInfo::new(&key, oracle.is_signer, false, &mut lamports, &mut data, &owner, false, 0);
    match Rent::from_account_info(&info) {
        Ok(rent) => rent.is_exempt(balance, data_len),
        Err(_) => false,
    }
}

/// The rent of one year for an account with `data_len` bytes of data at the
/// rate `rate`: the rate times the data and the overhead of an account.
/// `None` where that is no 64-bit number.
pub fn yearly_rent(rate: u64, data_len: usize) -> (r: Option<u64>)
    ensures
        r == spec_yearly_rent(rate, data_len as nat),
{
    match ACCOUNT_STORAGE_OVERHEAD.checked_add(data_len as u64) {
        None => None,
        Some(bytes) => bytes.checked_mul(rate),
    }
}

/// Asks the rent oracle whether `balance` exempts an account with `data_len`
/// bytes of data from rent.
pub fn is_exempt(oracle: &AccountRef, balance: u64, data_len: usize) -> (r: Result<
    bool,
    EscrowError,
>)
    ensures
        r == spec_is_exempt(oracle.key@, oracle.data@, balance, data_len as nat),
{
    match read_rent_rate(oracle) {
        None => Err(EscrowError::InvalidRentOracle),
        Some(rate) => match yearly_rent(rate, data_len) {
            None => Ok(false),
            Some(_) => Ok(ask_rent_exemption(oracle, balance, data_len)),
        },
    }
}

} // verus!
