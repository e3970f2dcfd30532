use vstd::prelude::*;
use crate::codec::{read_u64_le, u64_from_le};
use crate::error::EscrowError;

verus! {

/// The closed set of operations that a payload can ask for.
#[derive(Clone, Copy, Debug, PartialEq, Eq, Structural)]
pub enum EscrowInstruction {
    /// Open an escrow: the initializer hands the holding account over and
    /// records that `amount` is expected in return.
    InitEscrow { amount: u64 },
}

/// The tag of `InitEscrow` in the first byte of a payload.
pub const INIT_ESCROW_TAG: u8 = 0;

impl EscrowInstruction {
    /// What a payload means: byte 0 is the operation tag, and for
    /// `InitEscrow` bytes 1 to 8 are the amount, little-endian. Bytes after
    /// those are ignored. Everything else is a `DecodeError`.
    pub open spec fn spec_unpack(input: Seq<u8>) -> Result<EscrowInstruction, EscrowError> {
        if input.len() >= 9 && input[0] == INIT_ESCROW_TAG {
            Ok(EscrowInstruction::InitEscrow { amount: u64_from_le(input.subrange(1, 9)) as u64 })
        } else {
            Err(EscrowError::DecodeError)
        }
    }

    /// Decodes a payload.
    pub fn unpack(input: &[u8]) -> (r: Result<EscrowInstruction, EscrowError>)
        ensures
            r == Self::spec_unpack(input@),
    {
        if input.len() == 0 {
            return Err(EscrowError::DecodeError);
        }
        if input[0] != INIT_ESCROW_TAG {
            return Err(EscrowError::DecodeError);
        }
        if input.len() < 9 {
            return Err(EscrowError::DecodeError);
        }
        let amount = read_u64_le(input, 1);
        Ok(EscrowInstruction::InitEscrow { amount })
    }
}

} // verus!
