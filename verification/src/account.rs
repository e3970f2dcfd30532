use vstd::prelude::*;
use crate::identity::Identity;

verus! {

/// One account reference of a call, as the caller supplies it: who the
/// account is, whether it signed, which program controls it, its balance and
/// its stored bytes.
#[derive(Clone, Copy, Debug)]
pub struct AccountRef<'a> {
    pub key: Identity,
    pub is_signer: bool,
    pub owner: Identity,
    pub lamports: u64,
    pub data: &'a [u8],
}

} // verus!
