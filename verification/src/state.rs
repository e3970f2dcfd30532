use vstd::prelude::*;
use crate::codec::{lemma_u64_le_round_trip, push_u64_le, read_u64_le, u64_from_le, u64_to_le};
use crate::error::EscrowError;
use crate::identity::Identity;

verus! {

/// The terms of one escrow, as they are kept in the record storage.
#[derive(Clone, Copy, Debug, PartialEq, Eq)]
pub struct Escrow {
    /// Set once, by initialization, and never cleared.
    pub is_initialized: bool,
    /// The party that funded the holding account.
    pub initializer_pubkey: Identity,
    /// The account that holds the deposited asset.
    pub temp_token_account_pubkey: Identity,
    /// The account that is to receive what the initializer gets in return.
    pub initializer_token_to_receive_account_pubkey: Identity,
    /// The amount that the initializer expects in return.
    pub expected_amount: u64,
}

/// An escrow record as plain values.
pub struct EscrowView {
    pub is_initialized: bool,
    pub initializer_pubkey: Seq<u8>,
    pub temp_token_account_pubkey: Seq<u8>,
    pub initializer_token_to_receive_account_pubkey: Seq<u8>,
    pub expected_amount: u64,
}

impl View for Escrow {
    type V = EscrowView;

    open spec fn view(&self) -> EscrowView {
        EscrowView {
            is_initialized: self.is_initialized,
            initializer_pubkey: self.initializer_pubkey@,
            temp_token_account_pubkey: self.temp_token_account_pubkey@,
            initializer_token_to_receive_account_pubkey:
                self.initializer_token_to_receive_account_pubkey@,
            expected_amount: self.expected_amount,
        }
    }
}

impl EscrowView {
    /// Each identity of the record has its 32 bytes.
    pub open spec fn well_formed(self) -> bool {
        &&& self.initializer_pubkey.len() == 32
        &&& self.temp_token_account_pubkey.len() == 32
        &&& self.initializer_token_to_receive_account_pubkey.len() == 32
    }

    /// The stored form of a record: one byte for the flag (1 when
    /// initialized, else 0), the three identities in the order of the
    /// fields, and the expected amount in eight little-endian bytes.
    pub open spec fn encode(self) -> Seq<u8> {
        seq![if self.is_initialized { 1u8 } else { 0u8 }] + self.initializer_pubkey
            + self.temp_token_account_pubkey + self.initializer_token_to_receive_account_pubkey
            + u64_to_le(self.expected_amount)
    }

    /// The record that stored bytes stand for. Reading is lenient: every
    /// string of `Escrow::LEN` bytes is a record, and it is an initialized one
    /// only when its flag byte is exactly 1.
    pub open spec fn decode(stored: Seq<u8>) -> EscrowView
        recommends
            stored.len() == Escrow::LEN,
    {
        EscrowView {
            is_initialized: stored[0] == 1,
            initializer_pubkey: stored.subrange(1, 33),
            temp_token_account_pubkey: stored.subrange(33, 65),
            initializer_token_to_receive_account_pubkey: stored.subrange(65, 97),
            expected_amount: u64_from_le(stored.subrange(97, 105)) as u64,
        }
    }

    /// What is written is what is read back.
    pub proof fn lemma_decode_encode(self)
        requires
            self.well_formed(),
        ensures
            self.encode().len() == Escrow::LEN,
            EscrowView::decode(self.encode()) == self,
    {
        let stored = self.encode();
        lemma_u64_le_round_trip(self.expected_amount);
        assert(stored.subrange(1, 33) =~= self.initializer_pubkey);
        assert(stored.subrange(33, 65) =~= self.temp_token_account_pubkey);
        assert(stored.subrange(65, 97) =~= self.initializer_token_to_receive_account_pubkey);
        assert(stored.subrange(97, 105) =~= u64_to_le(self.expected_amount));
    }
}

impl Default for Escrow {
    /// The record that unused storage stands for: not initialized, with zero
    /// identities and a zero amount.
    fn default() -> (r: Escrow)
        ensures
            r@ == EscrowView::decode(Seq::new(Escrow::LEN as nat, |i: int| 0u8)),
            !r@.is_initialized,
            r@.expected_amount == 0,
    {
        let r = Escrow {
            is_initialized: false,
            initializer_pubkey: Identity::default(),
            temp_token_account_pubkey: Identity::default(),
            initializer_token_to_receive_account_pubkey: Identity::default(),
            expected_amount: 0,
        };
        proof {
            let fresh = Seq::new(Escrow::LEN as nat, |i: int| 0u8);
            assert(fresh.subrange(1, 33) =~= r.initializer_pubkey@);
            assert(fresh.subrange(33, 65) =~= r.temp_token_account_pubkey@);
            assert(fresh.subrange(65, 97) =~= r.initializer_token_to_receive_account_pubkey@);
        }
        r
    }
}

impl Escrow {
    /// The size of a stored record, in bytes.
    pub const LEN: usize = 105;

    /// Whether the record has been initialized.
    pub fn is_initialized(&self) -> (r: bool)
        ensures
            r == self@.is_initialized,
    {
        self.is_initialized
    }

    /// Reads a record from its storage. Storage of any other size than
    /// `Escrow::LEN` is refused; storage of that size always reads, whatever it
    /// holds.
    pub fn unpack_unchecked(src: &[u8]) -> (r: Result<Escrow, EscrowError>)
        ensures
            src@.len() != Escrow::LEN ==> r == Err::<Escrow, EscrowError>(
                EscrowError::InvalidRecordStorage,
            ),
            src@.len() == Escrow::LEN ==> r is Ok && r.unwrap()@ == EscrowView::decode(src@),
    {
        if src.len() != Escrow::LEN {
            return Err(EscrowError::InvalidRecordStorage);
        }
        Ok(
            Escrow {
                is_initialized: src[0] == 1,
                initializer_pubkey: Identity::read(src, 1),
                temp_token_account_pubkey: Identity::read(src, 33),
                initializer_token_to_receive_account_pubkey: Identity::read(src, 65),
                expected_amount: read_u64_le(src, 97),
            },
        )
    }

    /// The stored form of the record.
    pub fn to_bytes(&self) -> (r: Vec<u8>)
        ensures
            r@ == self@.encode(),
            r@.len() == Escrow::LEN,
    {
        let mut out: Vec<u8> = Vec::new();
        out.push(if self.is_initialized { 1u8 } else { 0u8 });
        self.initializer_pubkey.append_to(&mut out);
        self.temp_token_account_pubkey.append_to(&mut out);
        self.initializer_token_to_receive_account_pubkey.append_to(&mut out);
        push_u64_le(&mut out, self.expected_amount);
        assert(out@ =~= self@.encode());
        out
    }

    /// Writes the record into its storage. Storage of any other size than
    /// `Escrow::LEN` is refused and left as it was.
    pub fn pack(src: Escrow, dst: &mut [u8]) -> (r: Result<(), EscrowError>)
        ensures
            old(dst)@.len() != Escrow::LEN ==> r == Err::<(), EscrowError>(
                EscrowError::InvalidRecordStorage,
            ) && final(dst)@ == old(dst)@,
            old(dst)@.len() == Escrow::LEN ==> r == Ok::<(), EscrowError>(()) && final(dst)@
                == src@.encode(),
    {
        if dst.len() != Escrow::LEN {
            return Err(EscrowError::InvalidRecordStorage);
        }
        let bytes = src.to_bytes();
        let mut i: usize = 0;
        while i < Escrow::LEN
            invariant
                i <= Escrow::LEN,
                dst@.len() == Escrow::LEN,
                bytes@.len() == Escrow::LEN,
                forall|j: int| 0 <= j < i ==> dst@[j] == bytes@[j],
            decreases Escrow::LEN - i,
        {
            dst[i] = bytes[i];
            i += 1;
        }
        assert(dst@ =~= bytes@);
        Ok(())
    }
}

} // verus!
