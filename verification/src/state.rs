use vstd::prelude::*;

use crate::error::EscrowError;

verus! {

/// On-disk size of the escrow record: byte 0 is the initialized flag (0/1),
/// byte 1 is the bump.
pub const ESCROW_RECORD_LEN: usize = 2;

/// The escrow record persisted inside the escrow account's storage.
///
/// The custodied value is never stored here: it is always computed as the
/// escrow account's balance minus the storage-exemption minimum, so the
/// record carries only the initialization flag and the derivation bump.
#[derive(Clone, Copy, Debug, PartialEq, Eq, Structural)]
pub struct EscrowAccount {
    pub is_initialized: bool,
    pub bump: u8,
}

/// What decoding an escrow record from account storage yields: the record
/// must be exactly two bytes and its initialized flag must be set.
pub open spec fn spec_unpack_record(data: Seq<u8>) -> Result<EscrowAccount, EscrowError> {
    if data.len() != ESCROW_RECORD_LEN {
        Err(EscrowError::InvalidAccountData)
    } else if data[0] != 1 {
        Err(EscrowError::UninitializedAccount)
    } else {
        Ok(EscrowAccount { is_initialized: true, bump: data[1] })
    }
}

impl EscrowAccount {
    /// The exact two bytes that `pack_into_slice` writes for this record.
    pub open spec fn spec_pack(self) -> Seq<u8> {
        seq![if self.is_initialized { 1u8 } else { 0u8 }, self.bump]
    }

    pub fn new(bump: u8) -> (r: Self)
        ensures
            r.is_initialized,
            r.bump == bump,
    {
        Self { is_initialized: true, bump }
    }

    pub fn is_initialized(&self) -> (r: bool)
        ensures
            r == self.is_initialized,
    {
        self.is_initialized
    }

    /// Writes the two-byte record over a buffer already sized to hold it.
    pub fn pack_into_slice(&self, dst: &mut Vec<u8>)
        requires
            old(dst)@.len() == ESCROW_RECORD_LEN,
        ensures
            final(dst)@ == self.spec_pack(),
    {
        dst[0] = if self.is_initialized { 1u8 } else { 0u8 };
        dst[1] = self.bump;
        assert(dst@ =~= self.spec_pack());
    }

    /// Reads the flag and bump bytes of a buffer that is at least as long
    /// as a record. Length and initialization are the caller's checks;
    /// `unpack` performs both.
    pub fn unpack_from_slice(src: &[u8]) -> (r: Result<Self, EscrowError>)
        requires
            src@.len() >= ESCROW_RECORD_LEN,
        ensures
            r matches Ok(rec) && rec.is_initialized == (src@[0] == 1) && rec.bump == src@[1],
    {
        Ok(Self { is_initialized: src[0] == 1, bump: src[1] })
    }

    /// Decodes an escrow record: the buffer must be exactly
    /// `ESCROW_RECORD_LEN` bytes and the initialized flag must be set.
    pub fn unpack(src: &[u8]) -> (r: Result<Self, EscrowError>)
        ensures
            r == spec_unpack_record(src@),
    {
        if src.len() != ESCROW_RECORD_LEN {
            return Err(EscrowError::InvalidAccountData);
        }
        let rec = match Self::unpack_from_slice(src) {
            Ok(rec) => rec,
            Err(e) => { return Err(e); },
        };
        if !rec.is_initialized() {
            return Err(EscrowError::UninitializedAccount);
        }
        Ok(rec)
    }
}

/// Law: packing an initialized record and decoding the bytes back yields
/// exactly the same record, for every bump.
pub proof fn lemma_record_round_trip(rec: EscrowAccount)
    requires
        rec.is_initialized,
    ensures
        spec_unpack_record(rec.spec_pack()) == Ok::<_, EscrowError>(rec),
{
}

} // verus!
