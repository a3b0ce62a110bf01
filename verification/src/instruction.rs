use vstd::prelude::*;

use crate::account::{AccountView, LedgerAccount, system_id, system_program_id};
use crate::error::EscrowError;

verus! {

/// One of the three operations the instruction codec can produce.
pub enum EscrowInstruction {
    Initialize { amount: u64 },
    Complete,
    Close,
}

/// The little-endian unsigned 64-bit value held in the first eight bytes.
pub open spec fn u64_from_le(s: Seq<u8>) -> u64
    recommends
        s.len() >= 8,
{
    (s[0] + s[1] * 0x100 + s[2] * 0x1_0000 + s[3] * 0x100_0000 + s[4] * 0x1_0000_0000 + s[5]
        * 0x100_0000_0000 + s[6] * 0x1_0000_0000_0000 + s[7] * 0x100_0000_0000_0000) as u64
}

/// What the instruction codec yields for a given byte buffer: byte 0 is the
/// discriminant, and an `Initialize` carries exactly eight payload bytes
/// holding the little-endian deposit amount.
pub open spec fn spec_unpack(data: Seq<u8>) -> Result<EscrowInstruction, EscrowError> {
    if data.len() == 0 {
        Err(EscrowError::InvalidInstructionData)
    } else if data[0] == 0 {
        if data.len() == 9 {
            Ok(EscrowInstruction::Initialize { amount: u64_from_le(data.subrange(1, 9)) })
        } else {
            Err(EscrowError::InvalidInstructionData)
        }
    } else if data[0] == 1 {
        Ok(EscrowInstruction::Complete)
    } else if data[0] == 2 {
        Ok(EscrowInstruction::Close)
    } else {
        Err(EscrowError::InvalidInstructionData)
    }
}

/// Reads `data[start .. start + 8]` as a little-endian unsigned 64-bit value.
fn u64_from_le_bytes(data: &[u8], start: usize) -> (r: u64)
    requires
        start + 8 <= data@.len(),
    ensures
        r == u64_from_le(data@.subrange(start as int, start as int + 8)),
{
    let b0 = data[start] as u64;
    let b1 = data[start + 1] as u64;
    let b2 = data[start + 2] as u64;
    let b3 = data[start + 3] as u64;
    let b4 = data[start + 4] as u64;
    let b5 = data[start + 5] as u64;
    let b6 = data[start + 6] as u64;
    let b7 = data[start + 7] as u64;
    b0 + b1 * 0x100 + b2 * 0x1_0000 + b3 * 0x100_0000 + b4 * 0x1_0000_0000 + b5 * 0x100_0000_0000
        + b6 * 0x1_0000_0000_0000 + b7 * 0x100_0000_0000_0000
}

/// The joint effect of closing the escrow account towards one receiving
/// account: the receiver is credited, and the escrow account's balance is
/// zeroed, its ownership reassigned to the system, and its storage cleared —
/// all together, or not at all.
pub open spec fn spec_close_account(receiver: AccountView, escrow: AccountView, lamports: u64) -> Result<
    (AccountView, AccountView),
    EscrowError,
> {
    if receiver.lamports + lamports > u64::MAX {
        Err(EscrowError::ArithmeticOverflow)
    } else {
        Ok(
            (
                AccountView { lamports: (receiver.lamports + lamports) as u64, ..receiver },
                AccountView { lamports: 0, owner: system_id(), data: Seq::empty(), ..escrow },
            ),
        )
    }
}

impl EscrowInstruction {
    /// Parses an instruction byte buffer. Byte 0 selects the operation
    /// (`0` = initialize, `1` = complete, `2` = close); an initialize must
    /// carry exactly eight further bytes, the little-endian deposit amount.
    pub fn unpack(data: &[u8]) -> (r: Result<Self, EscrowError>)
        ensures
            r == spec_unpack(data@),
    {
        if data.len() == 0 {
            return Err(EscrowError::InvalidInstructionData);
        }
        let tag = data[0];
        if tag == 0 {
            if data.len() != 9 {
                return Err(EscrowError::InvalidInstructionData);
            }
            let amount = u64_from_le_bytes(data, 1);
            Ok(Self::Initialize { amount })
        } else if tag == 1 {
            Ok(Self::Complete)
        } else if tag == 2 {
            Ok(Self::Close)
        } else {
            Err(EscrowError::InvalidInstructionData)
        }
    }

    /// Credits `lamports` to the receiving account, then erases the escrow
    /// account: balance zeroed, ownership reassigned to the system, storage
    /// cleared. On overflow of the credit nothing is changed.
    pub fn close_account(receiver: &mut LedgerAccount, escrow: &mut LedgerAccount, lamports: u64) -> (r: Result<
        (),
        EscrowError,
    >)
        ensures
            (match r {
                Ok(()) => spec_close_account(old(receiver)@, old(escrow)@, lamports) == Ok::<
                    _,
                    EscrowError,
                >((final(receiver)@, final(escrow)@)),
                Err(e) => spec_close_account(old(receiver)@, old(escrow)@, lamports) == Err::<
                    (AccountView, AccountView),
                    _,
                >(e) && final(receiver)@ == old(receiver)@ && final(escrow)@ == old(escrow)@,
            }),
    {
        if receiver.lamports > u64::MAX - lamports {
            return Err(EscrowError::ArithmeticOverflow);
        }
        receiver.lamports = receiver.lamports + lamports;
        escrow.lamports = 0;
        escrow.owner = system_program_id();
        escrow.data = Vec::new();
        proof {
            assert(spec_close_account(old(receiver)@, old(escrow)@, lamports) matches Ok(p) && p.0
                =~= receiver@ && p.1 =~= escrow@);
        }
        Ok(())
    }
}

} // verus!
