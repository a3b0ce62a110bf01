use vstd::prelude::*;

use crate::account::{ADDRESS_LEN, AccountView, LedgerAccount, bytes_eq, system_id, system_program_id};
use crate::error::EscrowError;
use crate::instruction::{EscrowInstruction, spec_close_account, spec_unpack};
use crate::state::{EscrowAccount, spec_unpack_record};
use crate::{
    check_provided_pda, escrow_tag, find_escrow_address, program_address_of, spec_check_pda,
    spec_find_escrow_address,
};

verus! {

pub struct Processor;

/// What initializing an escrow does to the payer and escrow accounts.
///
/// The deposit must at least cover the storage-exemption minimum of the
/// two-byte record; the supplied escrow account must sit at the canonical
/// derived address; and the account-creation collaborator requires a fresh
/// (system-owned, empty, unfunded) slot and a payer able to fund it. On
/// success the escrow account holds the exemption minimum plus the deposit,
/// is owned by this program, and carries the initialized record.
pub open spec fn spec_initialize(
    program: Seq<u8>,
    payer: AccountView,
    recipient_key: Seq<u8>,
    escrow: AccountView,
    rent_minimum: u64,
    amount: u64,
) -> Result<(AccountView, AccountView), EscrowError> {
    if amount < rent_minimum {
        Err(EscrowError::InsufficientFunds)
    } else {
        match spec_find_escrow_address(program, payer.key, recipient_key) {
            None => Err(EscrowError::InvalidSeeds),
            Some(pair) => {
                let (addr, bump) = pair;
                if addr != escrow.key {
                    Err(EscrowError::InvalidInstructionData)
                } else if rent_minimum + amount > u64::MAX {
                    Err(EscrowError::ArithmeticOverflow)
                } else if escrow.lamports != 0 || escrow.data.len() != 0 || escrow.owner
                    != system_id() {
                    Err(EscrowError::AccountAlreadyInUse)
                } else if payer.lamports < rent_minimum + amount {
                    Err(EscrowError::InsufficientFunds)
                } else {
                    Ok(
                        (
                            AccountView {
                                lamports: (payer.lamports - rent_minimum - amount) as u64,
                                ..payer
                            },
                            AccountView {
                                key: escrow.key,
                                lamports: (rent_minimum + amount) as u64,
                                owner: program,
                                data: seq![1u8, bump],
                            },
                        ),
                    )
                }
            },
        }
    }
}

/// What completing an escrow does: after ownership, record and derivation
/// checks, the custodied value (balance minus exemption minimum) goes to the
/// recipient, the exemption minimum back to the payer, and the escrow
/// account is erased.
pub open spec fn spec_complete(
    program: Seq<u8>,
    payer: AccountView,
    recipient: AccountView,
    escrow: AccountView,
    rent_minimum: u64,
) -> Result<(AccountView, AccountView, AccountView), EscrowError> {
    if escrow.owner != program {
        Err(EscrowError::IncorrectProgramId)
    } else {
        match spec_unpack_record(escrow.data) {
            Err(e) => Err(e),
            Ok(rec) => match spec_check_pda(payer.key, recipient.key, escrow.key, rec.bump, program) {
                Err(e) => Err(e),
                Ok(()) => if escrow.lamports < rent_minimum {
                    Err(EscrowError::ArithmeticOverflow)
                } else if recipient.lamports + (escrow.lamports - rent_minimum) > u64::MAX {
                    Err(EscrowError::ArithmeticOverflow)
                } else if payer.lamports + rent_minimum > u64::MAX {
                    Err(EscrowError::ArithmeticOverflow)
                } else {
                    Ok(
                        (
                            AccountView { lamports: (payer.lamports + rent_minimum) as u64, ..payer },
                            AccountView {
                                lamports: (recipient.lamports + (escrow.lamports - rent_minimum)) as u64,
                                ..recipient
                            },
                            AccountView { lamports: 0, owner: system_id(), data: Seq::empty(), ..escrow },
                        ),
                    )
                },
            },
        }
    }
}

/// What closing an escrow does: after the same ownership, record and
/// derivation checks as completion, the escrow's entire balance goes back to
/// the payer, and the escrow account is erased. The recipient receives
/// nothing.
pub open spec fn spec_close(
    program: Seq<u8>,
    payer: AccountView,
    recipient_key: Seq<u8>,
    escrow: AccountView,
) -> Result<(AccountView, AccountView), EscrowError> {
    if escrow.owner != program {
        Err(EscrowError::IncorrectProgramId)
    } else {
        match spec_unpack_record(escrow.data) {
            Err(e) => Err(e),
            Ok(rec) => match spec_check_pda(payer.key, recipient_key, escrow.key, rec.bump, program) {
                Err(e) => Err(e),
                Ok(()) => spec_close_account(payer, escrow, escrow.lamports),
            },
        }
    }
}

/// What one invocation of the program does: decode the instruction, then
/// dispatch. The recipient account is only written by a completion.
pub open spec fn spec_process(
    program: Seq<u8>,
    payer: AccountView,
    recipient: AccountView,
    escrow: AccountView,
    rent_minimum: u64,
    data: Seq<u8>,
) -> Result<(AccountView, AccountView, AccountView), EscrowError> {
    match spec_unpack(data) {
        Err(e) => Err(e),
        Ok(EscrowInstruction::Initialize { amount }) => match spec_initialize(
            program,
            payer,
            recipient.key,
            escrow,
            rent_minimum,
            amount,
        ) {
            Err(e) => Err(e),
            Ok(pair) => Ok((pair.0, recipient, pair.1)),
        },
        Ok(EscrowInstruction::Complete) => spec_complete(program, payer, recipient, escrow, rent_minimum),
        Ok(EscrowInstruction::Close) => match spec_close(program, payer, recipient.key, escrow) {
            Err(e) => Err(e),
            Ok(pair) => Ok((pair.0, recipient, pair.1)),
        },
    }
}

impl Processor {
    /// Decodes the instruction bytes and runs the matching handler on the
    /// three participating accounts. `rent_minimum` is the host's
    /// storage-exemption minimum for a record-sized account.
    pub fn process(
        program_id: &Vec<u8>,
        payer: &mut LedgerAccount,
        recipient: &mut LedgerAccount,
        escrow: &mut LedgerAccount,
        rent_minimum: u64,
        data: &[u8],
    ) -> (r: Result<(), EscrowError>)
        requires
            program_id@.len() == ADDRESS_LEN,
        ensures
            (match r {
                Ok(()) => spec_process(
                    program_id@,
                    old(payer)@,
                    old(recipient)@,
                    old(escrow)@,
                    rent_minimum,
                    data@,
                ) == Ok::<_, EscrowError>((final(payer)@, final(recipient)@, final(escrow)@)),
                Err(e) => spec_process(
                    program_id@,
                    old(payer)@,
                    old(recipient)@,
                    old(escrow)@,
                    rent_minimum,
                    data@,
                ) == Err::<(AccountView, AccountView, AccountView), _>(e) && final(payer)@ == old(payer)@ && final(recipient)@ == old(recipient)@
                    && final(escrow)@ == old(escrow)@,
            }),
    {
        let instruction = match EscrowInstruction::unpack(data) {
            Ok(instruction) => instruction,
            Err(e) => { return Err(e); },
        };
        match instruction {
            EscrowInstruction::Initialize { amount } => Self::process_initialize_escrow(
                program_id,
                payer,
                &recipient.key,
                escrow,
                rent_minimum,
                amount,
            ),
            EscrowInstruction::Complete => Self::process_complete_escrow(
                program_id,
                payer,
                recipient,
                escrow,
                rent_minimum,
            ),
            EscrowInstruction::Close => Self::process_close_escrow(program_id, payer, &recipient.key, escrow),
        }
    }

    /// Derives the canonical escrow address for (payer, recipient), requires
    /// the supplied escrow account to sit exactly there, and creates it with
    /// balance `rent_minimum + amount`, owned by this program, holding the
    /// initialized record. The deposit must at least cover the exemption
    /// minimum, or the account could not persist.
    pub fn process_initialize_escrow(
        program_id: &Vec<u8>,
        payer: &mut LedgerAccount,
        recipient_pkey: &Vec<u8>,
        escrow: &mut LedgerAccount,
        rent_minimum: u64,
        amount: u64,
    ) -> (r: Result<(), EscrowError>)
        requires
            program_id@.len() == ADDRESS_LEN,
        ensures
            (match r {
                Ok(()) => spec_initialize(
                    program_id@,
                    old(payer)@,
                    recipient_pkey@,
                    old(escrow)@,
                    rent_minimum,
                    amount,
                ) == Ok::<_, EscrowError>((final(payer)@, final(escrow)@)),
                Err(e) => spec_initialize(
                    program_id@,
                    old(payer)@,
                    recipient_pkey@,
                    old(escrow)@,
                    rent_minimum,
                    amount,
                ) == Err::<(AccountView, AccountView), _>(e) && final(payer)@ == old(payer)@ && final(escrow)@ == old(escrow)@,
            }),
    {
        if amount < rent_minimum {
            return Err(EscrowError::InsufficientFunds);
        }
        let (expected_pda, bump) = match find_escrow_address(&payer.key, recipient_pkey, program_id) {
            None => { return Err(EscrowError::InvalidSeeds); },
            Some(pair) => pair,
        };
        if !bytes_eq(&expected_pda, &escrow.key) {
            return Err(EscrowError::InvalidInstructionData);
        }
        if rent_minimum > u64::MAX - amount {
            return Err(EscrowError::ArithmeticOverflow);
        }
        let total_amount = rent_minimum + amount;
        let system = system_program_id();
        if escrow.lamports != 0 || escrow.data.len() != 0 || !bytes_eq(&escrow.owner, &system) {
            return Err(EscrowError::AccountAlreadyInUse);
        }
        if payer.lamports < total_amount {
            return Err(EscrowError::InsufficientFunds);
        }
        // The account-creation collaborator moves the funding out of the
        // payer and into the fresh program-owned, record-sized account.
        payer.lamports = payer.lamports - total_amount;
        escrow.lamports = total_amount;
        escrow.owner = crate::clone_bytes(program_id);
        let escrow_instance = EscrowAccount::new(bump);
        let mut escrow_data: Vec<u8> = Vec::new();
        escrow_data.push(0);
        escrow_data.push(0);
        escrow_instance.pack_into_slice(&mut escrow_data);
        escrow.data = escrow_data;
        proof {
            let s = spec_initialize(
                program_id@,
                old(payer)@,
                recipient_pkey@,
                old(escrow)@,
                rent_minimum,
                amount,
            );
            assert(s matches Ok(pair) && pair.0 =~= payer@ && pair.1 =~= escrow@);
        }
        Ok(())
    }

    /// Completes the escrow: the custodied value goes to the recipient and
    /// the storage-exemption minimum back to the payer; the escrow account
    /// is erased. The two credits together equal the escrow's balance
    /// immediately before closing.
    pub fn process_complete_escrow(
        program_id: &Vec<u8>,
        payer: &mut LedgerAccount,
        recipient: &mut LedgerAccount,
        escrow: &mut LedgerAccount,
        rent_minimum: u64,
    ) -> (r: Result<(), EscrowError>)
        requires
            program_id@.len() == ADDRESS_LEN,
        ensures
            (match r {
                Ok(()) => spec_complete(
                    program_id@,
                    old(payer)@,
                    old(recipient)@,
                    old(escrow)@,
                    rent_minimum,
                ) == Ok::<_, EscrowError>((final(payer)@, final(recipient)@, final(escrow)@)),
                Err(e) => spec_complete(
                    program_id@,
                    old(payer)@,
                    old(recipient)@,
                    old(escrow)@,
                    rent_minimum,
                ) == Err::<(AccountView, AccountView, AccountView), _>(e) && final(payer)@ == old(payer)@ && final(recipient)@ == old(recipient)@
                    && final(escrow)@ == old(escrow)@,
            }),
    {
        if !bytes_eq(&escrow.owner, program_id) {
            return Err(EscrowError::IncorrectProgramId);
        }
        let escrow_instance = match EscrowAccount::unpack(escrow.data.as_slice()) {
            Ok(rec) => rec,
            Err(e) => { return Err(e); },
        };
        match check_provided_pda(&payer.key, &recipient.key, &escrow.key, escrow_instance.bump, program_id) {
            Ok(()) => {},
            Err(e) => { return Err(e); },
        }
        if escrow.lamports < rent_minimum {
            return Err(EscrowError::ArithmeticOverflow);
        }
        let locked_amount = escrow.lamports - rent_minimum;
        if recipient.lamports > u64::MAX - locked_amount {
            return Err(EscrowError::ArithmeticOverflow);
        }
        if payer.lamports > u64::MAX - rent_minimum {
            return Err(EscrowError::ArithmeticOverflow);
        }
        recipient.lamports = recipient.lamports + locked_amount;
        match Self::_process_close_escrow(payer, escrow, rent_minimum) {
            Ok(()) => {
                proof {
                    let s = spec_complete(
                        program_id@,
                        old(payer)@,
                        old(recipient)@,
                        old(escrow)@,
                        rent_minimum,
                    );
                    assert(s matches Ok(t) && t.0 =~= payer@ && t.1 =~= recipient@ && t.2 =~= escrow@);
                }
                Ok(())
            },
            Err(e) => {
                proof {
                    assert(false);
                }
                Err(e)
            },
        }
    }

    /// Cancels the escrow: the entire remaining balance — exemption minimum
    /// plus any deposit — returns to the payer; the recipient receives
    /// nothing; the escrow account is erased.
    pub fn process_close_escrow(
        program_id: &Vec<u8>,
        payer: &mut LedgerAccount,
        recipient_pkey: &Vec<u8>,
        escrow: &mut LedgerAccount,
    ) -> (r: Result<(), EscrowError>)
        requires
            program_id@.len() == ADDRESS_LEN,
        ensures
            (match r {
                Ok(()) => spec_close(program_id@, old(payer)@, recipient_pkey@, old(escrow)@) == Ok::<
                    _,
                    EscrowError,
                >((final(payer)@, final(escrow)@)),
                Err(e) => spec_close(program_id@, old(payer)@, recipient_pkey@, old(escrow)@)
                    == Err::<(AccountView, AccountView), _>(e) && final(payer)@ == old(payer)@
                    && final(escrow)@ == old(escrow)@,
            }),
    {
        if !bytes_eq(&escrow.owner, program_id) {
            return Err(EscrowError::IncorrectProgramId);
        }
        let escrow_instance = match EscrowAccount::unpack(escrow.data.as_slice()) {
            Ok(rec) => rec,
            Err(e) => { return Err(e); },
        };
        match check_provided_pda(&payer.key, recipient_pkey, &escrow.key, escrow_instance.bump, program_id) {
            Ok(()) => {},
            Err(e) => { return Err(e); },
        }
        let total_amount = escrow.lamports;
        Self::_process_close_escrow(payer, escrow, total_amount)
    }

    /// Credits `lamports` to the payer, then erases the escrow account:
    /// balance zeroed, ownership reassigned to the system, storage cleared —
    /// together, or (on overflow) not at all.
    fn _process_close_escrow(
        payer: &mut LedgerAccount,
        escrow: &mut LedgerAccount,
        lamports: u64,
    ) -> (r: Result<(), EscrowError>)
        ensures
            (match r {
                Ok(()) => spec_close_account(old(payer)@, old(escrow)@, lamports) == Ok::<
                    _,
                    EscrowError,
                >((final(payer)@, final(escrow)@)),
                Err(e) => spec_close_account(old(payer)@, old(escrow)@, lamports) == Err::<
                    (AccountView, AccountView),
                    _,
                >(e) && final(payer)@ == old(payer)@ && final(escrow)@ == old(escrow)@,
            }),
    {
        EscrowInstruction::close_account(payer, escrow, lamports)
    }
}

/// Law (initialize funding): a successful initialize moves exactly the
/// exemption minimum plus the deposit from the payer into the escrow
/// account, which is then owned by this program, carries the initialized
/// record, and holds at least the exemption minimum — the custodied value is
/// exactly the deposit.
pub proof fn lemma_initialize_funds_escrow(
    program: Seq<u8>,
    payer: AccountView,
    recipient_key: Seq<u8>,
    escrow: AccountView,
    rent_minimum: u64,
    amount: u64,
    payer2: AccountView,
    escrow2: AccountView,
)
    requires
        spec_initialize(program, payer, recipient_key, escrow, rent_minimum, amount) == Ok::<
            _,
            EscrowError,
        >((payer2, escrow2)),
    ensures
        amount >= rent_minimum,
        escrow2.lamports == rent_minimum + amount,
        escrow2.lamports - rent_minimum >= 0,
        payer2.lamports + escrow2.lamports == payer.lamports,
        escrow2.owner == program,
        escrow2.data.len() == 2,
        escrow2.data[0] == 1,
        payer2.key == payer.key,
        escrow2.key == escrow.key,
{
}

/// Law (balance conservation, complete path): when an invocation carrying
/// the complete instruction succeeds on an escrow of balance `B` with
/// exemption minimum `R`, the recipient gains exactly the custodied value
/// `B - R`, the payer gains exactly `R`, and the escrow account is left with
/// balance 0, empty storage, and system ownership — no value appears or
/// vanishes.
pub proof fn lemma_complete_conserves_balances(
    program: Seq<u8>,
    payer: AccountView,
    recipient: AccountView,
    escrow: AccountView,
    rent_minimum: u64,
    data: Seq<u8>,
    payer2: AccountView,
    recipient2: AccountView,
    escrow2: AccountView,
)
    requires
        spec_unpack(data) == Ok::<_, EscrowError>(EscrowInstruction::Complete),
        spec_process(program, payer, recipient, escrow, rent_minimum, data) == Ok::<
            _,
            EscrowError,
        >((payer2, recipient2, escrow2)),
    ensures
        escrow.lamports >= rent_minimum,
        recipient2.lamports == recipient.lamports + (escrow.lamports - rent_minimum),
        payer2.lamports == payer.lamports + rent_minimum,
        escrow2.lamports == 0,
        escrow2.data.len() == 0,
        escrow2.owner == system_id(),
        payer2.lamports + recipient2.lamports + escrow2.lamports == payer.lamports
            + recipient.lamports + escrow.lamports,
{
}

/// Law (balance conservation, close path): when an invocation carrying the
/// close instruction succeeds, the payer gains exactly the escrow's entire
/// pre-close balance, the recipient is untouched, and the escrow account is
/// left with balance 0, empty storage, and system ownership.
pub proof fn lemma_close_returns_balance(
    program: Seq<u8>,
    payer: AccountView,
    recipient: AccountView,
    escrow: AccountView,
    rent_minimum: u64,
    data: Seq<u8>,
    payer2: AccountView,
    recipient2: AccountView,
    escrow2: AccountView,
)
    requires
        spec_unpack(data) == Ok::<_, EscrowError>(EscrowInstruction::Close),
        spec_process(program, payer, recipient, escrow, rent_minimum, data) == Ok::<
            _,
            EscrowError,
        >((payer2, recipient2, escrow2)),
    ensures
        payer2.lamports == payer.lamports + escrow.lamports,
        recipient2 == recipient,
        escrow2.lamports == 0,
        escrow2.data.len() == 0,
        escrow2.owner == system_id(),
{
}

/// Law (authorization): on an escrow account this program owns, holding a
/// valid record, a complete or a close whose re-derived address — from the
/// supplied payer and recipient identities and the record's own bump —
/// differs from the escrow account's address fails with the
/// derivation-mismatch error. (The handlers' contracts add that every
/// failing invocation leaves all accounts unchanged.)
pub proof fn lemma_mismatched_derivation_rejected(
    program: Seq<u8>,
    payer: AccountView,
    recipient: AccountView,
    escrow: AccountView,
    rent_minimum: u64,
    rec: EscrowAccount,
)
    requires
        escrow.owner == program,
        spec_unpack_record(escrow.data) == Ok::<_, EscrowError>(rec),
        program_address_of(program, escrow_tag(), payer.key, recipient.key, rec.bump) matches Some(
            derived,
        ) && derived != escrow.key,
    ensures
        spec_complete(program, payer, recipient, escrow, rent_minimum) == Err::<
            (AccountView, AccountView, AccountView),
            _,
        >(EscrowError::InvalidInstructionData),
        spec_close(program, payer, recipient.key, escrow) == Err::<
            (AccountView, AccountView),
            _,
        >(EscrowError::InvalidInstructionData),
{
}

/// Law (underfunded initialize): a requested deposit below the
/// storage-exemption minimum is rejected with insufficient funds, whatever
/// the accounts hold — and, by `process_initialize_escrow`'s contract, no
/// account is created or changed.
pub proof fn lemma_underfunded_initialize_rejected(
    program: Seq<u8>,
    payer: AccountView,
    recipient_key: Seq<u8>,
    escrow: AccountView,
    rent_minimum: u64,
    amount: u64,
)
    requires
        amount < rent_minimum,
    ensures
        spec_initialize(program, payer, recipient_key, escrow, rent_minimum, amount) == Err::<
            (AccountView, AccountView),
            _,
        >(EscrowError::InsufficientFunds),
{
}

} // verus!
