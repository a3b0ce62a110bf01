use escrow::account::LedgerAccount;
use escrow::error::EscrowError;
use escrow::instruction::EscrowInstruction;
use escrow::processor::Processor;
use escrow::state::EscrowAccount;
use escrow::{check_provided_pda, find_escrow_address, get_escrow_seeds};
use solana_program::pubkey::Pubkey;

const RENT_MINIMUM: u64 = 890880;
const DEPOSIT: u64 = 101101101;
const PAYER_FUNDS: u64 = 1_000_000_000;

fn key(p: &Pubkey) -> Vec<u8> {
    p.to_bytes().to_vec()
}

fn system_key() -> Vec<u8> {
    solana_program::system_program::ID.to_bytes().to_vec()
}

fn fresh_account(key_bytes: Vec<u8>, lamports: u64) -> LedgerAccount {
    LedgerAccount::new(key_bytes, lamports, system_key(), Vec::new())
}

fn init_data(amount: u64) -> Vec<u8> {
    let mut data = vec![0u8];
    data.extend_from_slice(&amount.to_le_bytes());
    data
}


/// A failed derivation check surfaces either as an address mismatch or, when
/// the re-derivation finds no valid address for that bump at all, as an
/// invalid-seeds failure. Both reject the invocation before any mutation.
fn is_derivation_rejection(r: &Result<(), EscrowError>) -> bool {
    matches!(
        r,
        Err(EscrowError::InvalidInstructionData) | Err(EscrowError::InvalidSeeds)
    )
}

struct Setup {
    program_id: Vec<u8>,
    payer: LedgerAccount,
    recipient: LedgerAccount,
    escrow: LedgerAccount,
    bump: u8,
}

/// A payer, a recipient, and an escrow account freshly initialized with
/// `DEPOSIT` on top of `RENT_MINIMUM`.
fn initialized_setup() -> Setup {
    let program = Pubkey::new_unique();
    let payer_pkey = Pubkey::new_unique();
    let recipient_pkey = Pubkey::new_unique();
    let program_id = key(&program);
    let (pda, bump) =
        find_escrow_address(&key(&payer_pkey), &key(&recipient_pkey), &program_id).unwrap();
    let mut payer = fresh_account(key(&payer_pkey), PAYER_FUNDS);
    let mut recipient = fresh_account(key(&recipient_pkey), 0);
    let mut escrow = fresh_account(pda, 0);
    let r = Processor::process(
        &program_id,
        &mut payer,
        &mut recipient,
        &mut escrow,
        RENT_MINIMUM,
        &init_data(DEPOSIT),
    );
    assert_eq!(r, Ok(()));
    Setup { program_id, payer, recipient, escrow, bump }
}

#[test]
fn test_init_escrow_instruction() {
    let s = initialized_setup();
    assert_eq!(s.escrow.lamports, RENT_MINIMUM + DEPOSIT);
    assert_eq!(s.escrow.owner, s.program_id);
    assert_eq!(s.escrow.data, vec![1, s.bump]);
    assert_eq!(s.payer.lamports, PAYER_FUNDS - RENT_MINIMUM - DEPOSIT);
    assert_eq!(s.recipient.lamports, 0);
}

#[test]
fn test_init_and_complete_escrow_instructions() {
    let mut s = initialized_setup();
    let r = Processor::process(
        &s.program_id,
        &mut s.payer,
        &mut s.recipient,
        &mut s.escrow,
        RENT_MINIMUM,
        &[1],
    );
    assert_eq!(r, Ok(()));
    // The recipient gains the deposit, the payer regains the storage
    // deposit, and the escrow account ceases to exist.
    assert_eq!(s.recipient.lamports, DEPOSIT);
    assert_eq!(s.payer.lamports, PAYER_FUNDS - DEPOSIT);
    assert_eq!(s.escrow.lamports, 0);
    assert_eq!(s.escrow.data.len(), 0);
    assert_eq!(s.escrow.owner, system_key());
}

#[test]
fn init_and_close_escrow_instructions() {
    let mut s = initialized_setup();
    let r = Processor::process(
        &s.program_id,
        &mut s.payer,
        &mut s.recipient,
        &mut s.escrow,
        RENT_MINIMUM,
        &[2],
    );
    assert_eq!(r, Ok(()));
    // The payer regains the entire escrow balance; the recipient nothing.
    assert_eq!(s.payer.lamports, PAYER_FUNDS);
    assert_eq!(s.recipient.lamports, 0);
    assert_eq!(s.escrow.lamports, 0);
    assert_eq!(s.escrow.data.len(), 0);
    assert_eq!(s.escrow.owner, system_key());
}

#[test]
fn derivation_is_deterministic_and_matches_host() {
    let program = Pubkey::new_unique();
    let payer_pkey = Pubkey::new_unique();
    let recipient_pkey = Pubkey::new_unique();
    let program_id = key(&program);

    let first = find_escrow_address(&key(&payer_pkey), &key(&recipient_pkey), &program_id);
    let second = find_escrow_address(&key(&payer_pkey), &key(&recipient_pkey), &program_id);
    assert_eq!(first, second);

    let (pda, bump) = first.unwrap();
    let (expected, expected_bump) = Pubkey::find_program_address(
        &[b"escrow", payer_pkey.as_ref(), recipient_pkey.as_ref()],
        &program,
    );
    assert_eq!(pda, key(&expected));
    assert_eq!(bump, expected_bump);
}

#[test]
fn escrow_seeds_use_the_domain_tag() {
    let payer: Vec<u8> = vec![7; 32];
    let recipient: Vec<u8> = vec![9; 32];
    let (tag, payer_seed, recipient_seed) = get_escrow_seeds(&payer, &recipient);
    assert_eq!(tag, b"escrow".to_vec());
    assert_eq!(payer_seed, payer);
    assert_eq!(recipient_seed, recipient);
}

#[test]
fn check_provided_pda_accepts_the_canonical_derivation() {
    let s = initialized_setup();
    let r = check_provided_pda(&s.payer.key, &s.recipient.key, &s.escrow.key, s.bump, &s.program_id);
    assert_eq!(r, Ok(()));

    // A different candidate bump cannot re-derive the same address.
    let other_bump = s.bump.wrapping_add(1);
    let r = check_provided_pda(&s.payer.key, &s.recipient.key, &s.escrow.key, other_bump, &s.program_id);
    assert!(r.is_err());
}

#[test]
fn record_round_trip_for_every_bump() {
    for bump in 0..=255u8 {
        let rec = EscrowAccount::new(bump);
        let mut buffer: Vec<u8> = vec![0, 0];
        rec.pack_into_slice(&mut buffer);
        assert_eq!(buffer, vec![1, bump]);
        let back = EscrowAccount::unpack(&buffer).unwrap();
        assert!(back.is_initialized);
        assert_eq!(back.bump, bump);
    }
}

#[test]
fn unpack_rejects_malformed_records() {
    assert_eq!(EscrowAccount::unpack(&[]), Err(EscrowError::InvalidAccountData));
    assert_eq!(EscrowAccount::unpack(&[1]), Err(EscrowError::InvalidAccountData));
    assert_eq!(EscrowAccount::unpack(&[1, 7, 0]), Err(EscrowError::InvalidAccountData));
    // An all-zero or otherwise uninitialized record fails decoding.
    assert_eq!(EscrowAccount::unpack(&[0, 0]), Err(EscrowError::UninitializedAccount));
    assert_eq!(EscrowAccount::unpack(&[2, 9]), Err(EscrowError::UninitializedAccount));
}

#[test]
fn instruction_codec_parses_each_opcode() {
    let data = init_data(101101101);
    match EscrowInstruction::unpack(&data) {
        Ok(EscrowInstruction::Initialize { amount }) => assert_eq!(amount, 101101101),
        _ => panic!("expected an initialize"),
    }
    let tiny = init_data(u64::MAX);
    match EscrowInstruction::unpack(&tiny) {
        Ok(EscrowInstruction::Initialize { amount }) => assert_eq!(amount, u64::MAX),
        _ => panic!("expected an initialize"),
    }
    assert!(matches!(EscrowInstruction::unpack(&[1]), Ok(EscrowInstruction::Complete)));
    assert!(matches!(EscrowInstruction::unpack(&[2]), Ok(EscrowInstruction::Close)));
    // Trailing bytes beyond the discriminant are ignored for these two.
    assert!(matches!(EscrowInstruction::unpack(&[1, 42]), Ok(EscrowInstruction::Complete)));
    assert!(matches!(EscrowInstruction::unpack(&[2, 0, 0, 0]), Ok(EscrowInstruction::Close)));
}

#[test]
fn instruction_codec_rejects_malformed_buffers() {
    assert!(matches!(
        EscrowInstruction::unpack(&[]),
        Err(EscrowError::InvalidInstructionData)
    ));
    // Unknown opcode.
    assert!(matches!(
        EscrowInstruction::unpack(&[3]),
        Err(EscrowError::InvalidInstructionData)
    ));
    assert!(matches!(
        EscrowInstruction::unpack(&[255, 0, 0]),
        Err(EscrowError::InvalidInstructionData)
    ));
    // Truncated initialize payload.
    assert!(matches!(
        EscrowInstruction::unpack(&[0]),
        Err(EscrowError::InvalidInstructionData)
    ));
    assert!(matches!(
        EscrowInstruction::unpack(&[0, 1, 2, 3, 4, 5, 6, 7]),
        Err(EscrowError::InvalidInstructionData)
    ));
    // An initialize payload longer than eight bytes.
    assert!(matches!(
        EscrowInstruction::unpack(&[0, 1, 2, 3, 4, 5, 6, 7, 8, 9]),
        Err(EscrowError::InvalidInstructionData)
    ));
}

#[test]
fn codec_reads_little_endian_amounts() {
    let data: Vec<u8> = vec![0, 0x01, 0x02, 0x03, 0x04, 0x05, 0x06, 0x07, 0x08];
    match EscrowInstruction::unpack(&data) {
        Ok(EscrowInstruction::Initialize { amount }) => {
            assert_eq!(amount, 0x0807060504030201);
        },
        _ => panic!("expected an initialize"),
    }
}

#[test]
fn complete_with_wrong_recipient_changes_nothing() {
    let mut s = initialized_setup();
    let mut outsider = fresh_account(key(&Pubkey::new_unique()), 555);
    let r = Processor::process(
        &s.program_id,
        &mut s.payer,
        &mut outsider,
        &mut s.escrow,
        RENT_MINIMUM,
        &[1],
    );
    assert!(is_derivation_rejection(&r));
    assert_eq!(s.payer.lamports, PAYER_FUNDS - RENT_MINIMUM - DEPOSIT);
    assert_eq!(outsider.lamports, 555);
    assert_eq!(s.escrow.lamports, RENT_MINIMUM + DEPOSIT);
    assert_eq!(s.escrow.owner, s.program_id);
    assert_eq!(s.escrow.data, vec![1, s.bump]);
}

#[test]
fn close_with_wrong_recipient_changes_nothing() {
    let mut s = initialized_setup();
    let mut outsider = fresh_account(key(&Pubkey::new_unique()), 0);
    let r = Processor::process(
        &s.program_id,
        &mut s.payer,
        &mut outsider,
        &mut s.escrow,
        RENT_MINIMUM,
        &[2],
    );
    assert!(is_derivation_rejection(&r));
    assert_eq!(s.payer.lamports, PAYER_FUNDS - RENT_MINIMUM - DEPOSIT);
    assert_eq!(s.escrow.lamports, RENT_MINIMUM + DEPOSIT);
}

#[test]
fn complete_with_wrong_payer_changes_nothing() {
    let mut s = initialized_setup();
    let mut outsider = fresh_account(key(&Pubkey::new_unique()), 0);
    let r = Processor::process(
        &s.program_id,
        &mut outsider,
        &mut s.recipient,
        &mut s.escrow,
        RENT_MINIMUM,
        &[1],
    );
    assert!(is_derivation_rejection(&r));
    assert_eq!(outsider.lamports, 0);
    assert_eq!(s.recipient.lamports, 0);
    assert_eq!(s.escrow.lamports, RENT_MINIMUM + DEPOSIT);
}

#[test]
fn underfunded_initialize_creates_no_account() {
    let program = Pubkey::new_unique();
    let payer_pkey = Pubkey::new_unique();
    let recipient_pkey = Pubkey::new_unique();
    let program_id = key(&program);
    let (pda, _bump) =
        find_escrow_address(&key(&payer_pkey), &key(&recipient_pkey), &program_id).unwrap();
    let mut payer = fresh_account(key(&payer_pkey), PAYER_FUNDS);
    let mut recipient = fresh_account(key(&recipient_pkey), 0);
    let mut escrow = fresh_account(pda, 0);
    let r = Processor::process(
        &program_id,
        &mut payer,
        &mut recipient,
        &mut escrow,
        RENT_MINIMUM,
        &init_data(RENT_MINIMUM - 1),
    );
    assert_eq!(r, Err(EscrowError::InsufficientFunds));
    assert_eq!(payer.lamports, PAYER_FUNDS);
    assert_eq!(escrow.lamports, 0);
    assert_eq!(escrow.owner, system_key());
    assert_eq!(escrow.data.len(), 0);
}

#[test]
fn initialize_on_an_occupied_address_is_rejected() {
    let mut s = initialized_setup();
    let recipient_key = s.recipient.key.clone();
    let r = Processor::process_initialize_escrow(
        &s.program_id,
        &mut s.payer,
        &recipient_key,
        &mut s.escrow,
        RENT_MINIMUM,
        DEPOSIT,
    );
    assert_eq!(r, Err(EscrowError::AccountAlreadyInUse));
    assert_eq!(s.escrow.lamports, RENT_MINIMUM + DEPOSIT);
}

#[test]
fn initialize_with_a_poor_payer_is_rejected() {
    let program = Pubkey::new_unique();
    let payer_pkey = Pubkey::new_unique();
    let recipient_pkey = Pubkey::new_unique();
    let program_id = key(&program);
    let (pda, _bump) =
        find_escrow_address(&key(&payer_pkey), &key(&recipient_pkey), &program_id).unwrap();
    let mut payer = fresh_account(key(&payer_pkey), RENT_MINIMUM + DEPOSIT - 1);
    let mut recipient = fresh_account(key(&recipient_pkey), 0);
    let mut escrow = fresh_account(pda, 0);
    let r = Processor::process(
        &program_id,
        &mut payer,
        &mut recipient,
        &mut escrow,
        RENT_MINIMUM,
        &init_data(DEPOSIT),
    );
    assert_eq!(r, Err(EscrowError::InsufficientFunds));
    assert_eq!(payer.lamports, RENT_MINIMUM + DEPOSIT - 1);
    assert_eq!(escrow.lamports, 0);
}

#[test]
fn initialize_with_an_overflowing_total_is_rejected() {
    let program = Pubkey::new_unique();
    let payer_pkey = Pubkey::new_unique();
    let recipient_pkey = Pubkey::new_unique();
    let program_id = key(&program);
    let (pda, _bump) =
        find_escrow_address(&key(&payer_pkey), &key(&recipient_pkey), &program_id).unwrap();
    let mut payer = fresh_account(key(&payer_pkey), PAYER_FUNDS);
    let mut recipient = fresh_account(key(&recipient_pkey), 0);
    let mut escrow = fresh_account(pda, 0);
    let r = Processor::process(
        &program_id,
        &mut payer,
        &mut recipient,
        &mut escrow,
        RENT_MINIMUM,
        &init_data(u64::MAX),
    );
    assert_eq!(r, Err(EscrowError::ArithmeticOverflow));
    assert_eq!(payer.lamports, PAYER_FUNDS);
    assert_eq!(escrow.lamports, 0);
}

#[test]
fn initialize_with_oversized_seeds_is_rejected() {
    let program_id = key(&Pubkey::new_unique());
    // A 40-byte party identity exceeds the derivation's seed limit, so no
    // candidate bump derives an address.
    let mut payer = fresh_account(vec![7; 40], PAYER_FUNDS);
    let mut recipient = fresh_account(key(&Pubkey::new_unique()), 0);
    let mut escrow = fresh_account(key(&Pubkey::new_unique()), 0);
    let r = Processor::process(
        &program_id,
        &mut payer,
        &mut recipient,
        &mut escrow,
        RENT_MINIMUM,
        &init_data(DEPOSIT),
    );
    assert_eq!(r, Err(EscrowError::InvalidSeeds));
    assert_eq!(payer.lamports, PAYER_FUNDS);
}

#[test]
fn complete_on_a_foreign_account_is_rejected() {
    let mut s = initialized_setup();
    s.escrow.owner = key(&Pubkey::new_unique());
    let foreign_owner = s.escrow.owner.clone();
    let r = Processor::process(
        &s.program_id,
        &mut s.payer,
        &mut s.recipient,
        &mut s.escrow,
        RENT_MINIMUM,
        &[1],
    );
    assert_eq!(r, Err(EscrowError::IncorrectProgramId));
    assert_eq!(s.escrow.owner, foreign_owner);
    assert_eq!(s.escrow.lamports, RENT_MINIMUM + DEPOSIT);
}

#[test]
fn close_on_a_malformed_record_is_rejected() {
    let mut s = initialized_setup();
    s.escrow.data = vec![1];
    let r = Processor::process(
        &s.program_id,
        &mut s.payer,
        &mut s.recipient,
        &mut s.escrow,
        RENT_MINIMUM,
        &[2],
    );
    assert_eq!(r, Err(EscrowError::InvalidAccountData));

    s.escrow.data = vec![0, s.bump];
    let r = Processor::process(
        &s.program_id,
        &mut s.payer,
        &mut s.recipient,
        &mut s.escrow,
        RENT_MINIMUM,
        &[2],
    );
    assert_eq!(r, Err(EscrowError::UninitializedAccount));
    assert_eq!(s.escrow.lamports, RENT_MINIMUM + DEPOSIT);
}

#[test]
fn complete_overflow_on_the_recipient_changes_nothing() {
    let mut s = initialized_setup();
    s.recipient.lamports = u64::MAX;
    let r = Processor::process(
        &s.program_id,
        &mut s.payer,
        &mut s.recipient,
        &mut s.escrow,
        RENT_MINIMUM,
        &[1],
    );
    assert_eq!(r, Err(EscrowError::ArithmeticOverflow));
    assert_eq!(s.recipient.lamports, u64::MAX);
    assert_eq!(s.payer.lamports, PAYER_FUNDS - RENT_MINIMUM - DEPOSIT);
    assert_eq!(s.escrow.lamports, RENT_MINIMUM + DEPOSIT);
    assert_eq!(s.escrow.owner, s.program_id);
}

#[test]
fn close_overflow_on_the_payer_changes_nothing() {
    let mut s = initialized_setup();
    s.payer.lamports = u64::MAX;
    let r = Processor::process(
        &s.program_id,
        &mut s.payer,
        &mut s.recipient,
        &mut s.escrow,
        RENT_MINIMUM,
        &[2],
    );
    assert_eq!(r, Err(EscrowError::ArithmeticOverflow));
    assert_eq!(s.payer.lamports, u64::MAX);
    assert_eq!(s.escrow.lamports, RENT_MINIMUM + DEPOSIT);
    assert_eq!(s.escrow.data, vec![1, s.bump]);
}

#[test]
fn close_account_erases_the_escrow_towards_the_receiver() {
    let mut receiver = fresh_account(key(&Pubkey::new_unique()), 10);
    let mut escrow = LedgerAccount::new(
        key(&Pubkey::new_unique()),
        500,
        key(&Pubkey::new_unique()),
        vec![1, 200],
    );
    let r = EscrowInstruction::close_account(&mut receiver, &mut escrow, 500);
    assert_eq!(r, Ok(()));
    assert_eq!(receiver.lamports, 510);
    assert_eq!(escrow.lamports, 0);
    assert_eq!(escrow.owner, system_key());
    assert_eq!(escrow.data.len(), 0);
}

#[test]
fn closed_escrow_address_is_reusable() {
    let mut s = initialized_setup();
    let r = Processor::process(
        &s.program_id,
        &mut s.payer,
        &mut s.recipient,
        &mut s.escrow,
        RENT_MINIMUM,
        &[2],
    );
    assert_eq!(r, Ok(()));
    // Closing returned the address to an uninitialized, system-owned state,
    // so the same pair can open a fresh escrow there.
    let r = Processor::process(
        &s.program_id,
        &mut s.payer,
        &mut s.recipient,
        &mut s.escrow,
        RENT_MINIMUM,
        &init_data(DEPOSIT),
    );
    assert_eq!(r, Ok(()));
    assert_eq!(s.escrow.lamports, RENT_MINIMUM + DEPOSIT);
    assert_eq!(s.escrow.owner, s.program_id);
    assert_eq!(s.escrow.data, vec![1, s.bump]);
}
