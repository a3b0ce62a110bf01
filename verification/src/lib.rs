use vstd::prelude::*;

pub mod account;
pub mod error;
pub mod instruction;
pub mod processor;
pub mod state;

use crate::account::ADDRESS_LEN;
use crate::error::EscrowError;

verus! {

/// The domain tag that begins every escrow derivation: the bytes of
/// `escrow` in ASCII.
pub open spec fn escrow_tag() -> Seq<u8> {
    seq![101u8, 115u8, 99u8, 114u8, 111u8, 119u8]
}

/// The address the host collaborator derives for this program from the
/// domain tag, the two party identities and a candidate bump — or nothing,
/// when that candidate yields no valid program address. The derivation is a
/// pure function of these inputs.
pub uninterp spec fn program_address_of(
    program: Seq<u8>,
    tag: Seq<u8>,
    payer: Seq<u8>,
    recipient: Seq<u8>,
    bump: u8,
) -> Option<Seq<u8>>;

/// Relies on `solana_program::pubkey::Pubkey::create_program_address`: for
/// fixed seeds and program identity the outcome is deterministic — either
/// the derived 32-byte address, or failure when the candidate bump yields
/// no valid off-curve address (or a seed exceeds the permitted length).
#[verifier::external_body]
fn derive_candidate_address(
    tag: &Vec<u8>,
    payer: &Vec<u8>,
    recipient: &Vec<u8>,
    bump: u8,
    program_id: &Vec<u8>,
) -> (r: Option<Vec<u8>>)
    requires
        program_id@.len() == ADDRESS_LEN,
    ensures
        (match r {
            Some(a) => program_address_of(program_id@, tag@, payer@, recipient@, bump) == Some(a@)
                && a@.len() == ADDRESS_LEN,
            None => program_address_of(program_id@, tag@, payer@, recipient@, bump) is None,
        }),
{
    let program = solana_program::pubkey::Pubkey::try_from(program_id.as_slice()).unwrap();
    let seeds: &[&[u8]] = &[tag.as_slice(), payer.as_slice(), recipient.as_slice(), &[bump]];
    match solana_program::pubkey::Pubkey::create_program_address(seeds, &program) {
        Ok(address) => Some(address.to_bytes().to_vec()),
        Err(_) => None,
    }
}

/// Holds when `bump` is the canonical bump for this (program, payer,
/// recipient) triple and `addr` the escrow address it derives: the bump
/// yields `addr`, and every larger bump yields nothing.
pub open spec fn canonical_bump_at(
    program: Seq<u8>,
    payer: Seq<u8>,
    recipient: Seq<u8>,
    addr: Seq<u8>,
    bump: u8,
) -> bool {
    &&& program_address_of(program, escrow_tag(), payer, recipient, bump) == Some(addr)
    &&& forall|b: u8| b > bump ==> program_address_of(program, escrow_tag(), payer, recipient, b) is None
}

/// The canonical escrow address and bump for a (program, payer, recipient)
/// triple, when any candidate bump derives an address at all.
pub open spec fn spec_find_escrow_address(
    program: Seq<u8>,
    payer: Seq<u8>,
    recipient: Seq<u8>,
) -> Option<(Seq<u8>, u8)> {
    if exists|addr: Seq<u8>, bump: u8| canonical_bump_at(program, payer, recipient, addr, bump) {
        let (addr, bump) = choose|addr: Seq<u8>, bump: u8| canonical_bump_at(program, payer, recipient, addr, bump);
        Some((addr, bump))
    } else {
        None
    }
}

/// Law: the derived escrow address and bump are a pure function of the
/// program identity and the two party identities — any two canonical
/// derivations for the same triple agree.
pub proof fn lemma_escrow_address_deterministic(
    program: Seq<u8>,
    payer: Seq<u8>,
    recipient: Seq<u8>,
    a1: Seq<u8>,
    b1: u8,
    a2: Seq<u8>,
    b2: u8,
)
    requires
        canonical_bump_at(program, payer, recipient, a1, b1),
        canonical_bump_at(program, payer, recipient, a2, b2),
    ensures
        a1 == a2,
        b1 == b2,
{
    if b1 < b2 {
        assert(program_address_of(program, escrow_tag(), payer, recipient, b2) is None);
    }
    if b2 < b1 {
        assert(program_address_of(program, escrow_tag(), payer, recipient, b1) is None);
    }
    assert(Some(a1) == Some(a2));
}

/// The seed inputs of the escrow derivation: the fixed domain tag and the
/// two party identities.
pub fn get_escrow_seeds(payer_pkey: &Vec<u8>, recipient_pkey: &Vec<u8>) -> (r: (Vec<u8>, Vec<u8>, Vec<u8>))
    ensures
        r.0@ == escrow_tag(),
        r.1@ == payer_pkey@,
        r.2@ == recipient_pkey@,
{
    let mut tag: Vec<u8> = Vec::new();
    tag.push(101);
    tag.push(115);
    tag.push(99);
    tag.push(114);
    tag.push(111);
    tag.push(119);
    assert(tag@ =~= escrow_tag());
    (tag, clone_bytes(payer_pkey), clone_bytes(recipient_pkey))
}

/// A copy of a byte buffer.
pub(crate) fn clone_bytes(src: &Vec<u8>) -> (r: Vec<u8>)
    ensures
        r@ == src@,
{
    let mut r: Vec<u8> = Vec::new();
    let n = src.len();
    let mut i: usize = 0;
    assert(r@ =~= src@.subrange(0, 0));
    while i < n
        invariant
            n == src@.len(),
            i <= n,
            r@ == src@.subrange(0, i as int),
        decreases n - i,
    {
        r.push(src[i]);
        proof {
            assert(r@ =~= src@.subrange(0, i as int + 1));
        }
        i = i + 1;
    }
    proof {
        assert(r@ =~= src@);
    }
    r
}

/// Searches the candidate bumps from 255 downwards and returns the first —
/// hence canonical — bump that derives an address, with that address.
/// Returns nothing only when no candidate derives one.
pub fn find_escrow_address(payer_pkey: &Vec<u8>, recipient_pkey: &Vec<u8>, program_id: &Vec<u8>) -> (r: Option<
    (Vec<u8>, u8),
>)
    requires
        program_id@.len() == ADDRESS_LEN,
    ensures
        (match r {
            Some(pair) => canonical_bump_at(
                program_id@,
                payer_pkey@,
                recipient_pkey@,
                pair.0@,
                pair.1,
            ) && pair.0@.len() == ADDRESS_LEN && spec_find_escrow_address(program_id@, payer_pkey@, recipient_pkey@)
                == Some((pair.0@, pair.1)),
            None => spec_find_escrow_address(program_id@, payer_pkey@, recipient_pkey@) is None,
        }),
{
    let (tag, payer_seed, recipient_seed) = get_escrow_seeds(payer_pkey, recipient_pkey);
    let mut bump: u8 = 255;
    loop
        invariant
            program_id@.len() == ADDRESS_LEN,
            tag@ == escrow_tag(),
            payer_seed@ == payer_pkey@,
            recipient_seed@ == recipient_pkey@,
            forall|b: u8| b > bump ==> program_address_of(
                program_id@,
                escrow_tag(),
                payer_pkey@,
                recipient_pkey@,
                b,
            ) is None,
        decreases bump,
    {
        match derive_candidate_address(&tag, &payer_seed, &recipient_seed, bump, program_id) {
            Some(addr) => {
                proof {
                    lemma_canonical_is_found(program_id@, payer_pkey@, recipient_pkey@, addr@, bump);
                }
                return Some((addr, bump));
            },
            None => {
                if bump == 0 {
                    proof {
                        assert forall|addr: Seq<u8>, b: u8| !canonical_bump_at(
                            program_id@,
                            payer_pkey@,
                            recipient_pkey@,
                            addr,
                            b,
                        ) by {
                            assert(program_address_of(
                                program_id@,
                                escrow_tag(),
                                payer_pkey@,
                                recipient_pkey@,
                                b,
                            ) is None);
                        }
                    }
                    return None;
                }
                bump = bump - 1;
            },
        }
    }
}

/// When a canonical pair exists, the canonical derivation yields exactly it.
proof fn lemma_canonical_is_found(program: Seq<u8>, payer: Seq<u8>, recipient: Seq<u8>, addr: Seq<u8>, bump: u8)
    requires
        canonical_bump_at(program, payer, recipient, addr, bump),
    ensures
        spec_find_escrow_address(program, payer, recipient) == Some((addr, bump)),
{
    let (a2, b2) = choose|a2: Seq<u8>, b2: u8| canonical_bump_at(program, payer, recipient, a2, b2);
    lemma_escrow_address_deterministic(program, payer, recipient, addr, bump, a2, b2);
}

/// What validating a supplied escrow address against the derivation yields:
/// re-derives the address from the tag, the party identities and the given
/// bump, and accepts exactly when it matches the supplied one.
pub open spec fn spec_check_pda(
    payer: Seq<u8>,
    recipient: Seq<u8>,
    escrow_pda: Seq<u8>,
    bump: u8,
    program: Seq<u8>,
) -> Result<(), EscrowError> {
    match program_address_of(program, escrow_tag(), payer, recipient, bump) {
        None => Err(EscrowError::InvalidSeeds),
        Some(expected) => if expected == escrow_pda {
            Ok(())
        } else {
            Err(EscrowError::InvalidInstructionData)
        },
    }
}

/// Re-derives the escrow address for a given bump and requires it to equal
/// the supplied one. This is the authorization mechanism: only the party
/// that supplies the (payer, recipient) pair behind the account's own bump
/// can operate on it.
pub fn check_provided_pda(
    payer_pkey: &Vec<u8>,
    recipient_pkey: &Vec<u8>,
    escrow_pda: &Vec<u8>,
    bump: u8,
    program_id: &Vec<u8>,
) -> (r: Result<(), EscrowError>)
    requires
        program_id@.len() == ADDRESS_LEN,
    ensures
        r == spec_check_pda(payer_pkey@, recipient_pkey@, escrow_pda@, bump, program_id@),
{
    let (tag, payer_seed, recipient_seed) = get_escrow_seeds(payer_pkey, recipient_pkey);
    match derive_candidate_address(&tag, &payer_seed, &recipient_seed, bump, program_id) {
        None => Err(EscrowError::InvalidSeeds),
        Some(expected) => {
            if crate::account::bytes_eq(&expected, escrow_pda) {
                Ok(())
            } else {
                Err(EscrowError::InvalidInstructionData)
            }
        },
    }
}

} // verus!
