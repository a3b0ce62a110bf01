use vstd::prelude::*;

verus! {

/// Length in bytes of a ledger address.
pub const ADDRESS_LEN: usize = 32;

/// Mathematical view of a ledger account: its address, its balance, the
/// identity of the program that owns it, and its storage content.
#[verifier::ext_equal]
pub ghost struct AccountView {
    pub key: Seq<u8>,
    pub lamports: u64,
    pub owner: Seq<u8>,
    pub data: Seq<u8>,
}

/// A ledger account as this program sees it: an addressable slot holding a
/// balance and a byte buffer, gated by an owning-program identity.
///
/// The host runtime hands the program exclusive access to the accounts an
/// invocation declares; the processor mutates these values directly.
pub struct LedgerAccount {
    pub key: Vec<u8>,
    pub lamports: u64,
    pub owner: Vec<u8>,
    pub data: Vec<u8>,
}

impl View for LedgerAccount {
    type V = AccountView;

    open spec fn view(&self) -> AccountView {
        AccountView { key: self.key@, lamports: self.lamports, owner: self.owner@, data: self.data@ }
    }
}

impl LedgerAccount {
    pub fn new(key: Vec<u8>, lamports: u64, owner: Vec<u8>, data: Vec<u8>) -> (r: Self)
        ensures
            r@ == (AccountView { key: key@, lamports, owner: owner@, data: data@ }),
    {
        Self { key, lamports, owner, data }
    }
}

/// The system collaborator's identity: the all-zero 32-byte address.
pub open spec fn system_id() -> Seq<u8> {
    Seq::new(ADDRESS_LEN as nat, |i: int| 0u8)
}

/// Relies on `solana_program::system_program::ID`, the system program's
/// identity: the 32-byte zero address (base58 `11111111111111111111111111111111`).
#[verifier::external_body]
pub fn system_program_id() -> (r: Vec<u8>)
    ensures
        r@ == system_id(),
{
    solana_program::system_program::ID.to_bytes().to_vec()
}

/// Byte-for-byte comparison of two buffers.
pub fn bytes_eq(a: &Vec<u8>, b: &Vec<u8>) -> (r: bool)
    ensures
        r == (a@ == b@),
{
    if a.len() != b.len() {
        assert(a@ != b@);
        return false;
    }
    let n = a.len();
    let mut i: usize = 0;
    while i < n
        invariant
            n == a@.len() == b@.len(),
            i <= n,
            forall|j: int| 0 <= j < i ==> a@[j] == b@[j],
        decreases n - i,
    {
        if a[i] != b[i] {
            assert(a@ != b@);
            return false;
        }
        i = i + 1;
    }
    assert(a@ =~= b@);
    true
}

} // verus!
