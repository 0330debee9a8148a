//! Raw account inputs: the per-invocation snapshot of one account as the
//! calling runtime hands it to the program, together with its mathematical
//! model and a few byte-level helpers.

use vstd::prelude::*;

verus! {

/// Every address in the system is a fixed-length byte identifier of this
/// many bytes.
pub const ADDRESS_LEN: usize = 32;

/// One account as supplied by the transaction, fresh per invocation.
///
/// The program never persists references across invocations: each call sees
/// a new, authoritative snapshot of every account it is given.
#[derive(Debug)]
pub struct RawAccountInput {
    /// The account's address.
    pub address: Vec<u8>,
    /// The program that owns this account.
    pub owner: Vec<u8>,
    /// Whether the transaction's submitter signed for this account.
    pub is_signer: bool,
    /// Whether this invocation may mutate the account.
    pub is_writable: bool,
    /// The account's balance counter.
    pub lamports: u64,
    /// The account's opaque data buffer.
    pub data: Vec<u8>,
}

/// The mathematical model of a [`RawAccountInput`]: the same fields with
/// byte vectors abstracted to sequences.
pub struct AccountModel {
    pub address: Seq<u8>,
    pub owner: Seq<u8>,
    pub is_signer: bool,
    pub is_writable: bool,
    pub lamports: u64,
    pub data: Seq<u8>,
}

impl View for RawAccountInput {
    type V = AccountModel;

    open spec fn view(&self) -> AccountModel {
        AccountModel {
            address: self.address@,
            owner: self.owner@,
            is_signer: self.is_signer,
            is_writable: self.is_writable,
            lamports: self.lamports,
            data: self.data@,
        }
    }
}

impl DeepView for RawAccountInput {
    type V = AccountModel;

    open spec fn deep_view(&self) -> AccountModel {
        self.view()
    }
}

/// True exactly when a byte sequence has the shape of an address.
pub open spec fn is_address(s: Seq<u8>) -> bool {
    s.len() == ADDRESS_LEN
}

/// Byte-vector equality, decided element by element.
pub fn bytes_eq(a: &Vec<u8>, b: &Vec<u8>) -> (r: bool)
    ensures
        r == (a@ == b@),
{
    if a.len() != b.len() {
        assert(a@ != b@);
        return false;
    }
    let n: usize = a.len();
    let mut i: usize = 0;
    while i < n
        invariant
            i <= n,
            n == a@.len(),
            n == b@.len(),
            forall|j: int| 0 <= j < i ==> a@[j] == b@[j],
        decreases n - i,
    {
        if a[i] != b[i] {
            return false;
        }
        i = i + 1;
    }
    assert(a@ =~= b@);
    true
}

/// An element-wise copy of a byte vector.
pub fn copy_bytes(v: &Vec<u8>) -> (r: Vec<u8>)
    ensures
        r@ == v@,
{
    let n: usize = v.len();
    let mut r: Vec<u8> = Vec::new();
    let mut i: usize = 0;
    while i < n
        invariant
            i <= n,
            n == v@.len(),
            r@ =~= v@.subrange(0, i as int),
        decreases n - i,
    {
        r.push(v[i]);
        i = i + 1;
    }
    assert(r@ =~= v@);
    r
}

impl RawAccountInput {
    /// A fresh value holding the same snapshot.
    pub fn snapshot(&self) -> (r: RawAccountInput)
        ensures
            r@ == self@,
    {
        RawAccountInput {
            address: copy_bytes(&self.address),
            owner: copy_bytes(&self.owner),
            is_signer: self.is_signer,
            is_writable: self.is_writable,
            lamports: self.lamports,
            data: copy_bytes(&self.data),
        }
    }
}

} // verus!
