//! Account addresses and the well-known addresses the program compares against.

use vstd::prelude::*;

verus! {

/// Number of bytes in an account address.
pub const PUBKEY_BYTES: usize = 32;

/// The address of an account on the ledger.
#[derive(Clone, Copy, Debug, PartialEq, Eq, Hash)]
pub struct Address {
    pub bytes: [u8; 32],
}

impl View for Address {
    type V = Seq<u8>;

    open spec fn view(&self) -> Seq<u8> {
        self.bytes@
    }
}

impl Address {
    /// The address made of the given bytes.
    pub fn new(bytes: [u8; 32]) -> (a: Address)
        ensures
            a@ == bytes@,
            a.bytes == bytes,
    {
        Address { bytes }
    }

    /// The bytes of the address.
    pub fn to_bytes(&self) -> (bytes: [u8; 32])
        ensures
            bytes@ == self@,
    {
        self.bytes
    }
}

/// The identifier of the wrapped native asset.
pub open spec fn native_mint_bytes() -> Seq<u8> {
    seq![
        6u8, 155, 136, 87, 254, 171, 129, 132, 251, 104, 127, 99, 70, 24, 192, 53,
        218, 196, 57, 220, 26, 235, 59, 85, 152, 160, 240, 0, 0, 0, 0, 1,
    ]
}

/// The identifier of the token service.
pub open spec fn token_program_bytes() -> Seq<u8> {
    seq![
        6u8, 221, 246, 225, 215, 101, 161, 147, 217, 203, 225, 70, 206, 235, 121, 172,
        28, 180, 133, 237, 95, 91, 55, 145, 58, 140, 245, 133, 126, 255, 0, 169,
    ]
}

/// The identifier of this program.
pub open spec fn program_id_bytes() -> Seq<u8> {
    seq![
        9u8, 29, 155, 235, 66, 178, 147, 18, 241, 154, 127, 242, 92, 33, 185, 59,
        95, 134, 60, 139, 72, 233, 121, 73, 47, 53, 45, 194, 109, 161, 139, 101,
    ]
}

/// Calls `solana_program::program_memory::sol_memcmp`, which compares the first `n` bytes of
/// two slices as C's `memcmp` does: the result is zero when they agree, and otherwise the
/// difference of the first two bytes that differ.
#[verifier::external_body]
#[allow(deprecated)]
fn sol_memcmp(s1: &[u8], s2: &[u8], n: usize) -> (r: i32)
    requires
        n <= s1@.len(),
        n <= s2@.len(),
    ensures
        (r == 0) <==> (forall|i: int| 0 <= i < n ==> s1@[i] == s2@[i]),
        r != 0 ==> exists|k: int|
            0 <= k < n && r == s1@[k] - s2@[k] && (forall|i: int| 0 <= i < k ==> s1@[i] == s2@[i]),
{
    solana_program::program_memory::sol_memcmp(s1, s2, n)
}

/// Calls `spl_token::native_mint::id`, the identifier of the wrapped native asset.
#[verifier::external_body]
fn native_mint_id() -> (id: Address)
    ensures
        id@ == native_mint_bytes(),
{
    Address { bytes: spl_token::native_mint::id().to_bytes() }
}

/// Calls `spl_token::id`, the identifier of the token service.
#[verifier::external_body]
fn spl_token_id() -> (id: Address)
    ensures
        id@ == token_program_bytes(),
{
    Address { bytes: spl_token::id().to_bytes() }
}

/// Checks two addresses for equality.
pub fn cmp_pubkeys(a: &Address, b: &Address) -> (equal: bool)
    ensures
        equal == (a@ == b@),
{
    let equal = sol_memcmp(a.bytes.as_slice(), b.bytes.as_slice(), PUBKEY_BYTES) == 0;
    proof {
        if equal {
            assert(a@ =~= b@);
        }
    }
    equal
}

/// The identifier of the wrapped native asset.
pub fn native_mint() -> (id: Address)
    ensures
        id@ == native_mint_bytes(),
{
    native_mint_id()
}

/// The identifier of the token service that owns every holding account.
pub fn token_program() -> (id: Address)
    ensures
        id@ == token_program_bytes(),
{
    spl_token_id()
}

/// The identifier of this program.
pub fn id() -> (id: Address)
    ensures
        id@ == program_id_bytes(),
{
    let id = Address {
        bytes: [
            9, 29, 155, 235, 66, 178, 147, 18, 241, 154, 127, 242, 92, 33, 185, 59,
            95, 134, 60, 139, 72, 233, 121, 73, 47, 53, 45, 194, 109, 161, 139, 101,
        ],
    };
    assert(id@ =~= program_id_bytes());
    id
}

/// Whether `candidate` is this program's identifier.
pub fn check_id(candidate: &Address) -> (same: bool)
    ensures
        same == (candidate@ == program_id_bytes()),
{
    let own = id();
    cmp_pubkeys(candidate, &own)
}

} // verus!
