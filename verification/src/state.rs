//! The receipt: a one-byte record at an address derived from the payment's reference.

use vstd::prelude::*;
use crate::error::ProgramError;

verus! {

/// Size in bytes of the receipt's account.
pub const FLAG_ACCOUNT_SIZE: usize = 1;

/// The record that proves a reference has been processed.
#[derive(Clone, Copy, Debug, PartialEq, Eq, Structural)]
pub struct Stamp {
    pub is_initialized: bool,
}

/// The first seed of every receipt address: the text `stamp`.
pub open spec fn prefix_bytes() -> Seq<u8> {
    seq![115u8, 116, 97, 109, 112]
}

/// The seeds from which the ledger derives the receipt's address: the prefix, the decoded
/// reference and the bump.
pub open spec fn stamp_seeds(reference: Seq<u8>, bump: u8) -> Seq<Seq<u8>> {
    seq![prefix_bytes(), reference, seq![bump]]
}

/// The bytes that hold `stamp`.
pub open spec fn packed(stamp: Stamp) -> Seq<u8> {
    seq![if stamp.is_initialized { 1u8 } else { 0u8 }]
}

/// The record that `data` holds, if it holds one: a single byte, zero or one.
pub open spec fn unpacked(data: Seq<u8>) -> Option<Stamp> {
    if data.len() == FLAG_ACCOUNT_SIZE && data[0] == 0 {
        Some(Stamp { is_initialized: false })
    } else if data.len() == FLAG_ACCOUNT_SIZE && data[0] == 1 {
        Some(Stamp { is_initialized: true })
    } else {
        None
    }
}

impl Stamp {
    /// Size in bytes of a packed record.
    pub const LEN: usize = 1;

    /// The seed prefix, `stamp`.
    pub fn prefix() -> (prefix: Vec<u8>)
        ensures
            prefix@ == prefix_bytes(),
    {
        let prefix = vec![115u8, 116, 97, 109, 112];
        assert(prefix@ =~= prefix_bytes());
        prefix
    }

    /// Whether the receipt has been written.
    pub fn is_initialized(&self) -> (flag: bool)
        ensures
            flag == self.is_initialized,
    {
        self.is_initialized
    }

    /// Reads a record, whether or not it is initialized.
    pub fn unpack_unchecked(data: &[u8]) -> (r: Result<Stamp, ProgramError>)
        ensures
            r == match unpacked(data@) {
                Some(stamp) => Ok::<Stamp, ProgramError>(stamp),
                None => Err(ProgramError::InvalidAccountData),
            },
    {
        if data.len() != 1 {
            return Err(ProgramError::InvalidAccountData);
        }
        if data[0] == 0 {
            Ok(Stamp { is_initialized: false })
        } else if data[0] == 1 {
            Ok(Stamp { is_initialized: true })
        } else {
            Err(ProgramError::InvalidAccountData)
        }
    }

    /// The bytes to store for this record.
    pub fn pack(&self) -> (data: Vec<u8>)
        ensures
            data@ == packed(*self),
            data@.len() == FLAG_ACCOUNT_SIZE,
    {
        let byte: u8 = if self.is_initialized { 1 } else { 0 };
        let data = vec![byte];
        assert(data@ =~= packed(*self));
        data
    }
}

/// What is packed can be read back, and only what `pack` writes can be read.
pub proof fn lemma_pack_round_trip(stamp: Stamp, data: Seq<u8>)
    ensures
        unpacked(packed(stamp)) == Some(stamp),
        unpacked(data) is Some ==> packed(unpacked(data)->Some_0) == data,
{
    if unpacked(data) is Some {
        assert(packed(unpacked(data)->Some_0) =~= data);
    }
}

} // verus!
