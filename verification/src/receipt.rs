//! Registering the receipt: the guard against a second use of a reference, the creation of
//! the receipt's account at its derived address, and the mark that it has been written.

use vstd::prelude::*;
use crate::account::{rent_exempt_minimum, rent_in_range, rent_minimum_balance, AccountInfo};
use crate::address::Address;
use crate::cpi::{seeds_view, Invocation, InvocationView};
use crate::error::ProgramError;
use crate::state::{packed, stamp_seeds, unpacked, Stamp, FLAG_ACCOUNT_SIZE};
use crate::utils::{calls_result_view, plan_new_account, spec_creation};

verus! {

/// The bytes that the text stands for in base58, as `bs58` decodes it; `None` for a text
/// that is not base58.
pub uninterp spec fn base58_decoded(text: Seq<char>) -> Option<Seq<u8>>;

/// The view of bytes that may be missing.
pub open spec fn bytes_view(r: Option<Vec<u8>>) -> Option<Seq<u8>> {
    match r {
        Some(bytes) => Some(bytes@),
        None => None,
    }
}

/// Calls `bs58::decode` and collects the bytes with `into_vec`. The result depends on the
/// text alone; the reason of a failure is dropped.
#[verifier::external_body]
fn base58_decode(text: &str) -> (r: Option<Vec<u8>>)
    ensures
        bytes_view(r) == base58_decoded(text@),
{
    bs58::decode(text).into_vec().ok()
}

/// Decodes a payment's reference, which must be base58.
pub fn decode_reference(reference: &str) -> (r: Result<Vec<u8>, ProgramError>)
    ensures
        match base58_decoded(reference@) {
            Some(bytes) => r is Ok && r->Ok_0@ == bytes,
            None => r == Err::<Vec<u8>, ProgramError>(ProgramError::InvalidArgument),
        },
{
    match base58_decode(reference) {
        Some(bytes) => Ok(bytes),
        None => Err(ProgramError::InvalidArgument),
    }
}

/// The address that the ledger derives for the program `program_id` from `seeds`, as
/// `solana_program` computes it; or the ledger's code of the failure to derive one, which
/// comes for seeds that are too many or too long, or that lead onto the curve.
pub uninterp spec fn derived_address(seeds: Seq<Seq<u8>>, program_id: Seq<u8>) -> Result<
    Seq<u8>,
    u64,
>;

/// The view of an address that may have been refused.
pub open spec fn derived_view(r: Result<Address, u64>) -> Result<Seq<u8>, u64> {
    match r {
        Ok(address) => Ok(address@),
        Err(code) => Err(code),
    }
}

/// Calls `solana_program::pubkey::Pubkey::create_program_address`. The result depends on
/// the seeds and the program alone.
#[verifier::external_body]
fn create_program_address(seeds: &Vec<Vec<u8>>, program_id: &Address) -> (r: Result<Address, u64>)
    ensures
        derived_view(r) == derived_address(seeds_view(seeds@), program_id@),
{
    let seeds: Vec<&[u8]> = seeds.iter().map(|seed| seed.as_slice()).collect();
    solana_program::pubkey::Pubkey::create_program_address(&seeds, &program_id.bytes.into())
        .map(|key| Address { bytes: key.to_bytes() })
        .map_err(|e| u64::from(solana_program::program_error::ProgramError::from(e)))
}

/// The address of the receipt for a decoded reference, given the address that was derived
/// from its seeds: `InvalidArgument` for a reference that is not base58, else the failure to
/// derive an address, or the address.
pub open spec fn spec_receipt_address(
    reference: Option<Seq<u8>>,
    derived: Result<Seq<u8>, u64>,
) -> Result<Seq<u8>, ProgramError> {
    match reference {
        None => Err(ProgramError::InvalidArgument),
        Some(_) => match derived {
            Err(code) => Err(ProgramError::spec_from_code(code)),
            Ok(address) => Ok(address),
        },
    }
}

/// The view of a receipt's address that may have been refused.
pub open spec fn address_view(r: Result<Address, ProgramError>) -> Result<Seq<u8>, ProgramError> {
    match r {
        Ok(address) => Ok(address@),
        Err(e) => Err(e),
    }
}

/// The address at which the receipt for `reference` and `bump` stands: the one that the
/// ledger derives for the program from the prefix, the decoded reference and the bump. It
/// is computed whenever it is asked for, and depends on nothing else.
pub fn receipt_address(program_id: &Address, reference: &str, bump: u8) -> (r: Result<
    Address,
    ProgramError,
>)
    ensures
        address_view(r) == spec_receipt_address(
            base58_decoded(reference@),
            derived_address(stamp_seeds(base58_decoded(reference@)->Some_0, bump), program_id@),
        ),
{
    let bytes = match decode_reference(reference) {
        Err(e) => {
            return Err(e);
        },
        Ok(bytes) => bytes,
    };
    let seeds = seeds_of(bytes, bump);
    match create_program_address(&seeds, program_id) {
        Err(code) => Err(ProgramError::from_code(code)),
        Ok(address) => Ok(address),
    }
}

/// Whether the receipt's address has been used: it holds a balance or data.
pub open spec fn receipt_used(stamp: AccountInfo) -> bool {
    stamp.lamports > 0 || stamp.data@.len() > 0
}

/// What registering makes of the decoded reference and of the rent-exempt balance that was
/// read: `AlreadyInitialized` for a receipt whose address has been used, before anything
/// else; `InvalidArgument` for a reference that is not base58; the failure to read the
/// balance; or the requests that create the receipt's account, signed by its seeds.
pub open spec fn spec_register(
    program_id: Seq<u8>,
    stamp: AccountInfo,
    payer: Seq<u8>,
    system_program: Seq<u8>,
    bump: u8,
    reference: Option<Seq<u8>>,
    minimum: Result<u64, u64>,
) -> Result<Seq<InvocationView>, ProgramError> {
    if receipt_used(stamp) {
        Err(ProgramError::AlreadyInitialized)
    } else {
        match reference {
            None => Err(ProgramError::InvalidArgument),
            Some(bytes) => spec_creation(
                program_id,
                stamp.key@,
                payer,
                system_program,
                FLAG_ACCOUNT_SIZE,
                stamp_seeds(bytes, bump),
                minimum,
            ),
        }
    }
}

/// The seeds of the receipt's address.
pub fn seeds_of(reference: Vec<u8>, bump: u8) -> (seeds: Vec<Vec<u8>>)
    ensures
        seeds_view(seeds@) == stamp_seeds(reference@, bump),
{
    let ghost bytes = reference@;
    let mut seeds: Vec<Vec<u8>> = Vec::new();
    seeds.push(Stamp::prefix());
    seeds.push(reference);
    seeds.push(vec![bump]);
    assert(seeds@[2]@ =~= seq![bump]);
    assert(seeds_view(seeds@) =~= stamp_seeds(bytes, bump));
    seeds
}

/// Plans the creation of the receipt from the decoded reference and the rent-exempt balance
/// that was read.
pub fn register_with(
    program_id: &Address,
    stamp: &AccountInfo,
    payer: &AccountInfo,
    system_program: &AccountInfo,
    bump: u8,
    reference: Option<Vec<u8>>,
    minimum: Result<u64, u64>,
) -> (r: Result<Vec<Invocation>, ProgramError>)
    ensures
        calls_result_view(r) == spec_register(program_id@, *stamp, payer.key@, system_program.key@, bump, bytes_view(reference), minimum),
{
    if stamp.lamports() > 0 || !stamp.data_is_empty() {
        return Err(ProgramError::AlreadyInitialized);
    }
    match reference {
        None => Err(ProgramError::InvalidArgument),
        Some(bytes) => {
            let seeds = seeds_of(bytes, bump);
            plan_new_account(
                program_id,
                stamp,
                payer,
                system_program,
                FLAG_ACCOUNT_SIZE,
                &seeds,
                minimum,
            )
        },
    }
}

/// Plans the creation of the receipt for `reference` and `bump` at the address `stamp`. The
/// guard against a used address comes first, before anything is allocated.
pub fn register(
    program_id: &Address,
    stamp: &AccountInfo,
    rent: &AccountInfo,
    payer: &AccountInfo,
    system_program: &AccountInfo,
    reference: &str,
    bump: u8,
) -> (r: Result<Vec<Invocation>, ProgramError>)
    requires
        rent_in_range(rent.data@, FLAG_ACCOUNT_SIZE),
    ensures
        calls_result_view(r) == spec_register(program_id@, *stamp, payer.key@, system_program.key@, bump, base58_decoded(reference@), rent_exempt_minimum(rent.key@, rent.data@, FLAG_ACCOUNT_SIZE)),
{
    let decoded = base58_decode(reference);
    let minimum = rent_minimum_balance(rent, FLAG_ACCOUNT_SIZE);
    register_with(program_id, stamp, payer, system_program, bump, decoded, minimum)
}

/// The bytes to store in the receipt's freshly created account: the record, marked as
/// initialized. A record that cannot be read is refused with `InvalidAccountData`, and one
/// that is marked already with `AlreadyInitialized`.
pub open spec fn spec_mark(data: Seq<u8>) -> Result<Seq<u8>, ProgramError> {
    match unpacked(data) {
        None => Err(ProgramError::InvalidAccountData),
        Some(stamp) => if stamp.is_initialized {
            Err(ProgramError::AlreadyInitialized)
        } else {
            Ok(packed(Stamp { is_initialized: true }))
        },
    }
}

/// The view of bytes that may have been refused.
pub open spec fn mark_view(r: Result<Vec<u8>, ProgramError>) -> Result<Seq<u8>, ProgramError> {
    match r {
        Ok(data) => Ok(data@),
        Err(e) => Err(e),
    }
}

/// Reads the record of the freshly created receipt and marks it as initialized.
pub fn mark(stamp: &AccountInfo) -> (r: Result<Vec<u8>, ProgramError>)
    ensures
        mark_view(r) == spec_mark(stamp.data@),
{
    let mut record = match Stamp::unpack_unchecked(stamp.data.as_slice()) {
        Err(e) => {
            return Err(e);
        },
        Ok(record) => record,
    };
    if record.is_initialized() {
        return Err(ProgramError::AlreadyInitialized);
    }
    record.is_initialized = true;
    Ok(record.pack())
}

} // verus!
