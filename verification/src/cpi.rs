//! Requests to other programs: the instruction to run, the accounts to hand over and the
//! seeds that sign for a derived address. The program only builds such requests; whoever
//! drives it performs them and reports how each ended.

use vstd::prelude::*;
use vstd::bytes::spec_u64_to_le_bytes;
use crate::address::{token_program_bytes, Address};
use crate::error::INCORRECT_PROGRAM_ID;

verus! {

/// An account as an instruction refers to it.
#[derive(Clone, Copy, Debug, PartialEq, Eq)]
pub struct AccountMeta {
    pub pubkey: Address,
    pub is_signer: bool,
    pub is_writable: bool,
}

/// What an `AccountMeta` stands for.
pub struct MetaView {
    pub pubkey: Seq<u8>,
    pub is_signer: bool,
    pub is_writable: bool,
}

impl View for AccountMeta {
    type V = MetaView;

    open spec fn view(&self) -> MetaView {
        MetaView { pubkey: self.pubkey@, is_signer: self.is_signer, is_writable: self.is_writable }
    }
}

/// An instruction for another program.
#[derive(Clone, Debug, PartialEq, Eq)]
pub struct Instruction {
    pub program_id: Address,
    pub accounts: Vec<AccountMeta>,
    pub data: Vec<u8>,
}

/// What an `Instruction` stands for.
pub struct InstructionView {
    pub program_id: Seq<u8>,
    pub accounts: Seq<MetaView>,
    pub data: Seq<u8>,
}

impl View for Instruction {
    type V = InstructionView;

    open spec fn view(&self) -> InstructionView {
        InstructionView {
            program_id: self.program_id@,
            accounts: Seq::new(self.accounts@.len(), |i: int| self.accounts@[i]@),
            data: self.data@,
        }
    }
}

/// One request to another program.
#[derive(Clone, Debug, PartialEq, Eq)]
pub struct Invocation {
    /// The instruction to run.
    pub instruction: Instruction,
    /// The addresses of the accounts to hand over, in order.
    pub accounts: Vec<Address>,
    /// The seeds of the derived address that signs; empty when none does.
    pub signer_seeds: Vec<Vec<u8>>,
}

/// The addresses of a list, each as its bytes.
pub open spec fn addresses_view(addresses: Seq<Address>) -> Seq<Seq<u8>> {
    Seq::new(addresses.len(), |i: int| addresses[i]@)
}

/// The seeds of a list, each as its bytes.
pub open spec fn seeds_view(seeds: Seq<Vec<u8>>) -> Seq<Seq<u8>> {
    Seq::new(seeds.len(), |i: int| seeds[i]@)
}

/// What an `Invocation` stands for.
pub struct InvocationView {
    pub instruction: InstructionView,
    pub accounts: Seq<Seq<u8>>,
    pub signer_seeds: Seq<Seq<u8>>,
}

impl View for Invocation {
    type V = InvocationView;

    open spec fn view(&self) -> InvocationView {
        InvocationView {
            instruction: self.instruction@,
            accounts: addresses_view(self.accounts@),
            signer_seeds: seeds_view(self.signer_seeds@),
        }
    }
}

impl Invocation {
    /// The request made of its three parts.
    pub fn new(instruction: Instruction, accounts: Vec<Address>, signer_seeds: Vec<Vec<u8>>) -> (call:
        Invocation)
        ensures
            call@.instruction == instruction@,
            call@.accounts == addresses_view(accounts@),
            call@.signer_seeds == seeds_view(signer_seeds@),
    {
        Invocation { instruction, accounts, signer_seeds }
    }
}

/// A copy of a list of seeds.
pub fn copy_seeds(seeds: &Vec<Vec<u8>>) -> (copy: Vec<Vec<u8>>)
    ensures
        seeds_view(copy@) == seeds_view(seeds@),
{
    let mut copy: Vec<Vec<u8>> = Vec::new();
    let mut i: usize = 0;
    while i < seeds.len()
        invariant
            i <= seeds@.len(),
            copy@.len() == i,
            forall|k: int| 0 <= k < i ==> copy@[k]@ == seeds@[k]@,
        decreases seeds@.len() - i,
    {
        let seed = seeds[i].clone();
        copy.push(seed);
        i = i + 1;
    }
    assert(seeds_view(copy@) =~= seeds_view(seeds@));
    copy
}

/// The views of a list of invocations.
pub open spec fn invocation_views(calls: Seq<Invocation>) -> Seq<InvocationView> {
    Seq::new(calls.len(), |i: int| calls[i]@)
}

/// The identifier of the system program: thirty-two zero bytes.
pub open spec fn system_program_bytes() -> Seq<u8> {
    Seq::new(32, |i: int| 0u8)
}

/// The identifier of the extended token service.
pub open spec fn token_2022_program_bytes() -> Seq<u8> {
    seq![
        6u8, 221, 246, 225, 238, 117, 143, 222, 24, 66, 93, 188, 228, 108, 205, 218,
        182, 26, 252, 77, 131, 185, 13, 39, 254, 189, 249, 40, 216, 161, 139, 252,
    ]
}

/// An account that an instruction may write to.
pub open spec fn writable(pubkey: Seq<u8>, is_signer: bool) -> MetaView {
    MetaView { pubkey, is_signer, is_writable: true }
}

/// An account that an instruction only reads.
pub open spec fn readonly(pubkey: Seq<u8>, is_signer: bool) -> MetaView {
    MetaView { pubkey, is_signer, is_writable: false }
}

/// The system program's instruction that moves `lamports` from one account to another.
pub open spec fn system_transfer_view(from: Seq<u8>, to: Seq<u8>, lamports: u64) -> InstructionView {
    InstructionView {
        program_id: system_program_bytes(),
        accounts: seq![writable(from, true), writable(to, false)],
        data: seq![2u8, 0, 0, 0] + spec_u64_to_le_bytes(lamports),
    }
}

/// The system program's instruction that gives an account `space` bytes of data.
pub open spec fn system_allocate_view(account: Seq<u8>, space: u64) -> InstructionView {
    InstructionView {
        program_id: system_program_bytes(),
        accounts: seq![writable(account, true)],
        data: seq![8u8, 0, 0, 0] + spec_u64_to_le_bytes(space),
    }
}

/// The system program's instruction that hands an account over to the program `owner`.
pub open spec fn system_assign_view(account: Seq<u8>, owner: Seq<u8>) -> InstructionView {
    InstructionView {
        program_id: system_program_bytes(),
        accounts: seq![writable(account, true)],
        data: seq![1u8, 0, 0, 0] + owner,
    }
}

/// Whether `program` is one of the two token services that take a checked transfer.
pub open spec fn is_token_service(program: Seq<u8>) -> bool {
    program == token_program_bytes() || program == token_2022_program_bytes()
}

/// The token service's checked transfer of `amount` at `decimals` digits of precision,
/// signed by `authority` itself.
pub open spec fn transfer_checked_view(
    token_program: Seq<u8>,
    source: Seq<u8>,
    mint: Seq<u8>,
    destination: Seq<u8>,
    authority: Seq<u8>,
    amount: u64,
    decimals: u8,
) -> InstructionView {
    InstructionView {
        program_id: token_program,
        accounts: seq![
            writable(source, false),
            readonly(mint, false),
            writable(destination, false),
            readonly(authority, true),
        ],
        data: seq![12u8] + spec_u64_to_le_bytes(amount) + seq![decimals],
    }
}

/// What building a checked transfer gives: the instruction, or the ledger's code for an
/// incorrect program identifier when `token_program` is not a token service.
pub open spec fn transfer_checked_result(
    token_program: Seq<u8>,
    source: Seq<u8>,
    mint: Seq<u8>,
    destination: Seq<u8>,
    authority: Seq<u8>,
    amount: u64,
    decimals: u8,
) -> Result<InstructionView, u64> {
    if is_token_service(token_program) {
        Ok(transfer_checked_view(token_program, source, mint, destination, authority, amount, decimals))
    } else {
        Err(INCORRECT_PROGRAM_ID)
    }
}

/// The view of an instruction that may have been refused.
pub open spec fn result_view(r: Result<Instruction, u64>) -> Result<InstructionView, u64> {
    match r {
        Ok(ix) => Ok(ix@),
        Err(code) => Err(code),
    }
}

/// The instruction that creates the associated holding account of `wallet` for `mint`, paid
/// for by `funder`, as `spl_associated_token_account` builds it. It holds the address that
/// the service derives for the holding account.
pub uninterp spec fn associated_account_creation(
    funder: Seq<u8>,
    wallet: Seq<u8>,
    mint: Seq<u8>,
    token_program: Seq<u8>,
) -> InstructionView;

/// Calls `solana_program::system_instruction::transfer`: the system program's transfer, with
/// the sender as writable signer and the recipient writable, and as data the tag 2 in four
/// little-endian bytes followed by the amount in eight.
#[verifier::external_body]
#[allow(deprecated)]
pub(crate) fn system_transfer(from: &Address, to: &Address, lamports: u64) -> (ix: Instruction)
    ensures
        ix@ == system_transfer_view(from@, to@, lamports),
{
    let ix = solana_program::system_instruction::transfer(&from.bytes.into(), &to.bytes.into(), lamports);
    let accounts = ix.accounts.iter().map(|m| AccountMeta { pubkey: Address { bytes: m.pubkey.to_bytes() }, is_signer: m.is_signer, is_writable: m.is_writable }).collect();
    Instruction { program_id: Address { bytes: ix.program_id.to_bytes() }, accounts, data: ix.data }
}

/// Calls `solana_program::system_instruction::allocate`: the account as writable signer, and
/// as data the tag 8 in four little-endian bytes followed by the size in eight.
#[verifier::external_body]
#[allow(deprecated)]
pub(crate) fn system_allocate(account: &Address, space: u64) -> (ix: Instruction)
    ensures
        ix@ == system_allocate_view(account@, space),
{
    let ix = solana_program::system_instruction::allocate(&account.bytes.into(), space);
    let accounts = ix.accounts.iter().map(|m| AccountMeta { pubkey: Address { bytes: m.pubkey.to_bytes() }, is_signer: m.is_signer, is_writable: m.is_writable }).collect();
    Instruction { program_id: Address { bytes: ix.program_id.to_bytes() }, accounts, data: ix.data }
}

/// Calls `solana_program::system_instruction::assign`: the account as writable signer, and as
/// data the tag 1 in four little-endian bytes followed by the new owner's address.
#[verifier::external_body]
#[allow(deprecated)]
pub(crate) fn system_assign(account: &Address, owner: &Address) -> (ix: Instruction)
    ensures
        ix@ == system_assign_view(account@, owner@),
{
    let ix = solana_program::system_instruction::assign(&account.bytes.into(), &owner.bytes.into());
    let accounts = ix.accounts.iter().map(|m| AccountMeta { pubkey: Address { bytes: m.pubkey.to_bytes() }, is_signer: m.is_signer, is_writable: m.is_writable }).collect();
    Instruction { program_id: Address { bytes: ix.program_id.to_bytes() }, accounts, data: ix.data }
}

/// Calls `spl_token_2022::instruction::transfer_checked` with no further signers. It refuses
/// a program that is neither token service with the ledger's code for an incorrect program
/// identifier; otherwise the instruction names source, mint, destination and the signing
/// authority, and its data is the tag 12, the amount in eight little-endian bytes and the
/// number of decimals.
#[verifier::external_body]
pub(crate) fn token_transfer_checked(
    token_program: &Address,
    source: &Address,
    mint: &Address,
    destination: &Address,
    authority: &Address,
    amount: u64,
    decimals: u8,
) -> (r: Result<Instruction, u64>)
    ensures
        result_view(r) == transfer_checked_result(token_program@, source@, mint@, destination@, authority@, amount, decimals),
{
    let ix = spl_token_2022::instruction::transfer_checked(
        &token_program.bytes.into(), &source.bytes.into(), &mint.bytes.into(),
        &destination.bytes.into(), &authority.bytes.into(), &[], amount, decimals,
    ).map_err(u64::from)?;
    let accounts = ix.accounts.iter().map(|m| AccountMeta { pubkey: Address { bytes: m.pubkey.to_bytes() }, is_signer: m.is_signer, is_writable: m.is_writable }).collect();
    Ok(Instruction { program_id: Address { bytes: ix.program_id.to_bytes() }, accounts, data: ix.data })
}

/// Calls `spl_associated_token_account::instruction::create_associated_token_account`. The
/// instruction depends on the four addresses alone. The builder searches for the bump of
/// the holding account's derived address and gives up only if none of the 256 candidates
/// lies off the curve; like the builder itself, this contract takes the search to succeed.
#[verifier::external_body]
pub(crate) fn create_associated_token_account(
    funder: &Address,
    wallet: &Address,
    mint: &Address,
    token_program: &Address,
) -> (ix: Instruction)
    ensures
        ix@ == associated_account_creation(funder@, wallet@, mint@, token_program@),
{
    let ix = spl_associated_token_account::instruction::create_associated_token_account(
        &funder.bytes.into(), &wallet.bytes.into(), &mint.bytes.into(), &token_program.bytes.into(),
    );
    let accounts = ix.accounts.iter().map(|m| AccountMeta { pubkey: Address { bytes: m.pubkey.to_bytes() }, is_signer: m.is_signer, is_writable: m.is_writable }).collect();
    Instruction { program_id: Address { bytes: ix.program_id.to_bytes() }, accounts, data: ix.data }
}

} // verus!
