//! Accounts as the program sees them, and the order in which an invocation lists them.

use vstd::prelude::*;
use vstd::bytes::spec_u64_from_le_bytes;
use crate::address::Address;
use crate::error::ProgramError;
use crate::instruction::InitCardArgs;

verus! {

/// What the program reads of an account: a copy taken at one moment of the invocation.
#[derive(Clone, Debug, PartialEq, Eq)]
pub struct AccountInfo {
    /// The account's address.
    pub key: Address,
    /// The program that owns the account.
    pub owner: Address,
    /// The account's native balance.
    pub lamports: u64,
    /// The account's data.
    pub data: Vec<u8>,
    /// Whether the account signed the transaction.
    pub is_signer: bool,
    /// Whether the transaction may change the account.
    pub is_writable: bool,
}

impl AccountInfo {
    /// The account's native balance.
    pub fn lamports(&self) -> (lamports: u64)
        ensures
            lamports == self.lamports,
    {
        self.lamports
    }

    /// The account's native balance; a copy can always be read.
    pub fn try_lamports(&self) -> (r: Result<u64, ProgramError>)
        ensures
            r == Ok::<u64, ProgramError>(self.lamports),
    {
        Ok(self.lamports)
    }

    /// Whether the account holds no data.
    pub fn data_is_empty(&self) -> (empty: bool)
        ensures
            empty == (self.data@.len() == 0),
    {
        self.data.len() == 0
    }
}

/// Position of the payer in the account list.
pub const PAYER: usize = 0;

/// Position of the wallet that funds every payment.
pub const WALLET: usize = 1;

/// Position of the receipt.
pub const STAMP: usize = 2;

/// Position of the source asset.
pub const SRC_MINT: usize = 3;

/// Position of the destination asset.
pub const DST_MINT: usize = 4;

/// Position of the payer's holding account, which receives the network fee.
pub const PAYER_TOKEN: usize = 5;

/// Position of the wallet's holding account of the source asset.
pub const IN_TOKEN: usize = 6;

/// Position of the wallet's holding account of the destination asset.
pub const OUT_TOKEN: usize = 7;

/// Position of the recipient's wallet.
pub const DST_WALLET: usize = 8;

/// Position of the recipient's holding account.
pub const DST_TOKEN: usize = 9;

/// Position of the account that holds the rent parameters.
pub const RENT: usize = 10;

/// Position of the system program.
pub const SYSTEM_PROGRAM: usize = 11;

/// Number of accounts that every invocation lists.
pub const FIXED_ACCOUNTS: usize = 12;

/// Where the wallet and the holding account of a fee's recipient stand in the list.
#[derive(Clone, Copy, Debug, PartialEq, Eq, Structural)]
pub struct FeeAccounts {
    pub wallet: usize,
    pub token: usize,
}

/// The shape of an invocation's account list: the twelve fixed accounts, then two for the
/// platform if it is paid, then two for the referrer if one is paid.
#[derive(Clone, Copy, Debug, PartialEq, Eq, Structural)]
pub struct AccountContext {
    /// The platform's accounts, if a platform fee is paid.
    pub platform: Option<FeeAccounts>,
    /// The referrer's accounts, if a referrer fee is paid.
    pub referrer: Option<FeeAccounts>,
}

impl AccountContext {
    /// The shape that goes with the fees that are present.
    pub open spec fn spec_select(has_platform: bool, has_referrer: bool) -> AccountContext {
        AccountContext {
            platform: if has_platform {
                Some(FeeAccounts { wallet: 12, token: 13 })
            } else {
                None
            },
            referrer: if has_referrer {
                if has_platform {
                    Some(FeeAccounts { wallet: 14, token: 15 })
                } else {
                    Some(FeeAccounts { wallet: 12, token: 13 })
                }
            } else {
                None
            },
        }
    }

    /// Number of accounts that a list of this shape holds at least.
    pub open spec fn spec_required(self) -> nat {
        (12 + (if self.platform is Some { 2nat } else { 0 }) + (if self.referrer is Some {
            2nat
        } else {
            0
        })) as nat
    }

    /// Every position of the shape lies within a list of `len` accounts.
    pub open spec fn fits(self, len: nat) -> bool {
        &&& 12 <= len
        &&& self.platform matches Some(p) ==> p.wallet < len && p.token < len
        &&& self.referrer matches Some(r) ==> r.wallet < len && r.token < len
    }

    /// The shape that goes with the fees that are present.
    pub fn select(has_platform: bool, has_referrer: bool) -> (ctx: AccountContext)
        ensures
            ctx == Self::spec_select(has_platform, has_referrer),
    {
        let platform = if has_platform {
            Some(FeeAccounts { wallet: 12, token: 13 })
        } else {
            None
        };
        let referrer = if has_referrer {
            if has_platform {
                Some(FeeAccounts { wallet: 14, token: 15 })
            } else {
                Some(FeeAccounts { wallet: 12, token: 13 })
            }
        } else {
            None
        };
        AccountContext { platform, referrer }
    }

    /// Number of accounts that a list of this shape holds at least.
    pub fn required(&self) -> (n: usize)
        ensures
            n == self.spec_required(),
            n == 12 || n == 14 || n == 16,
    {
        let mut n: usize = FIXED_ACCOUNTS;
        if self.platform.is_some() {
            n = n + 2;
        }
        if self.referrer.is_some() {
            n = n + 2;
        }
        n
    }
}

/// The shape of the account list of an invocation with these fees, if the list of `len`
/// accounts is long enough for it.
pub open spec fn spec_resolve(len: nat, has_platform: bool, has_referrer: bool) -> Result<
    AccountContext,
    ProgramError,
> {
    let ctx = AccountContext::spec_select(has_platform, has_referrer);
    if len >= ctx.spec_required() {
        Ok(ctx)
    } else {
        Err(ProgramError::MissingAccount)
    }
}

/// Finds each account of the invocation in the flat list, without touching any of them.
/// Fails when the list ends before all the accounts that the arguments call for.
pub fn resolve(accounts: &[AccountInfo], args: &InitCardArgs) -> (r: Result<
    AccountContext,
    ProgramError,
>)
    ensures
        r == spec_resolve(
            accounts@.len(),
            args.platform_fee is Some,
            args.referrer_fee is Some,
        ),
        r matches Ok(ctx) ==> ctx.fits(accounts@.len()),
{
    let ctx = AccountContext::select(args.platform_fee.is_some(), args.referrer_fee.is_some());
    if accounts.len() >= ctx.required() {
        Ok(ctx)
    } else {
        Err(ProgramError::MissingAccount)
    }
}

/// Bytes that the ledger charges for besides an account's data.
pub const ACCOUNT_STORAGE_OVERHEAD: u64 = 128;

/// The yearly price of a byte that rent parameters stored in `data` name: their first eight
/// bytes, little-endian.
pub open spec fn rent_rate(data: Seq<u8>) -> u64 {
    if data.len() >= 8 {
        spec_u64_from_le_bytes(data.subrange(0, 8))
    } else {
        0
    }
}

/// The yearly rent of an account of `size` bytes fits in sixty-four bits.
pub open spec fn rent_in_range(data: Seq<u8>, size: usize) -> bool {
    (ACCOUNT_STORAGE_OVERHEAD + size) * rent_rate(data) <= u64::MAX
}

/// The balance that exempts an account of `size` bytes from rent, as `solana_program` reads
/// it from the rent parameters stored in `data` of the account at `key`; or the ledger's
/// code of the failure to read them.
pub uninterp spec fn rent_exempt_minimum(key: Seq<u8>, data: Seq<u8>, size: usize) -> Result<
    u64,
    u64,
>;

/// Calls `solana_program::sysvar::Sysvar::from_account_info` for `Rent` on a copy of the
/// account, then `Rent::minimum_balance`. The product of the size and the yearly price must
/// not overflow, as `minimum_balance` multiplies them unchecked.
#[verifier::external_body]
pub(crate) fn rent_minimum_balance(rent: &AccountInfo, size: usize) -> (r: Result<u64, u64>)
    requires
        rent_in_range(rent.data@, size),
    ensures
        r == rent_exempt_minimum(rent.key@, rent.data@, size),
{
    let key = rent.key.bytes.into();
    let owner = rent.owner.bytes.into();
    let mut lamports = rent.lamports;
    let mut data = rent.data.clone();
    let info = solana_program::account_info::AccountInfo::new(
        &key, rent.is_signer, rent.is_writable, &mut lamports, &mut data, &owner, false, 0,
    );
    let rent: Result<solana_program::rent::Rent, _> =
        solana_program::sysvar::Sysvar::from_account_info(&info);
    rent.map(|r| r.minimum_balance(size)).map_err(u64::from)
}

} // verus!
