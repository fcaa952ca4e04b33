//! The account that holds the pool.
//!
//! The custodian is derived from a fixed eight byte seed, so no key controls
//! it and funds leave it only through a claim.

use frame_support::sp_runtime::traits::AccountIdConversion;
use frame_support::PalletId;
use vstd::prelude::*;

use crate::types::AccountId;

verus! {

/// The account that a pallet identifier stands for: the bytes `modl`, then
/// the identifier, read as a little-endian number and cut to eight bytes.
pub open spec fn module_account(id: Seq<u8>) -> int {
    0x6d + 0x6f * 0x100 + 0x64 * 0x1_0000 + 0x6c * 0x100_0000
        + id[0] * 0x1_0000_0000 + id[1] * 0x100_0000_0000
        + id[2] * 0x1_0000_0000_0000 + id[3] * 0x100_0000_0000_0000
}

/// The seed of the pool's custodian, the ASCII text `fomofomo`.
pub open spec fn pool_seed() -> Seq<u8> {
    seq![0x66u8, 0x6fu8, 0x6du8, 0x6fu8, 0x66u8, 0x6fu8, 0x6du8, 0x6fu8]
}

/// The custodian of the pool: the account that the seed stands for.
pub open spec fn pool_account() -> AccountId {
    0x6f6d_6f66_6c64_6f6d
}

/// Calls `AccountIdConversion::into_account_truncating` of `sp_runtime` on a
/// `PalletId` made of `id`, for 64-bit account identifiers. Trusted: the
/// account is the encoding of the type tag `modl` followed by `id`, decoded
/// as a little-endian `u64`, so that only the first four bytes of `id` count.
#[verifier::external_body]
pub(crate) fn into_account(id: [u8; 8]) -> (account: AccountId)
    ensures
        account == module_account(id@),
{
    PalletId(id).into_account_truncating()
}

} // verus!
