//! Helpers shared by NTNFT contracts: the storage-deposit refund rule and
//! account-id hashing.

use vstd::prelude::*;
use crate::crypto::{sha256, sha256_digest};
use crate::types::{AccountId, Balance, CryptoHash};
use vstd::utf8::encode_utf8;

verus! {

/// What a contract call knows of its environment when it settles storage
/// deposits: the price of one byte of storage, the deposit attached to the
/// call, and the account that made the call.
pub struct CallContext {
    pub storage_byte_cost: Balance,
    pub attached_deposit: Balance,
    pub predecessor_account_id: AccountId,
}

/// A transfer of `amount` yoctoNEAR to `receiver_id`, to be sent by the caller.
pub struct Transfer {
    pub receiver_id: AccountId,
    pub amount: Balance,
}

/// Why a storage deposit cannot be settled.
pub enum RefundError {
    /// The deposit left after `deposit_used` does not cover `required_cost`,
    /// the price of the storage that was used.
    InsufficientDeposit { required_cost: Balance },
}

/// The price of `storage_used` bytes of storage.
pub open spec fn required_cost(ctx: &CallContext, storage_used: u64) -> int {
    ctx.storage_byte_cost * storage_used
}

/// The attached deposit that remains after `deposit_used` (none when absent).
pub open spec fn deposit_left(ctx: &CallContext, deposit_used: Option<Balance>) -> int {
    ctx.attached_deposit - deposit_used.unwrap_or(0)
}

/// The inputs on which settling a deposit does no arithmetic that overflows:
/// the storage price fits in a `Balance` and the deposit used does not exceed
/// the deposit attached.
pub open spec fn refund_in_range(ctx: &CallContext, storage_used: u64, deposit_used: Option<Balance>) -> bool {
    &&& required_cost(ctx, storage_used) <= u128::MAX
    &&& deposit_used.unwrap_or(0) <= ctx.attached_deposit
}

/// The outcome of settling a storage deposit for `account_id`: an error when
/// the deposit left does not cover the storage price; otherwise a transfer of
/// what is left over to `account_id` when that exceeds one yoctoNEAR, and
/// nothing when it does not.
pub open spec fn refund_outcome(
    ctx: &CallContext,
    storage_used: u64,
    account_id: AccountId,
    deposit_used: Option<Balance>,
) -> Result<Option<Transfer>, RefundError> {
    let required = required_cost(ctx, storage_used);
    let left = deposit_left(ctx, deposit_used);
    if required > left {
        Err(RefundError::InsufficientDeposit { required_cost: required as u128 })
    } else if left - required > 1 {
        Ok(Some(Transfer { receiver_id: account_id, amount: (left - required) as u128 }))
    } else {
        Ok(None)
    }
}

/// The settlement rule, over all inputs in range: a refund goes to the account
/// named for it, it is more than one yoctoNEAR, and together with the price of
/// the storage used (the byte price times the bytes) and the deposit used it
/// makes up the attached deposit exactly; the settlement is refused, with that
/// price, exactly when the price exceeds the attached deposit less the deposit
/// used; and no refund is sent only when at most one yoctoNEAR is left over.
pub proof fn lemma_refund_settles_exactly(
    ctx: &CallContext,
    storage_used: u64,
    account_id: AccountId,
    deposit_used: Option<Balance>,
)
    requires
        refund_in_range(ctx, storage_used, deposit_used),
    ensures
        ({
            let r = refund_outcome(ctx, storage_used, account_id, deposit_used);
            &&& r is Err <==> ctx.storage_byte_cost * storage_used > ctx.attached_deposit
                - deposit_used.unwrap_or(0)
            &&& r matches Err(RefundError::InsufficientDeposit { required_cost }) ==> required_cost
                == ctx.storage_byte_cost * storage_used
            &&& r matches Ok(Some(t)) ==> t.receiver_id == account_id
            &&& r matches Ok(Some(t)) ==> t.amount > 1
            &&& r matches Ok(Some(t)) ==> t.amount + ctx.storage_byte_cost * storage_used
                + deposit_used.unwrap_or(0) == ctx.attached_deposit
            &&& r matches Ok(None) ==> ctx.attached_deposit - deposit_used.unwrap_or(0)
                - ctx.storage_byte_cost * storage_used <= 1
        }),
{
}

/// Refunding the caller is refunding the account that made the call: the
/// same settlement, with the caller as the receiver of any transfer.
pub proof fn lemma_refund_deposit_refunds_caller(
    ctx: &CallContext,
    storage_used: u64,
    deposit_used: Option<Balance>,
)
    requires
        refund_in_range(ctx, storage_used, deposit_used),
    ensures
        refund_outcome(ctx, storage_used, ctx.predecessor_account_id, deposit_used) matches Ok(
            Some(t),
        ) ==> t.receiver_id == ctx.predecessor_account_id,
{
    lemma_refund_settles_exactly(ctx, storage_used, ctx.predecessor_account_id, deposit_used);
}

/// Settles the storage deposit of a call: charges `storage_used` bytes at the
/// storage price against the attached deposit, less `deposit_used`, and
/// refunds what is left over to `account_id` when it exceeds one yoctoNEAR.
/// The caller sends the returned transfer; an error means the call must fail
/// with "Must attach {required_cost} yoctoNEAR to cover storage".
pub fn refund_deposit_to_account(
    ctx: &CallContext,
    storage_used: u64,
    account_id: AccountId,
    deposit_used: Option<Balance>,
) -> (r: Result<Option<Transfer>, RefundError>)
    requires
        refund_in_range(ctx, storage_used, deposit_used),
    ensures
        r == refund_outcome(ctx, storage_used, account_id, deposit_used),
        // Refused exactly when the storage price does not fit in what is
        // left of the attached deposit, and then with that price.
        r is Err <==> ctx.storage_byte_cost * storage_used > ctx.attached_deposit
            - deposit_used.unwrap_or(0),
        r matches Err(RefundError::InsufficientDeposit { required_cost }) ==> required_cost
            == ctx.storage_byte_cost * storage_used,
        // A transfer goes to `account_id`, is more than one yoctoNEAR, and
        // nothing is lost: refund, storage price and deposit used together
        // make up the attached deposit.
        r matches Ok(Some(t)) ==> t.receiver_id == account_id,
        r matches Ok(Some(t)) ==> t.amount > 1,
        r matches Ok(Some(t)) ==> t.amount + ctx.storage_byte_cost * storage_used
            + deposit_used.unwrap_or(0) == ctx.attached_deposit,
        // No transfer only when at most one yoctoNEAR is left over.
        r matches Ok(None) ==> ctx.attached_deposit - deposit_used.unwrap_or(0)
            - ctx.storage_byte_cost * storage_used <= 1,
{
    let required_cost: Balance = ctx.storage_byte_cost * (storage_used as u128);
    let used: Balance = match deposit_used {
        Some(d) => d,
        None => 0,
    };
    let deposit_left: Balance = ctx.attached_deposit - used;
    if required_cost > deposit_left {
        return Err(RefundError::InsufficientDeposit { required_cost });
    }
    let refund: Balance = deposit_left - required_cost;
    if refund > 1 {
        Ok(Some(Transfer { receiver_id: account_id, amount: refund }))
    } else {
        Ok(None)
    }
}

/// Settles the storage deposit of a call, refunding the account that made it.
pub fn refund_deposit(
    ctx: &CallContext,
    storage_used: u64,
    deposit_used: Option<Balance>,
) -> (r: Result<Option<Transfer>, RefundError>)
    requires
        refund_in_range(ctx, storage_used, deposit_used),
    ensures
        r == refund_outcome(ctx, storage_used, ctx.predecessor_account_id, deposit_used),
        r is Err <==> ctx.storage_byte_cost * storage_used > ctx.attached_deposit
            - deposit_used.unwrap_or(0),
        r matches Err(RefundError::InsufficientDeposit { required_cost }) ==> required_cost
            == ctx.storage_byte_cost * storage_used,
        r matches Ok(Some(t)) ==> t.receiver_id == ctx.predecessor_account_id,
        r matches Ok(Some(t)) ==> t.amount > 1,
        r matches Ok(Some(t)) ==> t.amount + ctx.storage_byte_cost * storage_used
            + deposit_used.unwrap_or(0) == ctx.attached_deposit,
        r matches Ok(None) ==> ctx.attached_deposit - deposit_used.unwrap_or(0)
            - ctx.storage_byte_cost * storage_used <= 1,
{
    refund_deposit_to_account(ctx, storage_used, ctx.predecessor_account_id.clone(), deposit_used)
}

/// The SHA-256 digest of the UTF-8 bytes of an account name, as a
/// fixed-size hash.
pub fn hash_account_id(account_id: &AccountId) -> (h: CryptoHash)
    ensures
        h@ == sha256(encode_utf8(account_id@)),
{
    let digest = sha256_digest(account_id.as_str().as_bytes());
    let mut hash: CryptoHash = [0u8; 32];
    for i in 0..32
        invariant
            digest@.len() == 32,
            forall|j: int| 0 <= j < i ==> hash@[j] == digest@[j],
    {
        hash[i] = digest[i];
    }
    assert(hash@ =~= digest@);
    hash
}

} // verus!
