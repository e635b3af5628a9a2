use vstd::prelude::*;
use crate::fee::{fee_of, min_int, compute_fee};
use crate::registry::Registry;
use crate::validation::{Account, BlockUsage, ChainContext, Extrinsic, ValidationError, pool_check, validate};

verus! {

/// Where a candidate transaction came from.
#[derive(Clone, Copy, Debug, PartialEq, Eq, Structural)]
pub enum TransactionSource {
    Local,
    External,
    InBlock,
}

/// Pool-mode acceptance with its propagation policy.
#[derive(Clone, Copy, Debug, PartialEq, Eq, Structural)]
pub struct PoolVerdict {
    pub priority: u64,
    /// Whether the pool should gossip the transaction further.
    pub propagate: bool,
}

/// Pool-mode validation against a snapshot. Acceptance is decided by the
/// pool's check alone; the source only sets propagation.
pub fn validate_transaction(source: TransactionSource, registry: &Registry, ctx: &ChainContext, usage: BlockUsage, accounts: &Vec<Account>, xt: &Extrinsic) -> (r: Result<PoolVerdict, ValidationError>)
    requires
        registry.wf(),
    ensures
        r is Ok <==> pool_check(registry@, ctx, usage, accounts@, xt) is Ok,
        r matches Err(e) ==> pool_check(registry@, ctx, usage, accounts@, xt) == Err::<u128, ValidationError>(e),
        r matches Ok(v) ==> {
            &&& v.priority == min_int(pool_check(registry@, ctx, usage, accounts@, xt)->Ok_0 as int, u64::MAX as int)
            &&& v.propagate == (source != TransactionSource::InBlock)
        },
{
    match validate(registry, ctx, usage, accounts, xt) {
        Ok(v) => Ok(PoolVerdict { priority: v.priority, propagate: source != TransactionSource::InBlock }),
        Err(e) => Err(e),
    }
}

/// The next nonce expected from `who`; zero for an account never written.
pub fn account_nonce(accounts: &Vec<Account>, who: usize) -> (r: u64)
    ensures
        who < accounts@.len() ==> r == accounts@[who as int].nonce,
        who >= accounts@.len() ==> r == 0,
{
    if who < accounts.len() {
        accounts[who].nonce
    } else {
        0
    }
}

/// The fee an extrinsic of this length and weight would be charged.
pub fn query_fee(ctx: &ChainContext, length: u64, weight: u64) -> (r: u128)
    ensures
        r == fee_of(ctx.fees, length, weight),
{
    compute_fee(ctx.fees, length, weight)
}

/// The runtime's compiled code; its absence is a build without it.
pub fn wasm_binary_unwrap(binary: Option<&'static [u8]>) -> (r: &'static [u8])
    requires
        binary is Some,
    ensures
        binary == Some(r),
{
    match binary {
        Some(b) => b,
        None => {
            assert(false);
            &[]
        },
    }
}

} // verus!
