use vstd::prelude::*;
use crate::fee::{FeeParams, fee_of, compute_fee};
use crate::registry::{Call, ModuleDescriptor, Registry, admits_unsigned, routable, validates_unsigned};

verus! {

/// Per-account state that the validation chain reads and updates.
#[derive(Clone, Copy, Debug, PartialEq, Eq, Structural)]
pub struct Account {
    pub nonce: u64,
    pub free: u128,
}

/// The block window in which a signed extrinsic is valid.
#[derive(Clone, Copy, Debug, PartialEq, Eq, Structural)]
pub enum Era {
    Immortal,
    /// Valid for block numbers in `[birth, birth + period)`.
    Mortal { birth: u64, period: u64 },
}

/// The ordered extension values carried by a signed extrinsic.
#[derive(Clone, Debug)]
pub struct SignedExtra {
    pub spec_version: u32,
    pub tx_version: u32,
    pub genesis_hash: Vec<u8>,
    pub era: Era,
    pub nonce: u64,
}

/// The signed part of an extrinsic: the signer's account and the extensions.
/// The signature itself is checked by the host before the chain runs.
#[derive(Clone, Debug)]
pub struct SignedPart {
    pub signer: usize,
    pub extra: SignedExtra,
}

/// An extrinsic with its declared weight and encoded length.
#[derive(Clone, Debug)]
pub struct Extrinsic {
    pub signed: Option<SignedPart>,
    pub call: Call,
    pub weight: u64,
    pub length: u64,
}

/// What the chain checks against: this runtime's versions, this chain's
/// genesis, the current block and its budgets, and the fee parameters.
#[derive(Clone, Debug)]
pub struct ChainContext {
    pub spec_version: u32,
    pub tx_version: u32,
    pub genesis_hash: Vec<u8>,
    pub block_number: u64,
    pub weight_limit: u64,
    pub length_limit: u64,
    pub fees: FeeParams,
}

/// Weight and length already consumed in the current block.
#[derive(Clone, Copy, Debug, PartialEq, Eq, Structural)]
pub struct BlockUsage {
    pub weight_used: u64,
    pub length_used: u64,
}

#[derive(Clone, Copy, Debug, PartialEq, Eq, Structural)]
pub enum ValidationError {
    Stale,
    Future,
    Expired,
    BadProof,
    ExhaustsResources,
    Payment,
    Custom(u8),
}

/// Custom code: the account's nonce cannot grow any further.
pub const NONCE_EXHAUSTED: u8 = 1;

/// Custom code: no module vouches for this unsigned call.
pub const NO_UNSIGNED_VALIDATOR: u8 = 2;

/// Custom code: the call names no module that offers calls.
pub const UNROUTABLE_CALL: u8 = 3;

/// A pool-mode acceptance.
#[derive(Clone, Copy, Debug, PartialEq, Eq, Structural)]
pub struct ValidTransaction {
    pub priority: u64,
}

pub open spec fn era_admits(era: Era, n: u64) -> bool {
    match era {
        Era::Immortal => true,
        Era::Mortal { birth, period } => birth <= n && n < birth + period,
    }
}

pub open spec fn exceeds_budget(ctx: &ChainContext, usage: BlockUsage, xt: &Extrinsic) -> bool {
    usage.weight_used + xt.weight > ctx.weight_limit || usage.length_used + xt.length > ctx.length_limit
}

/// The outcome of the whole chain, stage by stage, failing at the first
/// failing stage; on success, the fee to charge.
pub open spec fn check_chain(m: Seq<ModuleDescriptor>, ctx: &ChainContext, usage: BlockUsage, accounts: Seq<Account>, xt: &Extrinsic) -> Result<u128, ValidationError> {
    match xt.signed {
        None => if !admits_unsigned(m, xt.call.module_index) {
            Err(ValidationError::Custom(NO_UNSIGNED_VALIDATOR))
        } else if exceeds_budget(ctx, usage, xt) {
            Err(ValidationError::ExhaustsResources)
        } else {
            Ok(0u128)
        },
        Some(s) => {
            let e = s.extra;
            if s.signer >= accounts.len() {
                Err(ValidationError::BadProof)
            } else if e.spec_version != ctx.spec_version {
                Err(ValidationError::BadProof)
            } else if e.tx_version != ctx.tx_version {
                Err(ValidationError::BadProof)
            } else if e.genesis_hash@ != ctx.genesis_hash@ {
                Err(ValidationError::BadProof)
            } else if !era_admits(e.era, ctx.block_number) {
                Err(ValidationError::Expired)
            } else if e.nonce < accounts[s.signer as int].nonce {
                Err(ValidationError::Stale)
            } else if e.nonce > accounts[s.signer as int].nonce {
                Err(ValidationError::Future)
            } else if e.nonce == u64::MAX {
                Err(ValidationError::Custom(NONCE_EXHAUSTED))
            } else if exceeds_budget(ctx, usage, xt) {
                Err(ValidationError::ExhaustsResources)
            } else if fee_of(ctx.fees, xt.length, xt.weight) > accounts[s.signer as int].free {
                Err(ValidationError::Payment)
            } else {
                Ok(fee_of(ctx.fees, xt.length, xt.weight) as u128)
            }
        },
    }
}

/// Admission to the pool: the call must be routable, an unsigned call must be
/// one that its module validates (inherents never enter the pool), and the
/// chain must pass.
pub open spec fn pool_check(m: Seq<ModuleDescriptor>, ctx: &ChainContext, usage: BlockUsage, accounts: Seq<Account>, xt: &Extrinsic) -> Result<u128, ValidationError> {
    if !routable(m, xt.call.module_index) {
        Err(ValidationError::Custom(UNROUTABLE_CALL))
    } else if xt.signed is None && !validates_unsigned(m, xt.call.module_index) {
        Err(ValidationError::Custom(NO_UNSIGNED_VALIDATOR))
    } else {
        check_chain(m, ctx, usage, accounts, xt)
    }
}

/// The accounts after a successful apply-mode run: the signer's nonce grows by
/// one and the fee leaves its balance.
pub open spec fn charged(accounts: Seq<Account>, xt: &Extrinsic, fee: u128) -> Seq<Account> {
    match xt.signed {
        None => accounts,
        Some(s) => accounts.update(
            s.signer as int,
            Account {
                nonce: (accounts[s.signer as int].nonce + 1) as u64,
                free: (accounts[s.signer as int].free - fee) as u128,
            },
        ),
    }
}

pub open spec fn used_after(usage: BlockUsage, xt: &Extrinsic) -> BlockUsage {
    BlockUsage {
        weight_used: (usage.weight_used + xt.weight) as u64,
        length_used: (usage.length_used + xt.length) as u64,
    }
}

pub fn bytes_equal(a: &Vec<u8>, b: &Vec<u8>) -> (r: bool)
    ensures
        r == (a@ == b@),
{
    if a.len() != b.len() {
        return false;
    }
    let mut i: usize = 0;
    while i < a.len()
        invariant
            a@.len() == b@.len(),
            i <= a@.len(),
            forall|j: int| 0 <= j < i ==> a@[j] == b@[j],
        decreases a@.len() - i,
    {
        if a[i] != b[i] {
            return false;
        }
        i = i + 1;
    }
    assert(a@ =~= b@);
    true
}

fn era_check(era: Era, n: u64) -> (r: bool)
    ensures
        r == era_admits(era, n),
{
    match era {
        Era::Immortal => true,
        Era::Mortal { birth, period } => birth <= n && n - birth < period,
    }
}

fn budget_check(ctx: &ChainContext, usage: BlockUsage, xt: &Extrinsic) -> (r: bool)
    ensures
        r == exceeds_budget(ctx, usage, xt),
{
    (usage.weight_used as u128) + (xt.weight as u128) > (ctx.weight_limit as u128)
        || (usage.length_used as u128) + (xt.length as u128) > (ctx.length_limit as u128)
}

fn unsigned_admitted(registry: &Registry, module_index: u8) -> (r: bool)
    requires
        registry.wf(),
    ensures
        r == admits_unsigned(registry@, module_index),
{
    match registry.module_for(module_index) {
        Some(d) => d.provides_inherent || d.provides_unsigned_validation,
        None => false,
    }
}

/// Runs the validation chain without side effects and returns the fee due.
pub fn check(registry: &Registry, ctx: &ChainContext, usage: BlockUsage, accounts: &Vec<Account>, xt: &Extrinsic) -> (r: Result<u128, ValidationError>)
    requires
        registry.wf(),
    ensures
        r == check_chain(registry@, ctx, usage, accounts@, xt),
{
    match &xt.signed {
        None => if !unsigned_admitted(registry, xt.call.module_index) {
            Err(ValidationError::Custom(NO_UNSIGNED_VALIDATOR))
        } else if budget_check(ctx, usage, xt) {
            Err(ValidationError::ExhaustsResources)
        } else {
            Ok(0)
        },
        Some(s) => {
            let e = &s.extra;
            if s.signer >= accounts.len() {
                return Err(ValidationError::BadProof);
            }
            if e.spec_version != ctx.spec_version || e.tx_version != ctx.tx_version {
                return Err(ValidationError::BadProof);
            }
            if !bytes_equal(&e.genesis_hash, &ctx.genesis_hash) {
                return Err(ValidationError::BadProof);
            }
            if !era_check(e.era, ctx.block_number) {
                return Err(ValidationError::Expired);
            }
            let acct = accounts[s.signer];
            if e.nonce < acct.nonce {
                return Err(ValidationError::Stale);
            }
            if e.nonce > acct.nonce {
                return Err(ValidationError::Future);
            }
            if e.nonce == u64::MAX {
                return Err(ValidationError::Custom(NONCE_EXHAUSTED));
            }
            if budget_check(ctx, usage, xt) {
                return Err(ValidationError::ExhaustsResources);
            }
            let fee = compute_fee(ctx.fees, xt.length, xt.weight);
            if fee > acct.free {
                return Err(ValidationError::Payment);
            }
            Ok(fee)
        },
    }
}

/// Pool mode: read-only admission check; the priority is the fee, capped.
pub fn validate(registry: &Registry, ctx: &ChainContext, usage: BlockUsage, accounts: &Vec<Account>, xt: &Extrinsic) -> (r: Result<ValidTransaction, ValidationError>)
    requires
        registry.wf(),
    ensures
        pool_check(registry@, ctx, usage, accounts@, xt) is Ok <==> r is Ok,
        r matches Err(e) ==> pool_check(registry@, ctx, usage, accounts@, xt) == Err::<u128, ValidationError>(e),
        r matches Ok(v) ==> v.priority as int == crate::fee::min_int(
            pool_check(registry@, ctx, usage, accounts@, xt)->Ok_0 as int, u64::MAX as int),
{
    let d = match registry.module_for(xt.call.module_index) {
        Some(d) => d,
        None => {
            return Err(ValidationError::Custom(UNROUTABLE_CALL));
        },
    };
    let unsigned = match &xt.signed {
        None => true,
        Some(_) => false,
    };
    if unsigned && !d.provides_unsigned_validation {
        return Err(ValidationError::Custom(NO_UNSIGNED_VALIDATOR));
    }
    match check(registry, ctx, usage, accounts, xt) {
        Ok(fee) => {
            let priority: u64 = if fee > u64::MAX as u128 { u64::MAX } else { fee as u64 };
            Ok(ValidTransaction { priority })
        },
        Err(e) => Err(e),
    }
}

/// Apply mode: runs the chain and, on success, charges the fee, advances the
/// nonce and books the weight and length. On failure nothing changes.
pub fn pre_dispatch(registry: &Registry, ctx: &ChainContext, usage: &mut BlockUsage, accounts: &mut Vec<Account>, xt: &Extrinsic) -> (r: Result<u128, ValidationError>)
    requires
        registry.wf(),
    ensures
        r == check_chain(registry@, ctx, *old(usage), old(accounts)@, xt),
        r matches Ok(fee) ==> final(accounts)@ == charged(old(accounts)@, xt, fee)
            && *final(usage) == used_after(*old(usage), xt),
        r is Err ==> final(accounts)@ == old(accounts)@ && *final(usage) == *old(usage),
{
    let r = check(registry, ctx, *usage, accounts, xt);
    if let Ok(fee) = r {
        if let Some(s) = &xt.signed {
            let acct = accounts[s.signer];
            accounts.set(s.signer, Account { nonce: acct.nonce + 1, free: acct.free - fee });
        }
        *usage = BlockUsage {
            weight_used: usage.weight_used + xt.weight,
            length_used: usage.length_used + xt.length,
        };
    }
    r
}

/// Replay protection: once an extrinsic has been applied, the same extrinsic
/// is rejected as stale, whatever the block's usage.
pub proof fn lemma_replay_is_stale(m: Seq<ModuleDescriptor>, ctx: &ChainContext, usage: BlockUsage, later: BlockUsage, accounts: Seq<Account>, xt: &Extrinsic)
    requires
        xt.signed is Some,
        check_chain(m, ctx, usage, accounts, xt) is Ok,
    ensures
        check_chain(m, ctx, later, charged(accounts, xt, check_chain(m, ctx, usage, accounts, xt)->Ok_0), xt)
            == Err::<u128, ValidationError>(ValidationError::Stale),
{
}

/// A mortal extrinsic whose window has passed is rejected as expired at the
/// current block and at every later block.
pub proof fn lemma_expired_stays_expired(m: Seq<ModuleDescriptor>, ctx: &ChainContext, later: &ChainContext, usage: BlockUsage, accounts: Seq<Account>, xt: &Extrinsic)
    requires
        xt.signed matches Some(s) && s.extra.era matches Era::Mortal { birth, period }
            && birth + period <= ctx.block_number,
        ctx.block_number <= later.block_number,
        xt.signed matches Some(s) && s.signer < accounts.len() && s.extra.spec_version == later.spec_version
            && s.extra.tx_version == later.tx_version && s.extra.genesis_hash@ == later.genesis_hash@,
    ensures
        check_chain(m, later, usage, accounts, xt) == Err::<u128, ValidationError>(ValidationError::Expired),
{
}

} // verus!
