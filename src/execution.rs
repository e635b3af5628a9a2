use vstd::prelude::*;
use crate::registry::{Registry, ModuleDescriptor, RouteError, indices_of, routable, strictly_ascending};
use crate::validation::{
    Account, BlockUsage, ChainContext, Era, Extrinsic, ValidationError, check_chain, charged, used_after,
    pre_dispatch, lemma_expired_stays_expired, bytes_equal,
};
use crate::fee::{MultiplierConfig, next_fee_multiplier, next_multiplier_spec};

verus! {

#[derive(Clone, Copy, Debug, PartialEq, Eq, Structural)]
pub enum Phase {
    Idle,
    Initializing,
    Applying,
    Finalizing,
    Committed,
}

/// A module-level failure during dispatch; the extrinsic stays included.
#[derive(Clone, Copy, Debug, PartialEq, Eq, Structural)]
pub enum DispatchError {
    BadOrigin,
    CannotLookup,
    Module { index: u8, code: u8 },
    Overflow,
}

/// Failures that abort the whole block.
#[derive(Clone, Copy, Debug, PartialEq, Eq, Structural)]
pub enum FatalError {
    /// The operation does not belong to the engine's current phase.
    WrongPhase,
    /// The hooks alone consume more than the block weight limit.
    HooksExceedWeightLimit,
    /// An inherent came after a signed extrinsic.
    InherentAfterSigned,
    /// The call names no module that offers calls.
    Unroutable,
    /// The state root computed after execution differs from the header's.
    StateRootMismatch,
    /// The extrinsics root computed after execution differs from the header's.
    ExtrinsicsRootMismatch,
}

/// What applying one extrinsic came to.
#[derive(Clone, Copy, Debug)]
pub enum ApplyResult {
    /// Admission failed: the extrinsic is not part of the block.
    Excluded(ValidationError),
    /// Admitted and dispatched: the fee stands whatever the module returned.
    Included { fee: u128, outcome: Result<(), DispatchError> },
}

/// The record of an included extrinsic.
#[derive(Clone, Copy, Debug)]
pub struct ExtrinsicRecord {
    pub weight: u64,
    pub length: u64,
    pub fee: u128,
    pub outcome: Result<(), DispatchError>,
}

/// A block header; the roots come from the storage engine.
#[derive(Clone, Debug)]
pub struct Header {
    pub parent_hash: Vec<u8>,
    pub number: u64,
    pub state_root: Vec<u8>,
    pub extrinsics_root: Vec<u8>,
    pub digest: Vec<u8>,
}

/// What a block changes, as the engine tracks it.
pub struct BlockState {
    pub usage: BlockUsage,
    pub accounts: Seq<Account>,
    pub records: Seq<ExtrinsicRecord>,
    pub seen_signed: bool,
}

/// Weight booked by the hooks: every module's initialize and finalize hook.
pub open spec fn hooks_weight(m: Seq<ModuleDescriptor>) -> int
    decreases m.len(),
{
    if m.len() == 0 {
        0
    } else {
        hooks_weight(m.drop_last()) + m.last().init_weight + m.last().finalize_weight
    }
}

pub open spec fn sum_weights(r: Seq<ExtrinsicRecord>) -> int
    decreases r.len(),
{
    if r.len() == 0 {
        0
    } else {
        sum_weights(r.drop_last()) + r.last().weight
    }
}

pub open spec fn sum_lengths(r: Seq<ExtrinsicRecord>) -> int
    decreases r.len(),
{
    if r.len() == 0 {
        0
    } else {
        sum_lengths(r.drop_last()) + r.last().length
    }
}

/// The consumed weight is the hooks' plus the included extrinsics', within the
/// limit; likewise the length.
pub open spec fn within_budget(m: Seq<ModuleDescriptor>, ctx: &ChainContext, s: BlockState) -> bool {
    &&& s.usage.weight_used == hooks_weight(m) + sum_weights(s.records)
    &&& s.usage.weight_used <= ctx.weight_limit
    &&& s.usage.length_used == sum_lengths(s.records)
    &&& s.usage.length_used <= ctx.length_limit
}

pub open spec fn is_inherent(m: Seq<ModuleDescriptor>, xt: Extrinsic) -> bool {
    xt.signed is None && exists|i: int|
        0 <= i < m.len() && m[i].index == xt.call.module_index && m[i].provides_calls && m[i].provides_inherent
}

/// The state right after the initialize hooks ran.
pub open spec fn initial_state(m: Seq<ModuleDescriptor>, accounts: Seq<Account>) -> BlockState {
    BlockState {
        usage: BlockUsage { weight_used: hooks_weight(m) as u64, length_used: 0 },
        accounts,
        records: Seq::empty(),
        seen_signed: false,
    }
}

/// One extrinsic applied to the block state.
pub open spec fn apply_step(m: Seq<ModuleDescriptor>, ctx: &ChainContext, s: BlockState, xt: Extrinsic, res: Result<(), DispatchError>) -> (BlockState, Result<ApplyResult, FatalError>) {
    if !routable(m, xt.call.module_index) {
        (s, Err(FatalError::Unroutable))
    } else if is_inherent(m, xt) && s.seen_signed {
        (s, Err(FatalError::InherentAfterSigned))
    } else {
        match check_chain(m, ctx, s.usage, s.accounts, &xt) {
            Err(e) => (s, Ok(ApplyResult::Excluded(e))),
            Ok(fee) => (
                BlockState {
                    usage: used_after(s.usage, &xt),
                    accounts: charged(s.accounts, &xt, fee),
                    records: s.records.push(ExtrinsicRecord { weight: xt.weight, length: xt.length, fee, outcome: res }),
                    seen_signed: s.seen_signed || xt.signed is Some,
                },
                Ok(ApplyResult::Included { fee, outcome: res }),
            ),
        }
    }
}

/// The extrinsics applied in order, stopping at the first fatal error.
pub open spec fn run_from(m: Seq<ModuleDescriptor>, ctx: &ChainContext, s: BlockState, xts: Seq<Extrinsic>, res: Seq<Result<(), DispatchError>>) -> Result<BlockState, FatalError>
    decreases xts.len(),
{
    if xts.len() == 0 || res.len() == 0 {
        Ok(s)
    } else {
        let (s2, r) = apply_step(m, ctx, s, xts[0], res[0]);
        match r {
            Err(f) => Err(f),
            Ok(_) => run_from(m, ctx, s2, xts.drop_first(), res.drop_first()),
        }
    }
}

/// A whole block on a prior state: hooks, then every extrinsic in order.
pub open spec fn run_block(m: Seq<ModuleDescriptor>, ctx: &ChainContext, accounts: Seq<Account>, xts: Seq<Extrinsic>, res: Seq<Result<(), DispatchError>>) -> Result<BlockState, FatalError> {
    if hooks_weight(m) > ctx.weight_limit {
        Err(FatalError::HooksExceedWeightLimit)
    } else {
        run_from(m, ctx, initial_state(m, accounts), xts, res)
    }
}

/// An expired extrinsic is excluded from every later block: applying it
/// leaves the block state as it was.
pub proof fn lemma_expired_never_included(m: Seq<ModuleDescriptor>, ctx: &ChainContext, later: &ChainContext, s: BlockState, xt: Extrinsic, res: Result<(), DispatchError>)
    requires
        xt.signed matches Some(sp) && sp.extra.era matches Era::Mortal { birth, period }
            && birth + period <= ctx.block_number,
        ctx.block_number <= later.block_number,
        xt.signed matches Some(sp) && sp.signer < s.accounts.len() && sp.extra.spec_version == later.spec_version
            && sp.extra.tx_version == later.tx_version && sp.extra.genesis_hash@ == later.genesis_hash@,
    ensures
        apply_step(m, later, s, xt, res).0 == s,
        apply_step(m, later, s, xt, res).1 is Ok ==> apply_step(m, later, s, xt, res).1
            == Ok::<ApplyResult, FatalError>(ApplyResult::Excluded(ValidationError::Expired)),
{
    lemma_expired_stays_expired(m, ctx, later, s.usage, s.accounts, &xt);
}

pub proof fn lemma_apply_step_keeps_budget(m: Seq<ModuleDescriptor>, ctx: &ChainContext, s: BlockState, xt: Extrinsic, res: Result<(), DispatchError>)
    requires
        within_budget(m, ctx, s),
    ensures
        within_budget(m, ctx, apply_step(m, ctx, s, xt, res).0),
{
    let s2 = apply_step(m, ctx, s, xt, res).0;
    if s2.records.len() == s.records.len() + 1 {
        assert(s2.records.drop_last() =~= s.records);
    }
}

/// Every block that runs through: the weight consumed by hooks and included
/// extrinsics together never exceeds the block weight limit.
pub proof fn lemma_block_weight_bounded(m: Seq<ModuleDescriptor>, ctx: &ChainContext, accounts: Seq<Account>, xts: Seq<Extrinsic>, res: Seq<Result<(), DispatchError>>)
    requires
        run_block(m, ctx, accounts, xts, res) is Ok,
    ensures
        within_budget(m, ctx, run_block(m, ctx, accounts, xts, res)->Ok_0),
        run_block(m, ctx, accounts, xts, res)->Ok_0.usage.weight_used <= ctx.weight_limit,
{
    lemma_hooks_weight_nonneg(m);
    lemma_run_from_keeps_budget(m, ctx, initial_state(m, accounts), xts, res);
}

pub proof fn lemma_hooks_weight_nonneg(m: Seq<ModuleDescriptor>)
    ensures
        hooks_weight(m) >= 0,
    decreases m.len(),
{
    if m.len() > 0 {
        lemma_hooks_weight_nonneg(m.drop_last());
    }
}

proof fn lemma_run_from_keeps_budget(m: Seq<ModuleDescriptor>, ctx: &ChainContext, s: BlockState, xts: Seq<Extrinsic>, res: Seq<Result<(), DispatchError>>)
    requires
        within_budget(m, ctx, s),
        run_from(m, ctx, s, xts, res) is Ok,
    ensures
        within_budget(m, ctx, run_from(m, ctx, s, xts, res)->Ok_0),
    decreases xts.len(),
{
    if xts.len() != 0 && res.len() != 0 {
        lemma_apply_step_keeps_budget(m, ctx, s, xts[0], res[0]);
        let s2 = apply_step(m, ctx, s, xts[0], res[0]).0;
        lemma_run_from_keeps_budget(m, ctx, s2, xts.drop_first(), res.drop_first());
    }
}

/// Re-execution agrees: two runs of the same block on the same prior state
/// reach the same state.
pub proof fn lemma_execution_deterministic(m: Seq<ModuleDescriptor>, ctx: &ChainContext, accounts: Seq<Account>, xts: Seq<Extrinsic>, res: Seq<Result<(), DispatchError>>, first: Result<BlockState, FatalError>, second: Result<BlockState, FatalError>)
    requires
        first == run_block(m, ctx, accounts, xts, res),
        second == run_block(m, ctx, accounts, xts, res),
    ensures
        first == second,
{
}

/// What an engine holds, as contracts see it.
pub struct ExecutiveView {
    pub phase: Phase,
    pub registry: Seq<ModuleDescriptor>,
    pub ctx: ChainContext,
    pub state: BlockState,
    pub init_order: Seq<u8>,
    pub finalize_order: Seq<u8>,
    pub parent_hash: Seq<u8>,
    pub digest: Seq<u8>,
}

/// The block execution engine: per-block lifecycle over the module table.
pub struct Executive {
    registry: Registry,
    ctx: ChainContext,
    phase: Phase,
    usage: BlockUsage,
    accounts: Vec<Account>,
    records: Vec<ExtrinsicRecord>,
    seen_signed: bool,
    /// Module indices whose initialize hook ran, in the order it ran.
    init_order: Vec<u8>,
    /// Module indices whose finalize hook ran, in the order it ran.
    finalize_order: Vec<u8>,
    parent_hash: Vec<u8>,
    digest: Vec<u8>,
}

fn copy_bytes(v: &Vec<u8>) -> (r: Vec<u8>)
    ensures
        r@ == v@,
{
    let r = v.clone();
    assert(r@ =~= v@);
    r
}

impl Executive {
    pub closed spec fn view(&self) -> ExecutiveView {
        ExecutiveView {
            phase: self.phase,
            registry: self.registry@,
            ctx: self.ctx,
            state: BlockState {
                usage: self.usage,
                accounts: self.accounts@,
                records: self.records@,
                seen_signed: self.seen_signed,
            },
            init_order: self.init_order@,
            finalize_order: self.finalize_order@,
            parent_hash: self.parent_hash@,
            digest: self.digest@,
        }
    }

    pub open spec fn state(&self) -> BlockState {
        self@.state
    }

    pub open spec fn wf(&self) -> bool {
        &&& strictly_ascending(self@.registry)
        &&& self@.phase != Phase::Idle ==> within_budget(self@.registry, &self@.ctx, self@.state)
    }

    /// Everything but the phase and the block state is as in `other`.
    pub open spec fn same_frame(&self, other: &Executive) -> bool {
        &&& self@.registry == other@.registry
        &&& self@.ctx == other@.ctx
        &&& self@.init_order == other@.init_order
        &&& self@.finalize_order == other@.finalize_order
        &&& self@.parent_hash == other@.parent_hash
        &&& self@.digest == other@.digest
    }

    pub open spec fn unchanged(&self, other: &Executive) -> bool {
        self.same_frame(other) && self@.phase == other@.phase && self@.state == other@.state
    }

    pub fn phase(&self) -> (r: Phase)
        ensures
            r == self@.phase,
    {
        self.phase
    }

    pub fn usage(&self) -> (r: BlockUsage)
        ensures
            r == self@.state.usage,
    {
        self.usage
    }

    pub fn accounts(&self) -> (r: &Vec<Account>)
        ensures
            r@ == self@.state.accounts,
    {
        &self.accounts
    }

    pub fn records(&self) -> (r: &Vec<ExtrinsicRecord>)
        ensures
            r@ == self@.state.records,
    {
        &self.records
    }

    pub fn init_order(&self) -> (r: &Vec<u8>)
        ensures
            r@ == self@.init_order,
    {
        &self.init_order
    }

    pub fn finalize_order(&self) -> (r: &Vec<u8>)
        ensures
            r@ == self@.finalize_order,
    {
        &self.finalize_order
    }

    pub fn new(registry: Registry, ctx: ChainContext, accounts: Vec<Account>) -> (r: Executive)
        requires
            registry.wf(),
        ensures
            r.wf(),
            r@.phase == Phase::Idle,
            r@.registry == registry@,
            r@.ctx == ctx,
            r@.state.accounts == accounts@,
            r@.state.records.len() == 0,
            r@.init_order.len() == 0,
            r@.finalize_order.len() == 0,
    {
        Executive {
            registry,
            ctx,
            phase: Phase::Idle,
            usage: BlockUsage { weight_used: 0, length_used: 0 },
            accounts,
            records: Vec::new(),
            seen_signed: false,
            init_order: Vec::new(),
            finalize_order: Vec::new(),
            parent_hash: Vec::new(),
            digest: Vec::new(),
        }
    }

    /// Total hook weight, or `None` once it passes `limit`.
    fn hook_weight_within(&self, limit: u64) -> (r: Option<u64>)
        requires
            self.registry.wf(),
        ensures
            r is Some <==> hooks_weight(self.registry@) <= limit,
            r matches Some(w) ==> w == hooks_weight(self.registry@),
    {
        let n = self.registry.len();
        let mut total: u128 = 0;
        let mut i: usize = 0;
        while i < n
            invariant
                n == self.registry@.len(),
                i <= n,
                total == hooks_weight(self.registry@.take(i as int)),
                total <= limit,
            decreases n - i,
        {
            let d = self.registry.get(i);
            assert(self.registry@.take(i + 1).drop_last() =~= self.registry@.take(i as int));
            total = total + (d.init_weight as u128) + (d.finalize_weight as u128);
            i = i + 1;
            if total > limit as u128 {
                proof {
                    lemma_hooks_weight_monotone(self.registry@, i as int);
                }
                return None;
            }
        }
        assert(self.registry@.take(n as int) =~= self.registry@);
        Some(total as u64)
    }

    /// Idle to Initializing: runs every initialize hook in ascending index
    /// order and books the weight of all hooks.
    pub fn initialize_block(&mut self, header: Header) -> (r: Result<(), FatalError>)
        requires
            old(self).wf(),
        ensures
            final(self).wf(),
            r is Ok <==> old(self)@.phase == Phase::Idle && hooks_weight(old(self)@.registry) <= old(self)@.ctx.weight_limit,
            old(self)@.phase != Phase::Idle ==> r == Err::<(), FatalError>(FatalError::WrongPhase),
            old(self)@.phase == Phase::Idle && hooks_weight(old(self)@.registry) > old(self)@.ctx.weight_limit
                ==> r == Err::<(), FatalError>(FatalError::HooksExceedWeightLimit),
            r is Err ==> final(self).unchanged(old(self)),
            r is Ok ==> {
                &&& final(self)@.phase == Phase::Initializing
                &&& final(self).state() == initial_state(old(self)@.registry, old(self)@.state.accounts)
                &&& final(self)@.init_order == indices_of(old(self)@.registry)
                &&& final(self)@.finalize_order.len() == 0
                &&& final(self)@.registry == old(self)@.registry
                &&& final(self)@.ctx == (ChainContext { block_number: header.number, ..old(self)@.ctx })
                &&& final(self)@.parent_hash == header.parent_hash@
                &&& final(self)@.digest == header.digest@
            },
    {
        if self.phase != Phase::Idle {
            return Err(FatalError::WrongPhase);
        }
        let w = match self.hook_weight_within(self.ctx.weight_limit) {
            Some(w) => w,
            None => {
                return Err(FatalError::HooksExceedWeightLimit);
            },
        };
        self.phase = Phase::Initializing;
        self.ctx.block_number = header.number;
        self.parent_hash = header.parent_hash;
        self.digest = header.digest;
        self.init_order = self.registry.iterate_ascending();
        self.finalize_order = Vec::new();
        self.records = Vec::new();
        self.seen_signed = false;
        self.usage = BlockUsage { weight_used: w, length_used: 0 };
        assert(self.records@ =~= Seq::<ExtrinsicRecord>::empty());
        Ok(())
    }

    /// Applies one extrinsic; `outcome` is what the owning module's handler
    /// returned for its call.
    pub fn apply_extrinsic(&mut self, xt: &Extrinsic, outcome: Result<(), DispatchError>) -> (r: Result<ApplyResult, FatalError>)
        requires
            old(self).wf(),
        ensures
            final(self).wf(),
            final(self).same_frame(old(self)),
            old(self)@.phase != Phase::Initializing && old(self)@.phase != Phase::Applying ==>
                r == Err::<ApplyResult, FatalError>(FatalError::WrongPhase) && final(self).unchanged(old(self)),
            old(self)@.phase == Phase::Initializing || old(self)@.phase == Phase::Applying ==> {
                let (s, res) = apply_step(old(self)@.registry, &old(self)@.ctx, old(self).state(), *xt, outcome);
                &&& r == res
                &&& final(self).state() == s
                &&& final(self)@.phase == if r is Ok { Phase::Applying } else { old(self)@.phase }
            },
    {
        if self.phase != Phase::Initializing && self.phase != Phase::Applying {
            return Err(FatalError::WrongPhase);
        }
        proof {
            lemma_apply_step_keeps_budget(self.registry@, &self.ctx, self.state(), *xt, outcome);
        }
        let p = match self.registry.route(&xt.call) {
            Ok(p) => p,
            Err(RouteError::Unroutable) => {
                return Err(FatalError::Unroutable);
            },
        };
        let d = self.registry.get(p);
        let unsigned = match &xt.signed {
            None => true,
            Some(_) => false,
        };
        proof {
            let m = self.registry@;
            if is_inherent(m, *xt) {
                let i = choose|i: int| 0 <= i < m.len() && m[i].index == xt.call.module_index && m[i].provides_calls
                    && m[i].provides_inherent;
                assert(i == p as int);
            }
        }
        if unsigned && d.provides_inherent && self.seen_signed {
            return Err(FatalError::InherentAfterSigned);
        }
        let checked = pre_dispatch(&self.registry, &self.ctx, &mut self.usage, &mut self.accounts, xt);
        self.phase = Phase::Applying;
        match checked {
            Err(e) => Ok(ApplyResult::Excluded(e)),
            Ok(fee) => {
                self.records.push(ExtrinsicRecord { weight: xt.weight, length: xt.length, fee, outcome });
                if !unsigned {
                    self.seen_signed = true;
                }
                Ok(ApplyResult::Included { fee, outcome })
            },
        }
    }

    /// Runs every finalize hook in descending index order and returns the
    /// completed header, with the roots the storage engine computed.
    pub fn finalize_block(&mut self, state_root: Vec<u8>, extrinsics_root: Vec<u8>) -> (r: Result<Header, FatalError>)
        requires
            old(self).wf(),
        ensures
            final(self).wf(),
            final(self).state() == old(self).state(),
            r is Ok <==> old(self)@.phase == Phase::Initializing || old(self)@.phase == Phase::Applying,
            r is Err ==> r == Err::<Header, FatalError>(FatalError::WrongPhase) && final(self).unchanged(old(self)),
            r matches Ok(h) ==> {
                &&& final(self)@.phase == Phase::Committed
                &&& final(self)@.finalize_order == indices_of(old(self)@.registry).reverse()
                &&& final(self)@.init_order == old(self)@.init_order
                &&& final(self)@.registry == old(self)@.registry
                &&& h.number == old(self)@.ctx.block_number
                &&& h.parent_hash@ == old(self)@.parent_hash
                &&& h.digest@ == old(self)@.digest
                &&& h.state_root@ == state_root@
                &&& h.extrinsics_root@ == extrinsics_root@
            },
    {
        if self.phase != Phase::Initializing && self.phase != Phase::Applying {
            return Err(FatalError::WrongPhase);
        }
        self.phase = Phase::Finalizing;
        self.finalize_order = self.registry.iterate_descending();
        self.phase = Phase::Committed;
        Ok(Header {
            parent_hash: copy_bytes(&self.parent_hash),
            number: self.ctx.block_number,
            state_root,
            extrinsics_root,
            digest: copy_bytes(&self.digest),
        })
    }
}

impl Executive {
    /// The fee multiplier for the next block, from this block's fullness.
    pub fn next_block_fee_multiplier(&self, c: MultiplierConfig) -> (r: u64)
        requires
            self@.phase == Phase::Committed,
            c.damping > 0,
        ensures
            r == next_multiplier_spec(self@.ctx.fees.fee_multiplier, self@.state.usage.weight_used, self@.ctx.weight_limit, c),
    {
        next_fee_multiplier(self.ctx.fees.fee_multiplier, self.usage.weight_used, self.ctx.weight_limit, c)
    }
}

proof fn lemma_hooks_weight_monotone(m: Seq<ModuleDescriptor>, i: int)
    requires
        0 <= i <= m.len(),
    ensures
        hooks_weight(m.take(i)) <= hooks_weight(m),
    decreases m.len(),
{
    if i < m.len() {
        assert(m.drop_last().take(i) =~= m.take(i));
        lemma_hooks_weight_monotone(m.drop_last(), i);
    } else {
        assert(m.take(i) =~= m);
    }
}

/// Initialize hooks run in strictly ascending index order and finalize hooks
/// in strictly descending order.
pub proof fn lemma_hooks_ordered(e: &Executive)
    requires
        e.wf(),
        e@.init_order == indices_of(e@.registry),
        e@.finalize_order == indices_of(e@.registry).reverse(),
    ensures
        forall|i: int, j: int| 0 <= i < j < e@.init_order.len() ==> e@.init_order[i] < e@.init_order[j],
        forall|i: int, j: int| 0 <= i < j < e@.finalize_order.len() ==> e@.finalize_order[i] > e@.finalize_order[j],
{
    crate::registry::lemma_hook_order(e@.registry);
}

/// A block as received from a peer or an author.
pub struct Block {
    pub header: Header,
    pub extrinsics: Vec<Extrinsic>,
}

pub open spec fn at_number(ctx: ChainContext, n: u64) -> ChainContext {
    ChainContext { block_number: n, ..ctx }
}

/// Executes a whole block on the given prior state: initialize, every
/// extrinsic in its listed order, finalize. `outcomes` holds, for each
/// extrinsic, what its module's handler returned. The result is the committed
/// engine and the header it completed; both are functions of the inputs
/// alone. The storage engine then computes the roots of the resulting state,
/// which `check_roots` holds against the header.
pub fn execute_block(registry: Registry, ctx: ChainContext, accounts: Vec<Account>, block: Block, outcomes: &Vec<Result<(), DispatchError>>) -> (r: Result<(Executive, Header), FatalError>)
    requires
        registry.wf(),
        outcomes@.len() == block.extrinsics@.len(),
    ensures
        r is Ok <==> run_block(registry@, &at_number(ctx, block.header.number), accounts@, block.extrinsics@, outcomes@) is Ok,
        r matches Err(f) ==> run_block(registry@, &at_number(ctx, block.header.number), accounts@, block.extrinsics@, outcomes@)
            == Err::<BlockState, FatalError>(f),
        r matches Ok((e, h)) ==> {
            &&& e.wf()
            &&& h.number == block.header.number
            &&& h.parent_hash@ == block.header.parent_hash@
            &&& h.state_root@ == block.header.state_root@
            &&& h.extrinsics_root@ == block.header.extrinsics_root@
            &&& h.digest@ == block.header.digest@
            &&& e.state() == run_block(registry@, &at_number(ctx, block.header.number), accounts@, block.extrinsics@, outcomes@)->Ok_0
            &&& e@.phase == Phase::Committed
            &&& e@.init_order == indices_of(registry@)
            &&& e@.finalize_order == indices_of(registry@).reverse()
        },
{
    let ghost m = registry@;
    let ghost c = at_number(ctx, block.header.number);
    let ghost xts = block.extrinsics@;
    let ghost outs = outcomes@;
    let ghost acc = accounts@;
    let Block { header, extrinsics } = block;
    let state_root = copy_bytes(&header.state_root);
    let extrinsics_root = copy_bytes(&header.extrinsics_root);
    let mut e = Executive::new(registry, ctx, accounts);
    if let Err(f) = e.initialize_block(header) {
        return Err(f);
    }
    let n = extrinsics.len();
    let mut i: usize = 0;
    assert(xts.skip(0) =~= xts);
    assert(outs.skip(0) =~= outs);
    while i < n
        invariant
            n == xts.len(),
            n == outs.len(),
            m == registry@,
            c == at_number(ctx, block.header.number),
            acc == accounts@,
            xts == block.extrinsics@,
            extrinsics@ == xts,
            outcomes@ == outs,
            i <= n,
            e.wf(),
            e@.phase == Phase::Initializing || e@.phase == Phase::Applying,
            e@.registry == m,
            e@.ctx == c,
            e@.init_order == indices_of(m),
            e@.parent_hash == block.header.parent_hash@,
            e@.digest == block.header.digest@,
            state_root@ == block.header.state_root@,
            extrinsics_root@ == block.header.extrinsics_root@,
            run_block(m, &c, acc, xts, outs) == run_from(m, &c, e.state(), xts.skip(i as int), outs.skip(i as int)),
        decreases n - i,
    {
        assert(xts.skip(i as int)[0] == xts[i as int]);
        assert(outs.skip(i as int)[0] == outs[i as int]);
        assert(xts.skip(i as int).drop_first() =~= xts.skip(i + 1));
        assert(outs.skip(i as int).drop_first() =~= outs.skip(i + 1));
        let ghost s0 = e.state();
        if let Err(f) = e.apply_extrinsic(&extrinsics[i], outcomes[i]) {
            assert(apply_step(m, &c, s0, xts[i as int], outs[i as int]).1 == Err::<ApplyResult, FatalError>(f));
            assert(run_from(m, &c, s0, xts.skip(i as int), outs.skip(i as int)) == Err::<BlockState, FatalError>(f));
            assert(run_block(m, &c, acc, xts, outs) == Err::<BlockState, FatalError>(f));
            return Err(f);
        }
        i = i + 1;
    }
    assert(xts.skip(n as int).len() == 0);
    match e.finalize_block(state_root, extrinsics_root) {
        Ok(h) => Ok((e, h)),
        Err(f) => Err(f),
    }
}

/// Holds the roots that the storage engine computed for the resulting state
/// against those a header claims; a mismatch is fatal.
pub fn check_roots(header: &Header, state_root: &Vec<u8>, extrinsics_root: &Vec<u8>) -> (r: Result<(), FatalError>)
    ensures
        r is Ok <==> header.state_root@ == state_root@ && header.extrinsics_root@ == extrinsics_root@,
        header.state_root@ != state_root@ ==> r == Err::<(), FatalError>(FatalError::StateRootMismatch),
        header.state_root@ == state_root@ && header.extrinsics_root@ != extrinsics_root@
            ==> r == Err::<(), FatalError>(FatalError::ExtrinsicsRootMismatch),
{
    if !bytes_equal(&header.state_root, state_root) {
        Err(FatalError::StateRootMismatch)
    } else if !bytes_equal(&header.extrinsics_root, extrinsics_root) {
        Err(FatalError::ExtrinsicsRootMismatch)
    } else {
        Ok(())
    }
}

} // verus!
