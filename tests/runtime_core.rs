use chain_runtime::api::{account_nonce, query_fee, validate_transaction, wasm_binary_unwrap, TransactionSource};
use chain_runtime::consensus::{
    check_timestamp_inherent, decode_session_keys, epoch_configuration, AllowedSlots, PrimaryProbability, WeightedAuthority, generate_key_ownership_proof, submit_equivocation_report,
    EquivocationProof, InherentVerdict, KeyOwnershipProof, KeyRole, OffenceKey, ReportError, ReportOutcome,
};
use chain_runtime::execution::{
    check_roots, execute_block, ApplyResult, Block, DispatchError, Executive, FatalError, Header, Phase,
};
use chain_runtime::fee::{compute_fee, next_fee_multiplier, FeeParams, MultiplierConfig};
use chain_runtime::registry::{Call, ModuleDescriptor, Registry, RegistryError, RouteError};
use chain_runtime::runtime::runtime_registry;
use chain_runtime::validation::{
    pre_dispatch, validate, Account, BlockUsage, ChainContext, Era, Extrinsic, SignedExtra, SignedPart,
    ValidationError, NONCE_EXHAUSTED, NO_UNSIGNED_VALIDATOR, UNROUTABLE_CALL,
};

fn descriptor(index: u8, init_weight: u64, finalize_weight: u64) -> ModuleDescriptor {
    ModuleDescriptor {
        index,
        provides_calls: true,
        provides_storage: true,
        provides_inherent: index == 1,
        provides_unsigned_validation: index == 4,
        init_weight,
        finalize_weight,
    }
}

fn small_registry() -> Registry {
    Registry::new(vec![descriptor(0, 5, 5), descriptor(1, 10, 0), descriptor(4, 0, 20)]).unwrap()
}

fn unit_fees() -> FeeParams {
    FeeParams { base_fee: 1, per_byte_fee: 1, per_weight_fee: 1, fee_multiplier: 1 }
}

fn context(block_number: u64) -> ChainContext {
    ChainContext {
        spec_version: 7,
        tx_version: 2,
        genesis_hash: vec![9, 9, 9],
        block_number,
        weight_limit: 1000,
        length_limit: 500,
        fees: unit_fees(),
    }
}

fn call(module_index: u8) -> Call {
    Call { module_index, variant: 0, args: vec![1, 2] }
}

fn signed(signer: usize, nonce: u64, era: Era, length: u64, weight: u64) -> Extrinsic {
    Extrinsic {
        signed: Some(SignedPart {
            signer,
            extra: SignedExtra { spec_version: 7, tx_version: 2, genesis_hash: vec![9, 9, 9], era, nonce },
        }),
        call: call(0),
        weight,
        length,
    }
}

fn inherent(weight: u64) -> Extrinsic {
    Extrinsic { signed: None, call: call(1), weight, length: 8 }
}

fn fresh_usage() -> BlockUsage {
    BlockUsage { weight_used: 0, length_used: 0 }
}

fn header(number: u64) -> Header {
    Header { parent_hash: vec![1], number, state_root: vec![2], extrinsics_root: vec![3], digest: vec![4] }
}

#[test]
fn registry_rejects_unordered_or_duplicate_indices() {
    assert!(matches!(
        Registry::new(vec![descriptor(2, 0, 0), descriptor(2, 0, 0)]),
        Err(RegistryError::NotStrictlyAscending)
    ));
    assert!(matches!(
        Registry::new(vec![descriptor(3, 0, 0), descriptor(1, 0, 0)]),
        Err(RegistryError::NotStrictlyAscending)
    ));
    assert!(Registry::new(vec![]).is_ok());
}

#[test]
fn registry_routes_by_module_index() {
    let reg = small_registry();
    assert_eq!(reg.route(&call(4)), Ok(2));
    assert_eq!(reg.route(&call(0)), Ok(0));
    assert_eq!(reg.route(&call(3)), Err(RouteError::Unroutable));
}

#[test]
fn registry_iterates_both_ways() {
    let reg = small_registry();
    assert_eq!(reg.iterate_ascending(), vec![0, 1, 4]);
    assert_eq!(reg.iterate_descending(), vec![4, 1, 0]);
}

#[test]
fn runtime_table_has_every_module_in_order() {
    let reg = runtime_registry();
    assert_eq!(reg.len(), 33);
    let asc = reg.iterate_ascending();
    assert_eq!(asc, (0..33).collect::<Vec<u8>>());
    assert!(reg.get(1).provides_inherent);
    assert!(reg.get(5).provides_unsigned_validation);
    assert_eq!(reg.route(&call(3)), Err(RouteError::Unroutable));
    assert_eq!(reg.route(&call(13)), Err(RouteError::Unroutable));
    assert_eq!(reg.route(&call(33)), Err(RouteError::Unroutable));
    assert_eq!(reg.route(&call(29)), Ok(29));
}

#[test]
fn fee_concrete_example() {
    assert_eq!(compute_fee(unit_fees(), 100, 200), 301);
}

#[test]
fn fee_formula_weights_the_multiplier() {
    let p = FeeParams { base_fee: 10, per_byte_fee: 2, per_weight_fee: 3, fee_multiplier: 4 };
    assert_eq!(compute_fee(p, 5, 7), 10 + 10 + 84);
}

#[test]
fn fee_saturates_at_the_largest_balance() {
    let p = FeeParams { base_fee: u64::MAX, per_byte_fee: u64::MAX, per_weight_fee: u64::MAX, fee_multiplier: u64::MAX };
    assert_eq!(compute_fee(p, u64::MAX, u64::MAX), u128::MAX);
}

#[test]
fn multiplier_moves_toward_target_within_bounds() {
    let c = MultiplierConfig { target_percent: 25, damping: 10, min_multiplier: 5, max_multiplier: 200 };
    // target is 250 of 1000
    assert_eq!(next_fee_multiplier(100, 900, 1000, c), 110);
    assert_eq!(next_fee_multiplier(100, 100, 1000, c), 90);
    assert_eq!(next_fee_multiplier(100, 250, 1000, c), 100);
    assert_eq!(next_fee_multiplier(195, 900, 1000, c), 200);
    assert_eq!(next_fee_multiplier(6, 0, 1000, c), 5);
    assert_eq!(next_fee_multiplier(9, 999, 1000, c), 10);
}

#[test]
fn validation_accepts_and_prices_a_good_extrinsic() {
    let accounts = vec![Account { nonce: 0, free: 1000 }];
    let xt = signed(0, 0, Era::Immortal, 100, 200);
    let v = validate(&small_registry(), &context(1), fresh_usage(), &accounts, &xt).unwrap();
    assert_eq!(v.priority, 301);
}

#[test]
fn validation_errors_by_stage() {
    let accounts = vec![Account { nonce: 3, free: 50 }, Account { nonce: u64::MAX, free: 50 }];
    let reg = small_registry();
    let ctx = context(10);
    let u = fresh_usage();
    let mut wrong_version = signed(0, 3, Era::Immortal, 1, 1);
    if let Some(s) = &mut wrong_version.signed {
        s.extra.spec_version = 6;
    }
    assert_eq!(validate(&reg, &ctx, u, &accounts, &wrong_version), Err(ValidationError::BadProof));
    let mut wrong_genesis = signed(0, 3, Era::Immortal, 1, 1);
    if let Some(s) = &mut wrong_genesis.signed {
        s.extra.genesis_hash = vec![9, 9, 8];
    }
    assert_eq!(validate(&reg, &ctx, u, &accounts, &wrong_genesis), Err(ValidationError::BadProof));
    assert_eq!(validate(&reg, &ctx, u, &accounts, &signed(7, 3, Era::Immortal, 1, 1)), Err(ValidationError::BadProof));
    let old = Era::Mortal { birth: 2, period: 8 };
    assert_eq!(validate(&reg, &ctx, u, &accounts, &signed(0, 3, old, 1, 1)), Err(ValidationError::Expired));
    let unborn = Era::Mortal { birth: 11, period: 8 };
    assert_eq!(validate(&reg, &ctx, u, &accounts, &signed(0, 3, unborn, 1, 1)), Err(ValidationError::Expired));
    assert_eq!(validate(&reg, &ctx, u, &accounts, &signed(0, 2, Era::Immortal, 1, 1)), Err(ValidationError::Stale));
    assert_eq!(validate(&reg, &ctx, u, &accounts, &signed(0, 4, Era::Immortal, 1, 1)), Err(ValidationError::Future));
    assert_eq!(
        validate(&reg, &ctx, u, &accounts, &signed(1, u64::MAX, Era::Immortal, 1, 1)),
        Err(ValidationError::Custom(NONCE_EXHAUSTED))
    );
    assert_eq!(
        validate(&reg, &ctx, u, &accounts, &signed(0, 3, Era::Immortal, 1, 1001)),
        Err(ValidationError::ExhaustsResources)
    );
    assert_eq!(
        validate(&reg, &ctx, u, &accounts, &signed(0, 3, Era::Immortal, 501, 1)),
        Err(ValidationError::ExhaustsResources)
    );
    assert_eq!(validate(&reg, &ctx, u, &accounts, &signed(0, 3, Era::Immortal, 30, 30)), Err(ValidationError::Payment));
    assert!(validate(&reg, &ctx, u, &accounts, &signed(0, 3, Era::Mortal { birth: 5, period: 6 }, 1, 1)).is_ok());
}

#[test]
fn pre_dispatch_charges_and_advances_nonce() {
    let mut accounts = vec![Account { nonce: 0, free: 1000 }];
    let mut usage = fresh_usage();
    let xt = signed(0, 0, Era::Immortal, 100, 200);
    assert_eq!(pre_dispatch(&small_registry(), &context(1), &mut usage, &mut accounts, &xt), Ok(301));
    assert_eq!(accounts[0], Account { nonce: 1, free: 699 });
    assert_eq!(usage, BlockUsage { weight_used: 200, length_used: 100 });
}

#[test]
fn failed_pre_dispatch_changes_nothing() {
    let mut accounts = vec![Account { nonce: 0, free: 10 }];
    let mut usage = fresh_usage();
    let xt = signed(0, 0, Era::Immortal, 100, 200);
    assert_eq!(pre_dispatch(&small_registry(), &context(1), &mut usage, &mut accounts, &xt), Err(ValidationError::Payment));
    assert_eq!(accounts[0], Account { nonce: 0, free: 10 });
    assert_eq!(usage, fresh_usage());
}

#[test]
fn same_nonce_twice_is_stale() {
    let reg = small_registry();
    let mut accounts = vec![Account { nonce: 4, free: 1000 }];
    let mut usage = fresh_usage();
    let xt = signed(0, 4, Era::Immortal, 10, 10);
    let ctx = context(1);
    assert!(pre_dispatch(&reg, &ctx, &mut usage, &mut accounts, &xt).is_ok());
    assert_eq!(pre_dispatch(&reg, &ctx, &mut usage, &mut accounts, &xt), Err(ValidationError::Stale));
    assert_eq!(accounts[0].nonce, 5);
}

#[test]
fn expired_extrinsic_never_enters_a_later_block() {
    let era = Era::Mortal { birth: 1, period: 4 };
    let xt = signed(0, 0, era, 10, 10);
    for n in [5u64, 6, 100] {
        let mut e = Executive::new(small_registry(), context(0), vec![Account { nonce: 0, free: 1000 }]);
        e.initialize_block(header(n)).unwrap();
        assert!(matches!(
            e.apply_extrinsic(&xt, Ok(())),
            Ok(ApplyResult::Excluded(ValidationError::Expired))
        ));
        assert!(e.records().is_empty());
        assert_eq!(e.accounts()[0], Account { nonce: 0, free: 1000 });
    }
}

#[test]
fn hooks_run_ascending_then_descending() {
    let mut e = Executive::new(small_registry(), context(0), vec![]);
    assert_eq!(e.phase(), Phase::Idle);
    e.initialize_block(header(3)).unwrap();
    assert_eq!(e.phase(), Phase::Initializing);
    assert_eq!(*e.init_order(), vec![0, 1, 4]);
    let h = e.finalize_block(vec![7], vec![8]).unwrap();
    assert_eq!(e.phase(), Phase::Committed);
    assert_eq!(*e.finalize_order(), vec![4, 1, 0]);
    assert_eq!(h.number, 3);
    assert_eq!(h.parent_hash, vec![1]);
    assert_eq!(h.state_root, vec![7]);
    assert_eq!(h.extrinsics_root, vec![8]);
    assert_eq!(h.digest, vec![4]);
}

#[test]
fn lifecycle_rejects_out_of_order_operations() {
    let mut e = Executive::new(small_registry(), context(0), vec![]);
    assert!(matches!(e.apply_extrinsic(&inherent(1), Ok(())), Err(FatalError::WrongPhase)));
    assert!(matches!(e.finalize_block(vec![], vec![]), Err(FatalError::WrongPhase)));
    e.initialize_block(header(1)).unwrap();
    assert!(matches!(e.initialize_block(header(1)), Err(FatalError::WrongPhase)));
    e.finalize_block(vec![], vec![]).unwrap();
    assert!(matches!(e.apply_extrinsic(&inherent(1), Ok(())), Err(FatalError::WrongPhase)));
}

#[test]
fn weight_never_exceeds_the_block_limit() {
    let mut e = Executive::new(small_registry(), context(0), vec![Account { nonce: 0, free: 1_000_000 }]);
    e.initialize_block(header(1)).unwrap();
    assert_eq!(e.usage().weight_used, 40);
    let mut nonce = 0;
    for _ in 0..10 {
        let r = e.apply_extrinsic(&signed(0, nonce, Era::Immortal, 1, 300), Ok(())).unwrap();
        if let ApplyResult::Included { .. } = r {
            nonce += 1;
        }
        assert!(e.usage().weight_used <= 1000);
    }
    assert_eq!(nonce, 3);
    assert_eq!(e.usage().weight_used, 940);
    assert!(matches!(
        e.apply_extrinsic(&signed(0, nonce, Era::Immortal, 1, 61), Ok(())),
        Ok(ApplyResult::Excluded(ValidationError::ExhaustsResources))
    ));
}

#[test]
fn hooks_heavier_than_the_block_are_fatal() {
    let heavy = Registry::new(vec![descriptor(0, 600, 600)]).unwrap();
    let mut e = Executive::new(heavy, context(0), vec![]);
    assert!(matches!(e.initialize_block(header(1)), Err(FatalError::HooksExceedWeightLimit)));
    assert_eq!(e.phase(), Phase::Idle);
}

#[test]
fn dispatch_failure_keeps_extrinsic_and_fee() {
    let mut e = Executive::new(small_registry(), context(0), vec![Account { nonce: 0, free: 1000 }]);
    e.initialize_block(header(1)).unwrap();
    let failure = Err(DispatchError::Module { index: 0, code: 3 });
    let r = e.apply_extrinsic(&signed(0, 0, Era::Immortal, 100, 200), failure).unwrap();
    assert!(matches!(r, ApplyResult::Included { fee: 301, outcome: Err(DispatchError::Module { index: 0, code: 3 }) }));
    assert_eq!(e.records().len(), 1);
    assert_eq!(e.accounts()[0], Account { nonce: 1, free: 699 });
}

#[test]
fn inherent_after_signed_is_fatal_and_unroutable_is_fatal() {
    let mut e = Executive::new(small_registry(), context(0), vec![Account { nonce: 0, free: 1000 }]);
    e.initialize_block(header(1)).unwrap();
    assert!(matches!(e.apply_extrinsic(&inherent(5), Ok(())), Ok(ApplyResult::Included { fee: 0, .. })));
    assert!(matches!(e.apply_extrinsic(&signed(0, 0, Era::Immortal, 1, 1), Ok(())), Ok(ApplyResult::Included { .. })));
    assert!(matches!(e.apply_extrinsic(&inherent(5), Ok(())), Err(FatalError::InherentAfterSigned)));
    let mut stray = inherent(5);
    stray.call = call(9);
    assert!(matches!(e.apply_extrinsic(&stray, Ok(())), Err(FatalError::Unroutable)));
    assert_eq!(e.records().len(), 2);
}

fn sample_block() -> (Block, Vec<Result<(), DispatchError>>) {
    let block = Block {
        header: header(2),
        extrinsics: vec![
            inherent(5),
            signed(0, 0, Era::Immortal, 10, 20),
            signed(1, 0, Era::Immortal, 10, 20),
            signed(0, 1, Era::Mortal { birth: 1, period: 5 }, 10, 20),
        ],
    };
    (block, vec![Ok(()), Ok(()), Err(DispatchError::BadOrigin), Ok(())])
}

#[test]
fn execute_block_is_deterministic() {
    let accounts = vec![Account { nonce: 0, free: 1000 }, Account { nonce: 0, free: 5 }];
    let (b1, o1) = sample_block();
    let (b2, o2) = sample_block();
    let (e1, h1) = execute_block(small_registry(), context(0), accounts.clone(), b1, &o1).unwrap();
    let (e2, h2) = execute_block(small_registry(), context(0), accounts, b2, &o2).unwrap();
    assert_eq!(h1.number, 2);
    assert_eq!(h1.state_root, h2.state_root);
    assert_eq!(check_roots(&h1, &vec![2], &vec![3]), Ok(()));
    assert_eq!(e1.accounts(), e2.accounts());
    assert_eq!(e1.usage(), e2.usage());
    assert_eq!(e1.records().len(), e2.records().len());
    assert_eq!(e1.phase(), Phase::Committed);
    assert_eq!(*e1.accounts(), vec![Account { nonce: 2, free: 1000 - 62 }, Account { nonce: 0, free: 5 }]);
    assert_eq!(e1.records().len(), 3);
    assert_eq!(*e1.init_order(), vec![0, 1, 4]);
    assert_eq!(*e1.finalize_order(), vec![4, 1, 0]);
}

#[test]
fn execute_block_aborts_on_fatal() {
    let mut block = sample_block().0;
    block.extrinsics.push(inherent(1));
    let outcomes = vec![Ok(()); 5];
    let r = execute_block(small_registry(), context(0), vec![Account { nonce: 0, free: 1000 }, Account { nonce: 0, free: 5 }], block, &outcomes);
    assert!(matches!(r, Err(FatalError::InherentAfterSigned)));
}

fn history() -> Vec<Vec<u64>> {
    vec![vec![10, 11], vec![11, 12, 13]]
}

#[test]
fn key_ownership_proof_only_for_members() {
    assert_eq!(generate_key_ownership_proof(&history(), 12), Some(KeyOwnershipProof { session: 1, position: 1 }));
    assert_eq!(generate_key_ownership_proof(&history(), 11), Some(KeyOwnershipProof { session: 1, position: 0 }));
    assert_eq!(generate_key_ownership_proof(&history(), 99), None);
}

fn report() -> EquivocationProof {
    EquivocationProof { offender: 12, session: 1, round: 40, first: vec![1, 2], second: vec![1, 3] }
}

#[test]
fn equivocation_report_is_idempotent() {
    let mut penalized: Vec<OffenceKey> = vec![];
    let key = generate_key_ownership_proof(&history(), 12).unwrap();
    assert_eq!(submit_equivocation_report(&history(), &mut penalized, &report(), key), Ok(ReportOutcome::Penalized));
    assert_eq!(penalized, vec![OffenceKey { offender: 12, session: 1, round: 40 }]);
    assert_eq!(
        submit_equivocation_report(&history(), &mut penalized, &report(), key),
        Ok(ReportOutcome::AlreadyReported)
    );
    assert_eq!(penalized.len(), 1);
}

#[test]
fn equivocation_report_errors() {
    let mut penalized: Vec<OffenceKey> = vec![];
    let bad_key = KeyOwnershipProof { session: 1, position: 0 };
    assert_eq!(
        submit_equivocation_report(&history(), &mut penalized, &report(), bad_key),
        Err(ReportError::InvalidKeyOwnershipProof)
    );
    let mut same = report();
    same.second = same.first.clone();
    assert_eq!(
        submit_equivocation_report(&history(), &mut penalized, &same, KeyOwnershipProof { session: 1, position: 1 }),
        Err(ReportError::InvalidEquivocationProof)
    );
    assert!(penalized.is_empty());
}

#[test]
fn session_keys_decode_by_schema() {
    let encoded: Vec<u8> = (0..128).map(|i| i as u8).collect();
    let keys = decode_session_keys(&encoded).unwrap();
    assert_eq!(keys.len(), 4);
    assert_eq!(keys[0].role, KeyRole::Grandpa);
    assert_eq!(keys[3].role, KeyRole::AuthorityDiscovery);
    assert_eq!(keys[1].public, (32..64).map(|i| i as u8).collect::<Vec<u8>>());
    assert!(decode_session_keys(&vec![0; 127]).is_none());
    assert!(decode_session_keys(&vec![]).is_none());
}

#[test]
fn timestamp_drift_is_only_a_warning() {
    assert_eq!(check_timestamp_inherent(1000, 1003, 6), InherentVerdict::Consistent);
    assert_eq!(check_timestamp_inherent(1010, 1003, 6), InherentVerdict::Warning { drift: 7 });
    assert_eq!(check_timestamp_inherent(990, 1003, 6), InherentVerdict::Warning { drift: 13 });
}

#[test]
fn pool_validation_ignores_source_for_the_verdict() {
    let reg = small_registry();
    let accounts = vec![Account { nonce: 0, free: 1000 }];
    let ctx = context(1);
    let xt = signed(0, 0, Era::Immortal, 100, 200);
    for source in [TransactionSource::Local, TransactionSource::External, TransactionSource::InBlock] {
        let v = validate_transaction(source, &reg, &ctx, fresh_usage(), &accounts, &xt).unwrap();
        assert_eq!(v.priority, 301);
        assert_eq!(v.propagate, source != TransactionSource::InBlock);
        assert_eq!(
            validate_transaction(source, &reg, &ctx, fresh_usage(), &accounts, &signed(0, 1, Era::Immortal, 1, 1)),
            Err(ValidationError::Future)
        );
    }
}

#[test]
fn nonce_and_fee_queries() {
    let accounts = vec![Account { nonce: 6, free: 0 }];
    assert_eq!(account_nonce(&accounts, 0), 6);
    assert_eq!(account_nonce(&accounts, 3), 0);
    assert_eq!(query_fee(&context(1), 100, 200), 301);
}

#[test]
fn wasm_binary_is_handed_back() {
    static CODE: [u8; 3] = [0, 97, 115];
    assert_eq!(wasm_binary_unwrap(Some(&CODE)), &[0, 97, 115]);
}

#[test]
fn multiplier_is_clamped_to_its_bounds() {
    let c = MultiplierConfig { target_percent: 50, damping: 4, min_multiplier: 10, max_multiplier: 20 };
    assert_eq!(next_fee_multiplier(40, 900, 1000, c), 20);
    assert_eq!(next_fee_multiplier(2, 0, 1000, c), 10);
    assert_eq!(next_fee_multiplier(0, 900, 1000, c), 10);
}

#[test]
fn committed_block_sets_next_multiplier() {
    let c = MultiplierConfig { target_percent: 10, damping: 1, min_multiplier: 1, max_multiplier: 8 };
    let mut e = Executive::new(small_registry(), context(0), vec![Account { nonce: 0, free: 1000 }]);
    e.initialize_block(header(1)).unwrap();
    e.apply_extrinsic(&signed(0, 0, Era::Immortal, 1, 100), Ok(())).unwrap();
    e.finalize_block(vec![], vec![]).unwrap();
    // 140 used against a target of 100: the multiplier doubles.
    assert_eq!(e.next_block_fee_multiplier(c), 2);
}

#[test]
fn unsigned_call_needs_a_vouching_module() {
    let mut e = Executive::new(small_registry(), context(0), vec![]);
    e.initialize_block(header(1)).unwrap();
    let mut plain = inherent(5);
    plain.call = call(0);
    assert!(matches!(
        e.apply_extrinsic(&plain, Ok(())),
        Ok(ApplyResult::Excluded(ValidationError::Custom(NO_UNSIGNED_VALIDATOR)))
    ));
    assert!(e.records().is_empty());
    let mut report = inherent(5);
    report.call = call(4);
    assert!(matches!(e.apply_extrinsic(&report, Ok(())), Ok(ApplyResult::Included { fee: 0, .. })));
}

#[test]
fn pool_rejects_inherents_unroutable_and_unvouched_calls() {
    let reg = small_registry();
    let ctx = context(1);
    let accounts: Vec<Account> = vec![];
    let v = |xt: &Extrinsic| validate_transaction(TransactionSource::External, &reg, &ctx, fresh_usage(), &accounts, xt);
    assert_eq!(v(&inherent(5)), Err(ValidationError::Custom(NO_UNSIGNED_VALIDATOR)));
    let mut plain = inherent(5);
    plain.call = call(0);
    assert_eq!(v(&plain), Err(ValidationError::Custom(NO_UNSIGNED_VALIDATOR)));
    let mut stray = inherent(5);
    stray.call = call(9);
    assert_eq!(v(&stray), Err(ValidationError::Custom(UNROUTABLE_CALL)));
    let mut report = inherent(5);
    report.call = call(4);
    assert_eq!(v(&report).map(|p| p.priority), Ok(0));
}

#[test]
fn roots_are_held_against_the_header() {
    let h = header(4);
    assert_eq!(check_roots(&h, &vec![2], &vec![3]), Ok(()));
    assert_eq!(check_roots(&h, &vec![5], &vec![3]), Err(FatalError::StateRootMismatch));
    assert_eq!(check_roots(&h, &vec![5], &vec![6]), Err(FatalError::StateRootMismatch));
    assert_eq!(check_roots(&h, &vec![2], &vec![6]), Err(FatalError::ExtrinsicsRootMismatch));
}

#[test]
fn runtime_table_runs_hooks_in_both_orders() {
    let mut e = Executive::new(runtime_registry(), context(0), vec![]);
    e.initialize_block(header(1)).unwrap();
    assert_eq!(e.usage().weight_used, 0);
    assert_eq!(e.init_order(), &(0..33).collect::<Vec<u8>>());
    e.finalize_block(vec![], vec![]).unwrap();
    assert_eq!(e.finalize_order(), &(0..33).rev().collect::<Vec<u8>>());
}

#[test]
fn report_in_a_later_session_with_generated_proof() {
    let mut penalized: Vec<OffenceKey> = vec![];
    let key = generate_key_ownership_proof(&history(), 11).unwrap();
    let later = EquivocationProof { offender: 11, session: 1, round: 3, first: vec![1], second: vec![2] };
    assert_eq!(submit_equivocation_report(&history(), &mut penalized, &later, key), Ok(ReportOutcome::Penalized));
}

#[test]
fn epoch_configuration_snapshots_its_inputs() {
    let c = PrimaryProbability { numerator: 1, denominator: 4 };
    let authorities = vec![WeightedAuthority { id: 7, weight: 1 }, WeightedAuthority { id: 8, weight: 1 }];
    let cfg = epoch_configuration(6000, 200, c, authorities.clone(), vec![5; 32]);
    assert_eq!(cfg.slot_duration, 6000);
    assert_eq!(cfg.epoch_length, 200);
    assert_eq!(cfg.c, c);
    assert_eq!(cfg.authorities, authorities);
    assert_eq!(cfg.randomness, vec![5; 32]);
    assert_eq!(cfg.allowed_slots, AllowedSlots::PrimaryAndSecondaryPlainSlots);
}
