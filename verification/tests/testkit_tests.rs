use contracts::fuzzing::{
    AccessControlFuzzConfig, AccessControlFuzzer, AllFuzzResults, FuzzInputGenerator, PaymentsFuzzConfig,
    PaymentsFuzzer, UpgradeabilityFuzzConfig, UpgradeabilityFuzzer,
};
use contracts::testkit::{
    estimated_gas, DeterministicSimulator, EventTracer, GasProfiler, GasStats, MockOracle, MockRegistry, MockToken,
    PriceData, StateManager,
};

// Operation ids for the gas profiler.
const INITIALIZE: u64 = 1;
const DEPOSIT: u64 = 2;
const WITHDRAW: u64 = 3;
const TRANSFER: u64 = 4;

#[test]
fn example_fuzz_access_control() {
    let users: Vec<u64> = (100..110).collect();
    let mut fuzzer = AccessControlFuzzer::new(Some(12345), 0, 1, users);
    let results = fuzzer.fuzz(&AccessControlFuzzConfig { num_users: 5, num_role_operations: 50, num_checks: 100 });
    assert!(results.caught_violations == results.unauthorized_attempts, "All unauthorized attempts must be caught");
}

#[test]
fn example_gas_profiling_operations() {
    let mut profiler = GasProfiler::new();
    profiler.record_measurement(INITIALIZE, 145000);
    profiler.record_measurement(INITIALIZE, 147000);
    profiler.record_measurement(DEPOSIT, 95000);
    profiler.record_measurement(DEPOSIT, 98000);
    profiler.record_measurement(WITHDRAW, 115000);
    profiler.record_measurement(WITHDRAW, 118000);
    profiler.record_measurement(TRANSFER, 78000);
    let deposit_stats = profiler.get_stats(DEPOSIT).unwrap();
    assert_eq!(deposit_stats.count, 2);
}

#[test]
fn gas_stats_are_exact_and_ordered() {
    let mut p = GasProfiler::new();
    for g in [30u64, 10, 20, 41] {
        p.record_measurement(9, g);
    }
    assert_eq!(p.get_stats(9), Some(GasStats { count: 4, min: 10, max: 41, avg: 25, total: 101 }));
    assert_eq!(p.get_stats(8), None);
    let s = p.get_stats(9).unwrap();
    assert!(s.min <= s.avg && s.avg <= s.max);
}

#[test]
fn snapshots_roll_back_last_in_first_out() {
    let mut m = StateManager::new();
    assert!(m.list_snapshots().is_empty());
    assert!(m.rollback_to_last().is_none());
    let a = m.snapshot(10, 1_000, b"before deposit".to_vec());
    assert_eq!((a.ledger_sequence, a.timestamp), (10, 1_000));
    m.snapshot(12, 1_010, b"after deposit".to_vec());
    assert_eq!(m.list_snapshots().len(), 2);
    let last = m.rollback_to_last().unwrap();
    assert_eq!(last.ledger_sequence, 12);
    assert_eq!(last.description, b"after deposit".to_vec());
    assert_eq!(m.list_snapshots().len(), 1);
    assert_eq!(m.list_snapshots()[0].description, b"before deposit".to_vec());
}

#[test]
fn fuzz_configs_have_documented_defaults() {
    let a = AccessControlFuzzConfig::default();
    assert_eq!((a.num_users, a.num_role_operations, a.num_checks), (10, 100, 200));
    let p = PaymentsFuzzConfig::default();
    assert_eq!((p.num_users, p.num_transactions, p.min_amount, p.max_amount), (20, 1000, 1, 1_000_000_000_000));
    let u = UpgradeabilityFuzzConfig::default();
    assert_eq!((u.num_upgrade_attempts, u.num_users), (100, 10));
}

/// The generator's recurrence, computed independently.
fn lcg(s: u64) -> u64 {
    s.wrapping_mul(6364136223846793005).wrapping_add(1442695040888963407)
}

#[test]
fn generator_is_reproducible_and_in_range() {
    let mut g = FuzzInputGenerator::new(Some(42), 7);
    let mut h = FuzzInputGenerator::new(None, 42);
    for _ in 0..50 {
        let a = g.random_u64(10, 20);
        assert_eq!(a, h.random_u64(10, 20));
        assert!((10..=20).contains(&a));
    }
    let mut g = FuzzInputGenerator::new(Some(5), 0);
    assert_eq!(g.random_u64(0, 9), lcg(5) % 10);
    assert_eq!(g.random_bool(), lcg(lcg(5)) % 2 == 1);
    let amt = g.random_amount(-5, 5);
    assert_eq!(amt, -5 + (lcg(lcg(lcg(5))) as i128) % 11);
    let s = g.random_string(12);
    assert_eq!(s.len(), 12);
    assert!(s.iter().all(|c| c.is_ascii_lowercase() || c.is_ascii_digit()));
    let choices = [3u64, 4, 5];
    let mut g2 = FuzzInputGenerator::new(Some(9), 0);
    assert_eq!(*g2.random_choice(&choices), choices[(lcg(9) % 3) as usize]);
}

#[test]
fn fuzz_tallies_add_up() {
    let users: Vec<u64> = (100..110).collect();
    let mut ac = AccessControlFuzzer::new(Some(1), 0, 1, users.clone());
    let r = ac.fuzz(&AccessControlFuzzConfig { num_users: 10, num_role_operations: 40, num_checks: 60 });
    assert_eq!(r.total_operations, 100);
    assert_eq!(r.successful_operations + r.unauthorized_attempts, 40);
    assert_eq!(r.failed_operations, 100 - r.successful_operations);

    let mut up = UpgradeabilityFuzzer::new(Some(3), 0, 1, 2, users.clone());
    let u = up.fuzz(&UpgradeabilityFuzzConfig::default());
    assert_eq!(u.total_attempts, 100);
    assert_eq!(u.authorized_upgrades + u.unauthorized_attempts_blocked, 100);
    assert_eq!(u.failed_attempts, u.unauthorized_attempts_blocked);

    let pay_users: Vec<u64> = (200..220).collect();
    let mut pf = PaymentsFuzzer::new(Some(4), 0, 1, pay_users, 999, 7);
    let config = PaymentsFuzzConfig { num_users: 20, num_transactions: 200, max_amount: 1_000_000, min_amount: 1 };
    let p = pf.fuzz(&config);
    assert_eq!(p.total_transactions, 200);
    assert_eq!(p.successful_transfers, 200);
    assert_eq!(p.insufficient_funds_caught, 0);
    assert!(p.total_volume_processed >= 200 && p.total_volume_processed <= 200 * 10_000);
    assert!(p.invariant_violations.is_empty());

    let all = AllFuzzResults { access_control: r, payments: p, upgradeability: u };
    assert!(all.all_passed());
}

#[test]
fn mock_token_conserves_supply() {
    let contract = 900;
    let mut t = MockToken::initialize(contract, 1, 6, b"Test Token".to_vec(), b"TEST".to_vec());
    t.mint(contract, 1_000);
    t.mint(5, 250);
    assert_eq!(t.total_supply(), 1_250);
    assert!(t.transfer(6, 400));
    assert_eq!(t.balance_of(contract), 600);
    assert_eq!(t.balance_of(6), 400);
    assert!(!t.transfer(6, 601));
    assert_eq!(t.balance_of(contract), 600);
    assert_eq!(t.total_supply(), t.balance_of(contract) + t.balance_of(5) + t.balance_of(6));
    t.reinitialize(2, 18, b"x".to_vec(), b"y".to_vec());
    assert_eq!(t.decimals(), 6);
}

#[test]
fn mock_oracle_and_registry() {
    let mut o = MockOracle::initialize(1);
    assert_eq!(o.get_price(3), PriceData::default());
    o.update_price(3, 42, 8, 1_234);
    assert_eq!(o.get_price(3), PriceData { price: 42, timestamp: 1_234, decimals: 8 });
    assert_eq!(o.get_last_updated(3), 1_234);
    let mut r = MockRegistry::initialize(1);
    assert_eq!(r.get_contract(5), None);
    r.register_contract(5, 55);
    assert_eq!(r.get_contract(5), Some(55));
}

#[test]
fn event_tracer_filters_by_name_in_order() {
    let mut t = EventTracer::new();
    t.log_event(1, b"deposit".to_vec(), vec![b"a".to_vec()]);
    t.log_event(2, b"withdraw".to_vec(), vec![]);
    t.log_event(3, b"deposit".to_vec(), vec![b"b".to_vec(), b"c".to_vec()]);
    let d = t.filter_by_name(b"deposit");
    assert_eq!(d.len(), 2);
    assert_eq!(d[0].timestamp, 1);
    assert_eq!(d[1].timestamp, 3);
    assert_eq!(d[1].data.len(), 2);
    assert_eq!(t.filter_by_name(b"withdraw").len(), 1);
    assert!(t.filter_by_name(b"claim").is_empty());
    assert_eq!(t.events().len(), 3);
    t.clear();
    assert!(t.events().is_empty());
}

#[test]
fn estimated_gas_by_function_name() {
    assert_eq!(estimated_gas(b"initialize"), 150_000);
    assert_eq!(estimated_gas(b"deposit"), 100_000);
    assert_eq!(estimated_gas(b"withdraw"), 120_000);
    assert_eq!(estimated_gas(b"transfer"), 80_000);
    assert_eq!(estimated_gas(b"claim"), 90_000);
    assert_eq!(estimated_gas(b"upgrade"), 200_000);
    assert_eq!(estimated_gas(b"vote"), 75_000);
    assert_eq!(estimated_gas(b"other"), 100_000);
    assert_eq!(estimated_gas(b""), 100_000);
}

#[test]
fn simulator_records_and_summarises() {
    let mut sim = DeterministicSimulator::new(100, 1_000);
    assert_eq!(sim.record_tx(b"t1".to_vec(), 7, b"deposit".to_vec(), vec![b"alice".to_vec(), 500i128.to_le_bytes().to_vec()], 1, 101, 1_005, None), 100_000);
    assert_eq!(sim.record_tx(b"t2".to_vec(), 7, b"upgrade".to_vec(), vec![], 2, 102, 1_010, Some(b"denied".to_vec())), 200_000);
    assert_eq!(sim.record_tx(b"t3".to_vec(), 7, b"upgrade".to_vec(), vec![], 3, 103, 1_015, None), 200_000);
    assert_eq!(sim.record_tx(b"t4".to_vec(), 7, b"vote".to_vec(), vec![], 4, 104, 1_020, None), 75_000);
    let r = sim.finalize(110, 2_000);
    assert_eq!(r.total_gas_used, 575_000);
    assert_eq!((r.start_ledger, r.end_ledger, r.start_time, r.end_time), (100, 110, 1_000, 2_000));
    assert_eq!(r.transactions.len(), 4);
    assert_eq!(r.transactions[0].args, vec![b"alice".to_vec(), 500i128.to_le_bytes().to_vec()]);
    // The last of the equally expensive ones.
    assert_eq!(r.most_expensive_tx().unwrap().name, b"t3".to_vec());
    let ok: Vec<_> = r.successful_txs().iter().map(|t| t.caller).collect();
    assert_eq!(ok, vec![1, 3, 4]);
    let failed = r.failed_txs();
    assert_eq!(failed.len(), 1);
    assert_eq!(failed[0].error, Some(b"denied".to_vec()));
}

#[test]
fn empty_simulation_has_no_most_expensive_tx() {
    let r = DeterministicSimulator::new(5, 50).finalize(5, 50);
    assert!(r.most_expensive_tx().is_none());
    assert_eq!(r.total_gas_used, 0);
    assert!(r.successful_txs().is_empty());
}

#[test]
fn payments_fuzz_accepts_negative_minimum_amounts() {
    let users: Vec<u64> = (200..205).collect();
    let mut pf = PaymentsFuzzer::new(Some(9), 0, 1, users, 999, 7);
    let config = PaymentsFuzzConfig { num_users: 5, num_transactions: 50, max_amount: 1_000, min_amount: -20 };
    let p = pf.fuzz(&config);
    assert_eq!(p.successful_transfers, 50);
    assert_eq!(p.failed_transfers, 0);
    assert!(p.invariant_violations.is_empty());
    assert!(p.total_volume_processed >= 50 * -20 && p.total_volume_processed <= 50 * 10);
}

#[test]
fn snapshots_are_listed_in_the_order_taken() {
    let mut m = StateManager::new();
    for k in 0..5u32 {
        m.snapshot(100 + k, 1_000 + k as u64, format!("step {}", k).into_bytes());
    }
    let listed = m.list_snapshots();
    assert_eq!(listed.len(), 5);
    for (k, s) in listed.iter().enumerate() {
        assert_eq!(s.ledger_sequence, 100 + k as u32);
        assert_eq!(s.timestamp, 1_000 + k as u64);
        assert_eq!(s.description, format!("step {}", k).into_bytes());
    }
    assert_eq!(m.list_snapshots().len(), 5);
}

#[test]
fn access_fuzz_counts_do_not_depend_on_the_users() {
    let config = AccessControlFuzzConfig { num_users: 10, num_role_operations: 80, num_checks: 40 };
    let mut a = AccessControlFuzzer::new(Some(77), 0, 1, (100..110).collect());
    let mut b = AccessControlFuzzer::new(Some(77), 0, 2, (500..503).collect());
    let ra = a.fuzz(&config);
    let rb = b.fuzz(&config);
    assert_eq!(ra.successful_operations, rb.successful_operations);
    assert_eq!(ra.unauthorized_attempts, rb.unauthorized_attempts);
    assert_eq!(ra.total_operations, 120);
    assert_eq!(ra.successful_operations + ra.unauthorized_attempts, 80);
    assert_eq!(ra.failed_operations, ra.total_operations - ra.successful_operations);
    assert!(ra.errors.is_empty());
}

#[test]
fn payments_fuzz_can_run_again() {
    let users: Vec<u64> = (300..304).collect();
    let mut pf = PaymentsFuzzer::new(Some(5), 0, 1, users, 999, 7);
    let config = PaymentsFuzzConfig { num_users: 4, num_transactions: 30, max_amount: 10_000, min_amount: 1 };
    let first = pf.fuzz(&config);
    let second = pf.fuzz(&config);
    for r in [&first, &second] {
        assert_eq!(r.total_transactions, 30);
        assert_eq!(r.successful_transfers, 30);
        assert_eq!(r.failed_transfers, 0);
        assert!(r.invariant_violations.is_empty());
    }
}
