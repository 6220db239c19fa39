use productive_miner::{genesis_label, Ledger, Params};

fn params() -> Params {
    Params {
        max_difficulty: 1_000_000,
        base_reward: 100,
        block_time: 6000,
        quantum_security_level: 256,
        min_stake_amount: 1000,
        pow_reward_multiplier: 2,
        pos_reward_multiplier: 3,
    }
}

fn genesis() -> Vec<Vec<u8>> {
    vec![
        b"Prime Pattern Discovery".to_vec(),
        b"Riemann Zero Computation".to_vec(),
        b"Yang-Mills Field Theory".to_vec(),
        b"Goldbach Conjecture Verification".to_vec(),
        b"Navier-Stokes Simulation".to_vec(),
        b"Birch-Swinnerton-Dyer".to_vec(),
        b"Elliptic Curve Cryptography".to_vec(),
        b"Lattice Cryptography".to_vec(),
        b"Poincar\xE9 Conjecture".to_vec(),
    ]
}

#[test]
fn new_ledger_permits_no_work_type() {
    let ledger = Ledger::new(params());
    for label in genesis() {
        assert!(!ledger.work_types(&label));
    }
    assert!(!ledger.work_types(&Vec::new()));
}

#[test]
fn genesis_labels_are_the_named_categories() {
    let expected = genesis();
    for i in 0..9 {
        assert_eq!(genesis_label(i), expected[i]);
    }
}

#[test]
fn initialize_work_types_seeds_the_registry() {
    let mut ledger = Ledger::new(params());
    ledger.initialize_work_types();
    for label in genesis() {
        assert!(ledger.work_types(&label));
    }
    assert!(!ledger.work_types(&b"Prime Pattern".to_vec()));
    assert!(!ledger.work_types(&b"Poincar\xC3\xA9 Conjecture".to_vec()));
    assert!(!ledger.work_types(&b"prime pattern discovery".to_vec()));
}

#[test]
fn initialize_work_types_keeps_registered_labels() {
    let mut ledger = Ledger::new(params());
    ledger.register_work_type(b"Collatz Orbits".to_vec());
    ledger.initialize_work_types();
    ledger.initialize_work_types();
    assert!(ledger.work_types(&b"Collatz Orbits".to_vec()));
    assert!(ledger.work_types(&b"Lattice Cryptography".to_vec()));
}

#[test]
fn register_is_idempotent() {
    let mut ledger = Ledger::new(params());
    ledger.register_work_type(b"Collatz Orbits".to_vec());
    assert!(ledger.work_types(&b"Collatz Orbits".to_vec()));
    ledger.register_work_type(b"Collatz Orbits".to_vec());
    assert!(ledger.work_types(&b"Collatz Orbits".to_vec()));
    assert!(!ledger.work_types(&b"Collatz Orbit".to_vec()));
    assert!(!ledger.work_types(&b"Collatz Orbits ".to_vec()));
}

#[test]
fn empty_label_can_be_registered() {
    let mut ledger = Ledger::new(params());
    ledger.register_work_type(Vec::new());
    assert!(ledger.work_types(&Vec::new()));
    assert!(!ledger.work_types(&vec![0u8]));
}
