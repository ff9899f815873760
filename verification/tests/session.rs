use starkli::address::udc_address;
use starkli::address::UniquenessMode;
use starkli::cancel::CancellationSignal;
use starkli::error::MineError;
use starkli::field::Felt;
use starkli::hash::hash_on_elements;
use starkli::mine_udc_salt::MineUdcSalt;
use starkli::miner::MinerState;
use starkli::scheduler::start_nonces;

fn options(prefix: &str, suffix: &str) -> MineUdcSalt {
    MineUdcSalt {
        prefix: prefix.to_string(),
        suffix: suffix.to_string(),
        not_unique: true,
        deployer_address: None,
        jobs: 1,
        class_hash: Felt::from_u64(1),
        ctor_args: vec![],
    }
}

#[test]
fn end_to_end_example() {
    let session = options("0000", "");
    let found = session.run(100_000).unwrap().expect("a match within the attempts");
    let expected = starkli::address::derive(
        &found.nonce,
        &Felt::from_u64(1),
        &hash_on_elements(&[]),
        &UniquenessMode::NotUnique,
    );
    assert_eq!(found.deployed_address, expected);
    let bits = found.deployed_address.to_bits_le();
    assert!(!bits[251] && !bits[250] && !bits[249] && !bits[248]);
}

#[test]
fn run_with_several_jobs_and_a_deployer() {
    let mut session = options("00", "1");
    session.not_unique = false;
    session.deployer_address = Some(Felt::from_u64(0xabc));
    session.jobs = 3;
    session.ctor_args = vec![Felt::from_u64(7), Felt::from_u64(8)];
    let found = session.run(100_000).unwrap().expect("a match within the attempts");
    let mode = UniquenessMode::Unique {
        deployer_address: Felt::from_u64(0xabc),
        registry_address: udc_address(),
    };
    let expected = starkli::address::derive(
        &found.nonce,
        &session.class_hash,
        &hash_on_elements(&session.ctor_args),
        &mode,
    );
    assert_eq!(found.deployed_address, expected);
    let bits = found.deployed_address.to_bits_le();
    assert!(!bits[251] && !bits[250] && bits[0]);
}

#[test]
fn run_without_attempts_finds_nothing() {
    assert_eq!(options("0000", "").run(0), Ok(None));
}

#[test]
fn run_gives_up_on_a_pattern_no_address_has() {
    // Feasible as a number, but no address has its top bit set.
    assert_eq!(options("1", "").run(50), Ok(None));
}

#[test]
fn run_rejects_an_infeasible_pattern_before_any_search() {
    let session = options(&"0".repeat(200), &"0".repeat(100));
    assert_eq!(session.run(u64::MAX), Err(MineError::InfeasiblePattern));
}

#[test]
fn run_rejects_patterns_that_are_too_long() {
    assert_eq!(options(&"0".repeat(253), "").run(1), Err(MineError::PatternTooLong));
}

#[test]
fn run_rejects_invalid_bits() {
    assert_eq!(options("0120", "").run(1), Err(MineError::InvalidBitCharacter));
}

#[test]
fn deployer_with_not_unique_is_rejected() {
    let mut session = options("0", "");
    session.deployer_address = Some(Felt::one());
    assert_eq!(session.uniqueness(), Err(MineError::InvalidUniquenessOptions));
    assert_eq!(session.run(1), Err(MineError::InvalidUniquenessOptions));
}

#[test]
fn missing_deployer_without_not_unique_is_rejected() {
    let mut session = options("0", "");
    session.not_unique = false;
    assert_eq!(session.uniqueness(), Err(MineError::InvalidUniquenessOptions));
    assert_eq!(session.run(1), Err(MineError::InvalidUniquenessOptions));
}

#[test]
fn uniqueness_options_are_checked_before_the_patterns() {
    let mut session = options("012", &"0".repeat(300));
    session.not_unique = false;
    assert_eq!(session.run(1), Err(MineError::InvalidUniquenessOptions));
}

#[test]
fn uniqueness_not_unique() {
    assert_eq!(options("", "").uniqueness(), Ok(UniquenessMode::NotUnique));
}

#[test]
fn uniqueness_with_a_deployer_uses_the_universal_deployer_as_registry() {
    let mut session = options("", "");
    session.not_unique = false;
    session.deployer_address = Some(Felt::from_u64(99));
    assert_eq!(
        session.uniqueness(),
        Ok(UniquenessMode::Unique {
            deployer_address: Felt::from_u64(99),
            registry_address: udc_address(),
        })
    );
}

#[test]
fn miners_are_one_per_job() {
    let mut session = options("0101", "11");
    session.jobs = 5;
    session.ctor_args = vec![Felt::from_u64(3)];
    let offset = Felt::from_u64(1_000_000);
    let signal = CancellationSignal::new();
    let miners = session.miners(&offset, &signal).unwrap();
    let starts = start_nonces(5, &offset);
    assert_eq!(miners.len(), 5);
    for (job, miner) in miners.iter().enumerate() {
        assert_eq!(miner.start_nonce, starts[job]);
        assert_eq!(miner.class_hash, session.class_hash);
        assert_eq!(miner.ctor_hash, hash_on_elements(&session.ctor_args));
        assert_eq!(miner.uniqueness, UniquenessMode::NotUnique);
        assert_eq!(miner.mask.prefix_length(), 4);
        assert_eq!(miner.mask.suffix_length(), 2);
    }
}

#[test]
fn miners_share_the_cancellation_signal() {
    let mut session = options("", "");
    session.jobs = 2;
    let signal = CancellationSignal::new();
    let miners = session.miners(&Felt::zero(), &signal).unwrap();
    assert!(matches!(miners[0].mine(miners[0].start(), 1), MinerState::Found(_)));
    assert!(signal.is_cancelled());
    assert_eq!(miners[1].mine(miners[1].start(), 1), MinerState::Cancelled);
}

#[test]
fn miners_report_the_fault_of_the_options() {
    let signal = CancellationSignal::new();
    let session = options("1111", "");
    assert_eq!(
        session.miners(&Felt::zero(), &signal).err(),
        Some(MineError::InfeasiblePattern)
    );
}

#[test]
fn error_messages() {
    assert_eq!(MineError::InvalidBitCharacter.message(), "invalid bit");
    assert_eq!(MineError::PatternTooLong.message(), "invalid prefix or suffix length");
    assert_eq!(
        MineError::InfeasiblePattern.message(),
        "prefix/suffix out of range and impossible to mine"
    );
    assert_eq!(MineError::WorkerCancelled.message(), "job cancelled");
}
