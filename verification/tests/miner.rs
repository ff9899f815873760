use rayon::iter::IntoParallelIterator;
use rayon::iter::ParallelIterator;
use starkli::address::udc_address;
use starkli::address::UniquenessMode;
use starkli::cancel::CancellationSignal;
use starkli::error::MineError;
use starkli::field::Felt;
use starkli::hash::hash_on_elements;
use starkli::miner::MineResult;
use starkli::miner::Miner;
use starkli::miner::MinerState;
use starkli::pattern::BitMask;

fn miner(prefix: &str, suffix: &str, start: u64) -> Miner {
    Miner {
        uniqueness: UniquenessMode::NotUnique,
        class_hash: Felt::one(),
        ctor_hash: hash_on_elements(&[]),
        mask: BitMask::from_patterns(prefix, suffix).unwrap(),
        start_nonce: Felt::from_u64(start),
        cancellation: CancellationSignal::new(),
    }
}

fn top_bits_are_zero(address: &Felt, count: usize) -> bool {
    let bits = address.to_bits_le();
    (0..count).all(|k| !bits[251 - k])
}

/// The first nonce from `start` on whose address has its four top bits unset.
fn first_with_four_zero_bits(miner: &Miner, start: u64) -> u64 {
    let mut nonce = start;
    loop {
        let address = starkli::address::derive(
            &Felt::from_u64(nonce),
            &miner.class_hash,
            &miner.ctor_hash,
            &miner.uniqueness,
        );
        if top_bits_are_zero(&address, 4) {
            return nonce;
        }
        nonce += 1;
    }
}

#[test]
fn start_is_searching_at_the_start_nonce() {
    let miner = miner("", "", 17);
    assert_eq!(miner.start(), MinerState::Searching(Felt::from_u64(17)));
}

#[test]
fn step_stops_when_cancelled() {
    let miner = miner("", "", 0);
    assert_eq!(miner.step(Felt::zero(), true), MinerState::Cancelled);
    assert!(!miner.cancellation.is_cancelled());
}

#[test]
fn step_finds_a_match_and_sets_the_signal() {
    let miner = miner("", "", 0);
    let nonce = Felt::from_u64(9);
    let address = starkli::address::derive(&nonce, &miner.class_hash, &miner.ctor_hash, &miner.uniqueness);
    assert_eq!(
        miner.step(nonce, false),
        MinerState::Found(MineResult { nonce, deployed_address: address })
    );
    assert!(miner.cancellation.is_cancelled());
}

#[test]
fn step_moves_on_to_the_next_nonce() {
    let miner = miner("0000", "", 0);
    let found = first_with_four_zero_bits(&miner, 0);
    let mut nonce = 0;
    while nonce < found {
        assert_eq!(
            miner.step(Felt::from_u64(nonce), false),
            MinerState::Searching(Felt::from_u64(nonce + 1))
        );
        nonce += 1;
    }
    assert!(!miner.cancellation.is_cancelled());
    assert!(matches!(miner.step(Felt::from_u64(found), false), MinerState::Found(_)));
}

#[test]
fn step_wraps_around_after_the_largest_element() {
    // No address has its top bit set, so the largest nonce cannot match.
    let miner = miner("1", "", 0);
    assert_eq!(miner.step(Felt::max(), false), MinerState::Searching(Felt::zero()));
}

#[test]
fn mine_returns_the_first_match() {
    let miner = miner("0000", "", 1000);
    let expected = first_with_four_zero_bits(&miner, 1000);
    match miner.mine(miner.start(), 10_000) {
        MinerState::Found(found) => {
            assert_eq!(found.nonce, Felt::from_u64(expected));
            assert_eq!(
                found.deployed_address,
                starkli::address::derive(&found.nonce, &miner.class_hash, &miner.ctor_hash, &miner.uniqueness)
            );
            assert!(top_bits_are_zero(&found.deployed_address, 4));
        }
        other => panic!("no match: {:?}", other),
    }
    assert!(miner.cancellation.is_cancelled());
}

#[test]
fn mine_result_matches_prefix_and_suffix() {
    let miner = miner("01", "10", 0);
    match miner.mine(miner.start(), 10_000) {
        MinerState::Found(found) => {
            let bits = found.deployed_address.to_bits_le();
            assert_eq!((bits[251], bits[250]), (false, true));
            assert_eq!((bits[1], bits[0]), (true, false));
            assert!(miner.mask.matches(&found.deployed_address));
        }
        other => panic!("no match: {:?}", other),
    }
}

#[test]
fn mine_in_unique_mode_matches_too() {
    let mut miner = miner("000", "", 0);
    miner.uniqueness = UniquenessMode::Unique {
        deployer_address: Felt::from_u64(0x1234),
        registry_address: udc_address(),
    };
    match miner.mine(miner.start(), 10_000) {
        MinerState::Found(found) => {
            assert_eq!(
                found.deployed_address,
                starkli::address::derive(&found.nonce, &miner.class_hash, &miner.ctor_hash, &miner.uniqueness)
            );
            assert!(top_bits_are_zero(&found.deployed_address, 3));
        }
        other => panic!("no match: {:?}", other),
    }
}

#[test]
fn mine_stops_after_its_attempts() {
    let miner = miner("1", "", 5);
    assert_eq!(miner.mine(miner.start(), 7), MinerState::Searching(Felt::from_u64(12)));
    assert_eq!(miner.mine(miner.start(), 0), MinerState::Searching(Felt::from_u64(5)));
    assert!(!miner.cancellation.is_cancelled());
}

#[test]
fn mine_resumes_where_it_stopped() {
    let miner = miner("0000", "", 0);
    let expected = first_with_four_zero_bits(&miner, 0);
    let mut state = miner.start();
    let mut rounds = 0;
    while let MinerState::Searching(_) = state {
        state = miner.mine(state, 1);
        rounds += 1;
    }
    assert_eq!(rounds, expected + 1);
    assert!(matches!(state, MinerState::Found(found) if found.nonce == Felt::from_u64(expected)));
}

#[test]
fn mine_gives_up_when_cancelled() {
    let miner = miner("0000", "", 0);
    miner.cancellation.cancel();
    assert_eq!(miner.mine(miner.start(), 10_000), MinerState::Cancelled);
}

#[test]
fn mine_leaves_a_final_state_as_it_is() {
    let miner = miner("", "", 0);
    assert_eq!(miner.mine(MinerState::Cancelled, 10), MinerState::Cancelled);
    let result = MineResult { nonce: Felt::one(), deployed_address: Felt::zero() };
    assert_eq!(miner.mine(MinerState::Found(result), 10), MinerState::Found(result));
    assert!(!miner.cancellation.is_cancelled());
}

#[test]
fn cancellation_is_shared_by_the_workers() {
    let first = miner("0000", "", 0);
    let mut second = miner("0000", "", 500);
    second.cancellation = first.cancellation.clone();
    assert!(matches!(first.mine(first.start(), 10_000), MinerState::Found(_)));
    assert_eq!(second.mine(second.start(), 10_000), MinerState::Cancelled);
}

#[test]
fn cancellation_idempotence() {
    let signal = CancellationSignal::new();
    assert!(!signal.is_cancelled());
    signal.cancel();
    assert!(signal.is_cancelled());
    let shared = signal.clone();
    shared.cancel();
    signal.cancel();
    assert!(signal.is_cancelled());
    assert!(shared.is_cancelled());
}

#[test]
fn outcome_of_each_state() {
    let result = MineResult { nonce: Felt::one(), deployed_address: Felt::from_u64(2) };
    assert_eq!(MinerState::Searching(Felt::zero()).outcome(), None);
    assert_eq!(MinerState::Found(result).outcome(), Some(Ok(result)));
    assert_eq!(MinerState::Cancelled.outcome(), Some(Err(MineError::WorkerCancelled)));
}

#[test]
fn cancellation_set_from_many_threads_stays_set() {
    let signal = CancellationSignal::new();
    (0..256).into_par_iter().for_each(|_| signal.cancel());
    assert!(signal.is_cancelled());
    let seen: Vec<bool> = (0..256).into_par_iter().map(|_| signal.is_cancelled()).collect();
    assert!(seen.iter().all(|cancelled| *cancelled));
}

#[test]
fn workers_that_see_the_signal_report_no_result() {
    let signal = CancellationSignal::new();
    signal.cancel();
    let outcomes: Vec<MinerState> = (0..16u64)
        .into_par_iter()
        .map(|job| {
            let mut worker = miner("", "", job);
            worker.cancellation = signal.clone();
            signal.cancel();
            worker.mine(worker.start(), 100)
        })
        .collect();
    assert!(outcomes.iter().all(|state| *state == MinerState::Cancelled));
}

#[test]
fn parallel_workers_yield_one_valid_result() {
    let signal = CancellationSignal::new();
    let outcomes: Vec<MinerState> = (0..8u64)
        .into_par_iter()
        .map(|job| {
            let mut worker = miner("0000", "", job * 1_000_000);
            worker.cancellation = signal.clone();
            let mut state = worker.start();
            while let MinerState::Searching(_) = state {
                state = worker.mine(state, 16);
            }
            state
        })
        .collect();
    assert!(signal.is_cancelled());
    let mut found = 0;
    for state in outcomes {
        if let MinerState::Found(result) = state {
            found += 1;
            assert!(top_bits_are_zero(&result.deployed_address, 4));
        }
    }
    assert!(found >= 1);
}
