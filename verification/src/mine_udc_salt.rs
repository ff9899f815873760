//! A mining session: its options, the checks on them, the workers it is cut
//! into, and a run of them one after the other.

use crate::address::default_udc_address;
use crate::address::deployed_address;
use crate::address::udc_address;
use crate::address::ModeView;
use crate::address::UniquenessMode;
use crate::cancel::CancellationSignal;
use crate::error::MineError;
use crate::field::Felt;
use crate::hash::compute_hash_on_elements;
use crate::hash::hash_on_elements_value;
use crate::hash::pedersen_value;
use crate::hash::values_of;
use crate::miner::MineResult;
use crate::miner::Miner;
use crate::miner::MinerState;
use crate::pattern::pattern_fault;
use crate::pattern::pattern_mask;
use crate::pattern::BitMask;
use crate::pattern::MaskView;
use crate::scheduler::random_nonce_offset;
use crate::scheduler::start_nonce;
use crate::scheduler::start_nonce_value;
use vstd::prelude::*;
use vstd::utf8::encode_utf8;

verus! {

/// The options of a mining session.
#[derive(Clone, Debug)]
pub struct MineUdcSalt {
    /// The bits that the address has to start with, most significant first,
    /// as a text of `0` and `1`.
    pub prefix: String,
    /// The bits that the address has to end with, as a text of `0` and `1`.
    pub suffix: String,
    /// The address is not to depend on the deployer.
    pub not_unique: bool,
    /// The deployer: given if and only if the address depends on it.
    pub deployer_address: Option<Felt>,
    /// The number of workers.
    pub jobs: u32,
    /// The hash of the class to deploy.
    pub class_hash: Felt,
    /// The arguments of the constructor.
    pub ctor_args: Vec<Felt>,
}

/// The uniqueness mode that the two options give, or `None` where they
/// disagree: a deployer is given exactly when the address depends on it.
pub open spec fn uniqueness_of(not_unique: bool, deployer_address: Option<Felt>) -> Option<
    ModeView,
> {
    match (not_unique, deployer_address) {
        (true, None) => Some(ModeView::NotUnique),
        (false, Some(deployer)) => Some(
            ModeView::Unique {
                deployer_address: deployer@,
                registry_address: default_udc_address(),
            },
        ),
        _ => None,
    }
}

impl MineUdcSalt {
    /// The text of the prefix pattern, as bytes.
    pub open spec fn prefix_text(self) -> Seq<u8> {
        encode_utf8(self.prefix@)
    }

    /// The text of the suffix pattern, as bytes.
    pub open spec fn suffix_text(self) -> Seq<u8> {
        encode_utf8(self.suffix@)
    }

    /// What is wrong with the options, if anything: first the uniqueness
    /// options, then the patterns.
    pub open spec fn fault(self) -> Option<MineError> {
        if uniqueness_of(self.not_unique, self.deployer_address) is None {
            Some(MineError::InvalidUniquenessOptions)
        } else {
            pattern_fault(self.prefix_text(), self.suffix_text())
        }
    }

    /// The mask of the session.
    pub open spec fn mask(self) -> MaskView {
        pattern_mask(self.prefix_text(), self.suffix_text())
    }

    /// The hash of the constructor's arguments.
    pub open spec fn ctor_hash(self) -> nat {
        hash_on_elements_value(values_of(self.ctor_args@))
    }

    /// The address that a deployment with `nonce` gets in this session.
    pub open spec fn address_of(self, nonce: nat) -> nat
        recommends
            self.fault() is None,
    {
        deployed_address(
            nonce,
            self.class_hash@,
            self.ctor_hash(),
            uniqueness_of(self.not_unique, self.deployer_address)->Some_0,
        )
    }

    /// The result holds a nonce with its address, and the address matches
    /// the session's mask.
    pub open spec fn solved_by(self, found: MineResult) -> bool {
        &&& found.deployed_address@ == self.address_of(found.nonce@)
        &&& self.mask().matches(found.deployed_address@)
    }

    /// `miner` is worker `job` of this session, for the given offset.
    pub open spec fn is_worker(self, miner: Miner, job: nat, offset: nat) -> bool {
        &&& Some(miner.uniqueness@) == uniqueness_of(self.not_unique, self.deployer_address)
        &&& miner.class_hash@ == self.class_hash@
        &&& miner.ctor_hash@ == self.ctor_hash()
        &&& miner.mask@ == self.mask()
        &&& miner.start_nonce@ == start_nonce_value(self.jobs as nat, job, offset)
    }

    /// Decides the uniqueness mode from the two options that speak of it.
    pub fn uniqueness(&self) -> (r: Result<UniquenessMode, MineError>)
        ensures
            match r {
                Ok(mode) => Some(mode@) == uniqueness_of(self.not_unique, self.deployer_address),
                Err(e) => e == MineError::InvalidUniquenessOptions && uniqueness_of(
                    self.not_unique,
                    self.deployer_address,
                ) is None,
            },
    {
        match (self.not_unique, self.deployer_address) {
            (true, None) => Ok(UniquenessMode::NotUnique),
            (false, Some(deployer_address)) => {
                let registry_address = udc_address();
                Ok(UniquenessMode::Unique { deployer_address, registry_address })
            },
            _ => Err(MineError::InvalidUniquenessOptions),
        }
    }

    /// Checks the options and cuts the session into its workers: one per
    /// job, in the order of the jobs, each with its own starting nonce and
    /// all with the same cancellation signal.
    pub fn miners(&self, offset: &Felt, cancellation: &CancellationSignal) -> (r: Result<
        Vec<Miner>,
        MineError,
    >)
        ensures
            match r {
                Ok(miners) => {
                    &&& self.fault() is None
                    &&& miners@.len() == self.jobs
                    &&& forall|i: int|
                        0 <= i < self.jobs ==> self.is_worker(
                            #[trigger] miners@[i],
                            i as nat,
                            offset@,
                        )
                },
                Err(e) => self.fault() == Some(e),
            },
    {
        let uniqueness = match self.uniqueness() {
            Ok(mode) => mode,
            Err(e) => {
                return Err(e);
            },
        };
        let mask = match BitMask::from_patterns(self.prefix.as_str(), self.suffix.as_str()) {
            Ok(mask) => mask,
            Err(e) => {
                return Err(e);
            },
        };
        let ctor_hash = compute_hash_on_elements(self.ctor_args.as_slice());
        let mut miners: Vec<Miner> = Vec::new();
        let mut job_id: u32 = 0;
        while job_id < self.jobs
            invariant
                job_id <= self.jobs,
                miners@.len() == job_id,
                Some(uniqueness@) == uniqueness_of(self.not_unique, self.deployer_address),
                ctor_hash@ == self.ctor_hash(),
                mask@ == self.mask(),
                forall|i: int|
                    0 <= i < job_id ==> self.is_worker(#[trigger] miners@[i], i as nat, offset@),
            decreases self.jobs - job_id,
        {
            miners.push(
                Miner {
                    uniqueness,
                    class_hash: self.class_hash,
                    ctor_hash,
                    mask,
                    start_nonce: start_nonce(self.jobs, job_id, offset),
                    cancellation: cancellation.clone(),
                },
            );
            job_id += 1;
        }
        Ok(miners)
    }

    /// Runs a session on one thread: checks the options, draws the random
    /// offset, and lets the workers search one after the other, each for at
    /// most `max_attempts` nonces, until one of them finds a match.
    ///
    /// Options that are at fault give their error before any search. What is
    /// found solves the session; `None` says that no worker found a match
    /// within its attempts.
    pub fn run(&self, max_attempts: u64) -> (r: Result<Option<MineResult>, MineError>)
        requires
            self.jobs >= 1,
        ensures
            match r {
                Ok(found) => {
                    &&& self.fault() is None
                    &&& found matches Some(result) ==> self.solved_by(result)
                },
                Err(e) => self.fault() == Some(e),
            },
    {
        let cancellation = CancellationSignal::new();
        let offset = random_nonce_offset();
        let miners = match self.miners(&offset, &cancellation) {
            Ok(miners) => miners,
            Err(e) => {
                return Err(e);
            },
        };
        let mut i: usize = 0;
        while i < miners.len()
            invariant
                self.fault() is None,
                miners@.len() == self.jobs,
                forall|i: int|
                    0 <= i < self.jobs ==> self.is_worker(#[trigger] miners@[i], i as nat, offset@),
            decreases miners.len() - i,
        {
            let miner = &miners[i];
            assert(self.is_worker(miners@[i as int], i as nat, offset@));
            match miner.mine(miner.start(), max_attempts) {
                MinerState::Found(found) => {
                    return Ok(Some(found));
                },
                _ => {},
            }
            i += 1;
        }
        Ok(None)
    }
}

/// Uniqueness mode selection: without uniqueness the nonce itself is the
/// salt and the deployer is zero; with it the salt is the Pedersen hash of
/// the deployer and the nonce, and the Universal Deployer Contract stands as
/// deployer. Options that disagree give no mode.
pub proof fn lemma_uniqueness_selection(deployer: Felt, nonce: nat)
    ensures
        uniqueness_of(true, None) matches Some(mode) && mode.effective_deployer() == 0
            && mode.effective_salt(nonce) == nonce,
        uniqueness_of(false, Some(deployer)) matches Some(mode) && mode.effective_deployer()
            == default_udc_address() && mode.effective_salt(nonce) == pedersen_value(
            deployer@,
            nonce,
        ),
        uniqueness_of(true, Some(deployer)) is None,
        uniqueness_of(false, None) is None,
{
}

} // verus!
