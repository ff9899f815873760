//! The search of one worker: try nonce after nonce until the address of one
//! matches the mask, or until the session is cancelled.

use crate::address::deployed_address;
use crate::address::UniquenessMode;
use crate::cancel::CancellationSignal;
use crate::error::MineError;
use crate::field::field_add;
use crate::field::field_prime;
use crate::field::Felt;
use crate::pattern::BitMask;
use vstd::prelude::*;

verus! {

/// A nonce and the address that a deployment with it gets.
#[derive(Clone, Copy, Debug, PartialEq, Eq)]
pub struct MineResult {
    /// The nonce, which is the salt to deploy with.
    pub nonce: Felt,
    /// The address of the deployment.
    pub deployed_address: Felt,
}

/// Where a worker stands.
#[derive(Clone, Copy, Debug, PartialEq, Eq)]
pub enum MinerState {
    /// The worker searches on; the nonce is the next one to try.
    Searching(Felt),
    /// The worker found a nonce whose address matches.
    Found(MineResult),
    /// The worker saw the cancellation signal before it found a match.
    Cancelled,
}

impl MinerState {
    /// What a worker that has stopped reports: its result, or that it was
    /// cancelled. A worker that searches on has nothing to report yet.
    pub fn outcome(&self) -> (r: Option<Result<MineResult, MineError>>)
        ensures
            r == match *self {
                MinerState::Searching(_) => None::<Result<MineResult, MineError>>,
                MinerState::Found(found) => Some(Ok(found)),
                MinerState::Cancelled => Some(Err(MineError::WorkerCancelled)),
            },
    {
        match self {
            MinerState::Searching(_) => None,
            MinerState::Found(found) => Some(Ok(*found)),
            MinerState::Cancelled => Some(Err(MineError::WorkerCancelled)),
        }
    }
}

/// One worker of a session: what it searches for, and where it starts.
#[derive(Clone, Debug)]
pub struct Miner {
    /// How the deployer enters the address.
    pub uniqueness: UniquenessMode,
    /// The hash of the class to deploy.
    pub class_hash: Felt,
    /// The hash of the constructor's arguments.
    pub ctor_hash: Felt,
    /// The pattern that the address has to match.
    pub mask: BitMask,
    /// The first nonce that the worker tries.
    pub start_nonce: Felt,
    /// The signal that the worker shares with the others of its session.
    pub cancellation: CancellationSignal,
}

/// The `k`-th nonce of a scan that starts at `from`.
pub open spec fn candidate(from: nat, k: nat) -> nat {
    (from + k) % field_prime()
}

impl Miner {
    /// The address that a deployment with `nonce` gets in this session.
    pub open spec fn address_of(self, nonce: nat) -> nat {
        deployed_address(nonce, self.class_hash@, self.ctor_hash@, self.uniqueness@)
    }

    /// The address of `nonce` matches the session's mask.
    pub open spec fn accepts(self, nonce: nat) -> bool {
        self.mask@.matches(self.address_of(nonce))
    }

    /// None of the first `k` nonces of a scan from `from` is accepted.
    pub open spec fn none_accepted(self, from: nat, k: nat) -> bool {
        forall|j: nat| j < k ==> !self.accepts(#[trigger] candidate(from, j))
    }

    /// The state in which the worker begins.
    pub fn start(&self) -> (r: MinerState)
        ensures
            r == MinerState::Searching(self.start_nonce),
    {
        MinerState::Searching(self.start_nonce)
    }

    /// Tries one nonce, given what the worker saw of the cancellation signal.
    ///
    /// A worker that saw the signal stops without a result. Otherwise the
    /// nonce is found if its address matches the mask, and the worker then
    /// sets the signal; if it does not match, the search goes on with the
    /// next nonce.
    pub fn step(&self, nonce: Felt, cancelled: bool) -> (r: MinerState)
        ensures
            cancelled ==> r == MinerState::Cancelled,
            !cancelled && self.accepts(nonce@) ==> (r matches MinerState::Found(found)
                && found.nonce == nonce && found.deployed_address@ == self.address_of(nonce@)),
            !cancelled && !self.accepts(nonce@) ==> (r matches MinerState::Searching(next)
                && next@ == candidate(nonce@, 1)),
    {
        if cancelled {
            return MinerState::Cancelled;
        }
        let deployed_address = crate::address::derive(
            &nonce,
            &self.class_hash,
            &self.ctor_hash,
            &self.uniqueness,
        );
        if self.mask.matches(&deployed_address) {
            self.cancellation.cancel();
            MinerState::Found(MineResult { nonce, deployed_address })
        } else {
            MinerState::Searching(field_add(&nonce, &Felt::one()))
        }
    }

    /// `found` is the first accepted nonce of a scan from `from`, is among
    /// its first `limit` nonces, and comes with its address.
    pub open spec fn first_accepted(self, from: nat, limit: nat, found: MineResult) -> bool {
        exists|k: nat|
            {
                &&& k < limit
                &&& self.none_accepted(from, k)
                &&& found.nonce@ == #[trigger] candidate(from, k)
                &&& self.accepts(found.nonce@)
                &&& found.deployed_address@ == self.address_of(found.nonce@)
            }
    }

    /// Searches on from `from` for at most `max_attempts` nonces, looking at
    /// the cancellation signal before each.
    ///
    /// A state that is not `Searching` is final and comes back as it is. A
    /// nonce that is found is the first accepted one of the scan, and comes
    /// with its address. Where the search is still on afterwards, all
    /// `max_attempts` nonces were tried and none was accepted.
    pub fn mine(&self, from: MinerState, max_attempts: u64) -> (r: MinerState)
        ensures
            match from {
                MinerState::Searching(first) => match r {
                    MinerState::Found(found) => self.first_accepted(
                        first@,
                        max_attempts as nat,
                        found,
                    ),
                    MinerState::Searching(next) => {
                        &&& next@ == candidate(first@, max_attempts as nat)
                        &&& self.none_accepted(first@, max_attempts as nat)
                    },
                    MinerState::Cancelled => true,
                },
                _ => r == from,
            },
    {
        let first = match from {
            MinerState::Searching(first) => first,
            _ => {
                return from;
            },
        };
        proof {
            use_type_invariant(first);
        }
        let mut nonce = first;
        let mut tried: u64 = 0;
        while tried < max_attempts
            invariant
                tried <= max_attempts,
                from == MinerState::Searching(first),
                nonce@ == candidate(first@, tried as nat),
                self.none_accepted(first@, tried as nat),
            decreases max_attempts - tried,
        {
            let cancelled = self.cancellation.is_cancelled();
            match self.step(nonce, cancelled) {
                MinerState::Searching(next) => {
                    proof {
                        lemma_candidate_next(first@, tried as nat);
                    }
                    nonce = next;
                    tried += 1;
                },
                MinerState::Found(found) => {
                    assert(found.nonce@ == candidate(first@, tried as nat));
                    return MinerState::Found(found);
                },
                MinerState::Cancelled => {
                    return MinerState::Cancelled;
                },
            }
        }
        MinerState::Searching(nonce)
    }
}

/// The nonce after the `k`-th of a scan is the `k + 1`-st.
pub proof fn lemma_candidate_next(from: nat, k: nat)
    ensures
        candidate(candidate(from, k), 1) == candidate(from, k + 1),
{
    vstd::arithmetic::div_mod::lemma_add_mod_noop(
        (from + k) as int,
        1,
        field_prime() as int,
    );
    vstd::arithmetic::div_mod::lemma_small_mod(1, field_prime());
}

} // verus!
