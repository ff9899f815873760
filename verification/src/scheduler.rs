//! The partition of the nonce space among the workers of a session.
//!
//! With `J` workers the space is cut into `J` ranges of `floor(MAX / J)`
//! nonces each, where `MAX` is the largest field element. One random offset,
//! drawn once per session, shifts all of them alike, so that two sessions
//! do not search the same nonces while the workers of one session stay apart.

use crate::field::be_value;
use crate::field::field_add;
use crate::field::field_floor_div;
use crate::field::field_mul;
use crate::field::field_prime;
use crate::field::Felt;
use crate::miner::candidate;
use vstd::prelude::*;

verus! {

/// The number of nonces in the range of each of `jobs` workers.
pub open spec fn range_length(jobs: nat) -> nat {
    ((field_prime() - 1) / (jobs as int)) as nat
}

/// The nonce at which worker `job` of `jobs` starts.
pub open spec fn start_nonce_value(jobs: nat, job: nat, offset: nat) -> nat {
    (range_length(jobs) * job + offset) % field_prime()
}

/// Computes the nonce at which worker `job_id` of `jobs` starts.
pub fn start_nonce(jobs: u32, job_id: u32, offset: &Felt) -> (r: Felt)
    requires
        jobs >= 1,
    ensures
        r@ == start_nonce_value(jobs as nat, job_id as nat, offset@),
{
    let length = field_floor_div(&Felt::max(), &Felt::from_u32(jobs));
    let base = field_mul(&length, &Felt::from_u32(job_id));
    proof {
        use_type_invariant(offset);
        let p = field_prime() as int;
        let x = (length@ * job_id) as int;
        vstd::arithmetic::div_mod::lemma_add_mod_noop(x, offset@ as int, p);
        vstd::arithmetic::div_mod::lemma_small_mod(offset@, field_prime());
    }
    field_add(&base, offset)
}

/// Computes the starting nonces of all `jobs` workers, in the order of the
/// workers.
pub fn start_nonces(jobs: u32, offset: &Felt) -> (r: Vec<Felt>)
    ensures
        r@.len() == jobs,
        forall|i: int|
            0 <= i < jobs ==> (#[trigger] r@[i])@ == start_nonce_value(
                jobs as nat,
                i as nat,
                offset@,
            ),
{
    let mut nonces: Vec<Felt> = Vec::new();
    let mut job_id: u32 = 0;
    while job_id < jobs
        invariant
            job_id <= jobs,
            nonces@.len() == job_id,
            forall|i: int|
                0 <= i < job_id ==> (#[trigger] nonces@[i])@ == start_nonce_value(
                    jobs as nat,
                    i as nat,
                    offset@,
                ),
        decreases jobs - job_id,
    {
        nonces.push(start_nonce(jobs, job_id, offset));
        job_id += 1;
    }
    nonces
}

/// The offset that 31 random bytes give: the number they spell out, which
/// lies below `2^248` and so below the modulus, whatever the bytes are.
pub fn nonce_offset(entropy: &[u8; 31]) -> (r: Felt)
    ensures
        r@ == be_value(entropy@),
        r@ < 0x100000000000000000000000000000000000000000000000000000000000000nat,
{
    Felt::from_bytes_31(entropy)
}

/// Draws the offset of a session from the system's entropy.
pub fn random_nonce_offset() -> (r: Felt)
    ensures
        r@ < 0x100000000000000000000000000000000000000000000000000000000000000nat,
{
    let entropy = random_bytes();
    nonce_offset(&entropy)
}

/// Seeds a `rand::rngs::StdRng` from the system's entropy and calls its
/// `fill_bytes` on 31 bytes.
///
/// Trusted: nothing is promised of the bytes.
#[verifier::external_body]
fn random_bytes() -> (r: [u8; 31]) {
    let mut bytes = [0u8; 31];
    let mut rng = <rand::rngs::StdRng as rand::SeedableRng>::from_entropy();
    rand::RngCore::fill_bytes(&mut rng, &mut bytes);
    bytes
}

/// The ranges of the workers lie side by side below the modulus.
proof fn lemma_ranges_fit(jobs: nat, job: nat, k: nat)
    requires
        1 <= jobs,
        job < jobs,
        k < range_length(jobs),
    ensures
        range_length(jobs) * job + k < field_prime(),
{
    let top = (field_prime() - 1) as int;
    let len = range_length(jobs) as int;
    let j = jobs as int;
    vstd::arithmetic::div_mod::lemma_fundamental_div_mod(top, j);
    vstd::arithmetic::div_mod::lemma_mod_bound(top, j);
    assert(len * j <= top) by (nonlinear_arith)
        requires
            top == j * len + top % j,
            0 <= top % j,
    ;
    assert(len * job + k < len * j) by (nonlinear_arith)
        requires
            0 <= job < j,
            0 <= k < len,
    ;
}

/// A nonce of one worker's range is told apart from a nonce of another's by
/// its position below the modulus.
proof fn lemma_position_unique(len: int, i: int, a: int, j: int, b: int)
    requires
        0 <= a < len,
        0 <= b < len,
        0 <= i,
        0 <= j,
        len * i + a == len * j + b,
    ensures
        i == j,
{
    if i < j {
        assert(len * j >= len * i + len) by (nonlinear_arith)
            requires
                i + 1 <= j,
                0 <= len,
        ;
    } else if j < i {
        assert(len * i >= len * j + len) by (nonlinear_arith)
            requires
                j + 1 <= i,
                0 <= len,
        ;
    }
}

/// The `k`-th nonce that worker `job` tries, counted from its start.
pub open spec fn scanned(jobs: nat, job: nat, offset: nat, k: nat) -> nat {
    candidate(start_nonce_value(jobs, job, offset), k)
}

/// Partition disjointness: within their ranges, two different workers never
/// try the same nonce.
pub proof fn lemma_ranges_disjoint(jobs: nat, offset: nat, i: nat, a: nat, j: nat, b: nat)
    requires
        1 <= jobs,
        offset < field_prime(),
        i < jobs,
        j < jobs,
        i != j,
        a < range_length(jobs),
        b < range_length(jobs),
    ensures
        scanned(jobs, i, offset, a) != scanned(jobs, j, offset, b),
{
    let p = field_prime() as int;
    let len = range_length(jobs) as int;
    let x = len * i + a;
    let y = len * j + b;
    lemma_ranges_fit(jobs, i, a);
    lemma_ranges_fit(jobs, j, b);
    vstd::arithmetic::div_mod::lemma_add_mod_noop(len * i + offset, a as int, p);
    vstd::arithmetic::div_mod::lemma_add_mod_noop(len * j + offset, b as int, p);
    vstd::arithmetic::div_mod::lemma_small_mod(a, field_prime());
    vstd::arithmetic::div_mod::lemma_small_mod(b, field_prime());
    assert(scanned(jobs, i, offset, a) == (x + offset) % p);
    assert(scanned(jobs, j, offset, b) == (y + offset) % p);
    if (x + offset) % p == (y + offset) % p {
        vstd::arithmetic::div_mod::lemma_fundamental_div_mod(x + offset, p);
        vstd::arithmetic::div_mod::lemma_fundamental_div_mod(y + offset, p);
        let qx = (x + offset) / p;
        let qy = (y + offset) / p;
        assert(x - y == p * (qx - qy)) by (nonlinear_arith)
            requires
                x + offset == p * qx + (x + offset) % p,
                y + offset == p * qy + (y + offset) % p,
                (x + offset) % p == (y + offset) % p,
        ;
        assert(qx == qy) by (nonlinear_arith)
            requires
                x - y == p * (qx - qy),
                -p < x - y < p,
                p > 0,
        ;
        lemma_position_unique(len, i as int, a as int, j as int, b as int);
    }
}

/// Partition disjointness: the starting nonces of two different workers
/// differ, however many workers there are.
pub proof fn lemma_start_nonces_distinct(jobs: u32, offset: nat, i: u32, j: u32)
    requires
        offset < field_prime(),
        i < jobs,
        j < jobs,
        i != j,
    ensures
        start_nonce_value(jobs as nat, i as nat, offset) != start_nonce_value(
            jobs as nat,
            j as nat,
            offset,
        ),
{
    let p = field_prime() as int;
    let length = range_length(jobs as nat) as int;
    vstd::arithmetic::div_mod::lemma_div_non_zero(p - 1, jobs as int);
    lemma_ranges_disjoint(jobs as nat, offset, i as nat, 0, j as nat, 0);
    vstd::arithmetic::div_mod::lemma_mod_twice(length * i + offset, p);
    vstd::arithmetic::div_mod::lemma_mod_twice(length * j + offset, p);
}

/// The starting nonces are spaced by the length of a range: each worker
/// starts where a scan of the one before it gets after that many nonces.
pub proof fn lemma_start_nonces_spaced(jobs: nat, offset: nat, job: nat)
    requires
        1 <= jobs,
    ensures
        start_nonce_value(jobs, job + 1, offset) == scanned(
            jobs,
            job,
            offset,
            range_length(jobs),
        ),
{
    let p = field_prime() as int;
    let len = range_length(jobs) as int;
    vstd::arithmetic::div_mod::lemma_add_mod_noop(len * job + offset, len, p);
    vstd::arithmetic::div_mod::lemma_mod_twice(len * job + offset, p);
    vstd::arithmetic::div_mod::lemma_add_mod_noop((len * job + offset) % p, len, p);
    assert(len * (job + 1) + offset == len * job + offset + len) by (nonlinear_arith);
}

} // verus!
