use core::marker::PhantomData;
use frame_support::weights::constants::RocksDbWeight;
use vstd::prelude::*;

use crate::vk::Vk;

verus! {

/// `a + b`, clamped to `u64::MAX`.
pub open spec fn sat_add(a: u64, b: u64) -> u64 {
    if a + b > u64::MAX {
        u64::MAX
    } else {
        (a + b) as u64
    }
}

/// `a * b`, clamped to `u64::MAX`.
pub open spec fn sat_mul(a: u64, b: u64) -> u64 {
    if a * b > u64::MAX {
        u64::MAX
    } else {
        (a * b) as u64
    }
}

/// The cost of an operation: reference execution time and proof size, the two
/// components of a runtime weight.
#[derive(Clone, Copy, Debug, PartialEq, Eq, Structural)]
pub struct Weight {
    pub ref_time: u64,
    pub proof_size: u64,
}

impl Weight {
    /// The component-wise saturating sum of two weights.
    pub open spec fn spec_saturating_add(self, rhs: Weight) -> Weight {
        Weight {
            ref_time: sat_add(self.ref_time, rhs.ref_time),
            proof_size: sat_add(self.proof_size, rhs.proof_size),
        }
    }

    /// A weight with the given time and proof-size components.
    pub fn from_parts(ref_time: u64, proof_size: u64) -> (w: Weight)
        ensures
            w.ref_time == ref_time,
            w.proof_size == proof_size,
    {
        Weight { ref_time, proof_size }
    }

    /// The reference-time component.
    pub fn ref_time(&self) -> (r: u64)
        ensures
            r == self.ref_time,
    {
        self.ref_time
    }

    /// The proof-size component.
    pub fn proof_size(&self) -> (r: u64)
        ensures
            r == self.proof_size,
    {
        self.proof_size
    }

    /// Adds two weights component by component, saturating at `u64::MAX`.
    pub fn saturating_add(self, rhs: Weight) -> (w: Weight)
        ensures
            w == self.spec_saturating_add(rhs),
            self.ref_time + rhs.ref_time <= u64::MAX ==> w.ref_time == self.ref_time + rhs.ref_time,
            self.ref_time + rhs.ref_time > u64::MAX ==> w.ref_time == u64::MAX,
            self.proof_size + rhs.proof_size <= u64::MAX ==> w.proof_size == self.proof_size
                + rhs.proof_size,
            self.proof_size + rhs.proof_size > u64::MAX ==> w.proof_size == u64::MAX,
    {
        Weight {
            ref_time: self.ref_time.saturating_add(rhs.ref_time),
            proof_size: self.proof_size.saturating_add(rhs.proof_size),
        }
    }
}

/// Adding weights adds each component, time and proof size, separately: a
/// component of the result is the sum of the operands' components when that
/// sum fits in a `u64`, and `u64::MAX` exactly when it does not.
pub proof fn lemma_saturating_add_is_clamped_sum(a: Weight, b: Weight)
    ensures
        a.ref_time + b.ref_time <= u64::MAX ==> a.spec_saturating_add(b).ref_time == a.ref_time
            + b.ref_time,
        a.ref_time + b.ref_time > u64::MAX ==> a.spec_saturating_add(b).ref_time == u64::MAX,
        a.proof_size + b.proof_size <= u64::MAX ==> a.spec_saturating_add(b).proof_size
            == a.proof_size + b.proof_size,
        a.proof_size + b.proof_size > u64::MAX ==> a.spec_saturating_add(b).proof_size
            == u64::MAX,
        a.spec_saturating_add(b).ref_time == u64::MAX ==> a.ref_time + b.ref_time >= u64::MAX,
        a.spec_saturating_add(b).proof_size == u64::MAX ==> a.proof_size + b.proof_size
            >= u64::MAX,
{
}

/// Adding weights does not depend on the order of the operands.
pub proof fn lemma_saturating_add_commutes(a: Weight, b: Weight)
    ensures
        a.spec_saturating_add(b) == b.spec_saturating_add(a),
{
}

/// Adding weights does not depend on how the additions are grouped.
pub proof fn lemma_saturating_add_associates(a: Weight, b: Weight, c: Weight)
    ensures
        a.spec_saturating_add(b).spec_saturating_add(c) == a.spec_saturating_add(
            b.spec_saturating_add(c),
        ),
{
}

/// Adding a weight never lowers either component.
pub proof fn lemma_saturating_add_grows(a: Weight, b: Weight)
    ensures
        a.spec_saturating_add(b).ref_time >= a.ref_time,
        a.spec_saturating_add(b).proof_size >= a.proof_size,
{
}

/// The weight of `r` storage reads on the default (RocksDB) database.
pub open spec fn spec_db_reads(r: u64) -> Weight {
    Weight { ref_time: sat_mul(25_000_000, r), proof_size: 0 }
}

/// The weight of `w` storage writes on the default (RocksDB) database.
pub open spec fn spec_db_writes(w: u64) -> Weight {
    Weight { ref_time: sat_mul(100_000_000, w), proof_size: 0 }
}

/// `RocksDbWeight::get().reads(r)` of frame-support, converted component by
/// component. The source sets `read` to `25_000 * WEIGHT_REF_TIME_PER_NANOS`
/// (`1_000`) and `reads` returns `Weight::from_parts(read.saturating_mul(r), 0)`.
#[verifier::external_body]
fn db_reads(r: u64) -> (w: Weight)
    ensures
        w == spec_db_reads(r),
{
    let w = RocksDbWeight::get().reads(r);
    Weight { ref_time: w.ref_time(), proof_size: w.proof_size() }
}

/// `RocksDbWeight::get().writes(w)` of frame-support, converted component by
/// component. The source sets `write` to `100_000 * WEIGHT_REF_TIME_PER_NANOS`
/// (`1_000`) and `writes` returns `Weight::from_parts(write.saturating_mul(w), 0)`.
#[verifier::external_body]
fn db_writes(n: u64) -> (w: Weight)
    ensures
        w == spec_db_writes(n),
{
    let w = RocksDbWeight::get().writes(n);
    Weight { ref_time: w.ref_time(), proof_size: w.proof_size() }
}

/// The weights of the verifier's extrinsics, for a runtime to supply.
pub trait WeightInfo {
    spec fn spec_verify_proof() -> Weight;

    spec fn spec_get_vk() -> Weight;

    spec fn spec_validate_vk() -> Weight;

    spec fn spec_compute_statement_hash() -> Weight;

    spec fn spec_register_vk() -> Weight;

    spec fn spec_unregister_vk() -> Weight;

    fn verify_proof() -> (w: Weight)
        ensures
            w == Self::spec_verify_proof(),
    ;

    fn get_vk() -> (w: Weight)
        ensures
            w == Self::spec_get_vk(),
    ;

    fn validate_vk() -> (w: Weight)
        ensures
            w == Self::spec_validate_vk(),
    ;

    fn compute_statement_hash() -> (w: Weight)
        ensures
            w == Self::spec_compute_statement_hash(),
    ;

    fn register_vk() -> (w: Weight)
        ensures
            w == Self::spec_register_vk(),
    ;

    fn unregister_vk() -> (w: Weight)
        ensures
            w == Self::spec_unregister_vk(),
    ;
}

/// Placeholder weights, to be replaced by benchmarked ones.
impl WeightInfo for () {
    open spec fn spec_verify_proof() -> Weight {
        Weight { ref_time: 2_500_000_000, proof_size: 0 }
    }

    open spec fn spec_get_vk() -> Weight {
        Weight { ref_time: 5_500_000, proof_size: 5137 }.spec_saturating_add(spec_db_reads(1))
    }

    open spec fn spec_validate_vk() -> Weight {
        Weight { ref_time: 35_000_000, proof_size: 0 }
    }

    open spec fn spec_compute_statement_hash() -> Weight {
        Weight { ref_time: 8_500_000, proof_size: 0 }
    }

    open spec fn spec_register_vk() -> Weight {
        Weight { ref_time: 90_000_000, proof_size: 5137 }.spec_saturating_add(
            spec_db_reads(4),
        ).spec_saturating_add(spec_db_writes(3))
    }

    open spec fn spec_unregister_vk() -> Weight {
        Weight { ref_time: 50_000_000, proof_size: 5137 }.spec_saturating_add(
            spec_db_reads(3),
        ).spec_saturating_add(spec_db_writes(3))
    }

    fn verify_proof() -> (w: Weight) {
        Weight::from_parts(2_500_000_000, 0)
    }

    fn get_vk() -> (w: Weight) {
        Weight::from_parts(5_500_000, 5137).saturating_add(db_reads(1))
    }

    fn validate_vk() -> (w: Weight) {
        Weight::from_parts(35_000_000, 0)
    }

    fn compute_statement_hash() -> (w: Weight) {
        Weight::from_parts(8_500_000, 0)
    }

    fn register_vk() -> (w: Weight) {
        Weight::from_parts(90_000_000, 5137).saturating_add(db_reads(4)).saturating_add(
            db_writes(3),
        )
    }

    fn unregister_vk() -> (w: Weight) {
        Weight::from_parts(50_000_000, 5137).saturating_add(db_reads(3)).saturating_add(
            db_writes(3),
        )
    }
}

/// The weights the verifier charges for each of its operations, taken from
/// the runtime's `WeightInfo`; what an operation costs does not depend on its
/// arguments.
pub struct Halo2Weight<W: WeightInfo>(PhantomData<W>);

impl<W: WeightInfo> Halo2Weight<W> {
    pub fn verify_proof(_proof: &Vec<u8>, _pubs: &Vec<u8>) -> (w: Weight)
        ensures
            w == W::spec_verify_proof(),
    {
        W::verify_proof()
    }

    pub fn register_vk(_vk: &Vk) -> (w: Weight)
        ensures
            w == W::spec_register_vk(),
    {
        W::register_vk()
    }

    pub fn unregister_vk() -> (w: Weight)
        ensures
            w == W::spec_unregister_vk(),
    {
        W::unregister_vk()
    }

    pub fn get_vk() -> (w: Weight)
        ensures
            w == W::spec_get_vk(),
    {
        W::get_vk()
    }

    pub fn validate_vk(_vk: &Vk) -> (w: Weight)
        ensures
            w == W::spec_validate_vk(),
    {
        W::validate_vk()
    }

    pub fn compute_statement_hash(_proof: &Vec<u8>, _pubs: &Vec<u8>) -> (w: Weight)
        ensures
            w == W::spec_compute_statement_hash(),
    {
        W::compute_statement_hash()
    }
}

} // verus!
