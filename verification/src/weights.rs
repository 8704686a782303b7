//! Weight arithmetic: the database access costs of a runtime and the
//! benchmarked weight functions of the vesting pallet.

use vstd::prelude::*;

verus! {

/// Numeric range of a transaction weight.
pub type Weight = u64;

/// `x` cut off at the largest weight.
pub open spec fn clamp(x: int) -> Weight {
    if x > u64::MAX {
        u64::MAX
    } else if x < 0 {
        0
    } else {
        x as u64
    }
}

/// Addition that saturates at the largest weight.
pub open spec fn sat_add(a: Weight, b: Weight) -> Weight {
    clamp(a + b)
}

/// Multiplication that saturates at the largest weight.
pub open spec fn sat_mul(a: Weight, b: Weight) -> Weight {
    clamp(a * b)
}

/// `a * b`, or the largest weight where the product does not fit.
pub fn saturating_mul(a: Weight, b: Weight) -> (r: Weight)
    ensures
        r == sat_mul(a, b),
{
    match a.checked_mul(b) {
        Some(p) => p,
        None => u64::MAX,
    }
}

/// The weight of database reads and writes of a runtime.
#[derive(Clone, Copy, Debug, PartialEq, Eq)]
pub struct RuntimeDbWeight {
    pub read: Weight,
    pub write: Weight,
}

impl RuntimeDbWeight {
    /// Weight of `r` reads.
    pub fn reads(self, r: Weight) -> (w: Weight)
        ensures
            w == sat_mul(self.read, r),
    {
        saturating_mul(self.read, r)
    }

    /// Weight of `w` writes.
    pub fn writes(self, w: Weight) -> (res: Weight)
        ensures
            res == sat_mul(self.write, w),
    {
        saturating_mul(self.write, w)
    }
}


/// The weight of a benchmarked extrinsic: `base`, plus `per_l` for each of the
/// `l` locks and `per_s` for each of the `s` schedules it handles, plus the
/// weight of `reads` database reads and `writes` database writes, cut off at the
/// largest weight.
pub open spec fn benchmarked_weight(
    base: Weight,
    per_l: Weight,
    per_s: Weight,
    reads: Weight,
    writes: Weight,
    db: RuntimeDbWeight,
    l: u32,
    s: u32,
) -> Weight {
    clamp(base + per_l * l + per_s * s + sat_mul(db.read, reads) + sat_mul(db.write, writes))
}

/// Saturating addition of two clamped sums is the clamped total.
proof fn lemma_sat_add_of_clamped(x: int, y: int)
    requires
        x >= 0,
        y >= 0,
    ensures
        sat_add(clamp(x), clamp(y)) == clamp(x + y),
{
}

/// Weights in the vesting pallet are linear in `l` and `s` with coefficients of
/// at most `1_000_000`, so these products never saturate.
proof fn lemma_small_product(c: Weight, n: u32)
    requires
        c <= 1_000_000,
    ensures
        c * n <= u64::MAX,
        sat_mul(c, n as u64) == c * n,
{
    assert(c * n <= 1_000_000 * 0xffff_ffffint) by (nonlinear_arith)
        requires
            c <= 1_000_000,
            n <= 0xffff_ffffint,
            0 <= c,
            0 <= n,
    ;
}

/// Computes `benchmarked_weight` in the order the benchmark output adds its
/// terms, saturating after each step.
fn weight_of(
    base: Weight,
    per_l: Weight,
    per_s: Weight,
    reads: Weight,
    writes: Weight,
    db: RuntimeDbWeight,
    l: u32,
    s: u32,
) -> (w: Weight)
    requires
        per_l <= 1_000_000,
        per_s <= 1_000_000,
    ensures
        w == benchmarked_weight(base, per_l, per_s, reads, writes, db, l, s),
{
    let w1 = base.saturating_add(saturating_mul(per_l, l as Weight));
    let w2 = w1.saturating_add(saturating_mul(per_s, s as Weight));
    let w3 = w2.saturating_add(db.reads(reads));
    let w4 = w3.saturating_add(db.writes(writes));
    proof {
        lemma_small_product(per_l, l);
        lemma_small_product(per_s, s);
        let a = base + per_l * l;
        let b = a + per_s * s;
        let c = b + sat_mul(db.read, reads);
        let d = c + sat_mul(db.write, writes);
        lemma_sat_add_of_clamped(base as int, per_l * l);
        assert(w1 == clamp(a));
        lemma_sat_add_of_clamped(a, per_s * s);
        assert(w2 == clamp(b));
        lemma_sat_add_of_clamped(b, sat_mul(db.read, reads) as int);
        assert(w3 == clamp(c));
        lemma_sat_add_of_clamped(c, sat_mul(db.write, writes) as int);
        assert(w4 == clamp(d));
    }
    w4
}

/// Benchmarked weights of the extrinsics of the vesting pallet, given the
/// database weights of the runtime.
#[derive(Clone, Copy, Debug, PartialEq, Eq)]
pub struct WeightInfo {
    pub db_weight: RuntimeDbWeight,
}

impl WeightInfo {
    /// Weights for a runtime whose database accesses cost `db_weight`.
    pub fn new(db_weight: RuntimeDbWeight) -> (r: Self)
        ensures
            r.db_weight == db_weight,
    {
        WeightInfo { db_weight }
    }

    // Storage: Vesting Vesting (r:1 w:1)
    // Storage: Balances Locks (r:1 w:1)
    pub fn vest_locked(&self, l: u32, s: u32) -> (w: Weight)
        ensures
            w == benchmarked_weight(40_904_000, 138_000, 239_000, 2, 2, self.db_weight, l, s),
    {
        weight_of(40_904_000, 138_000, 239_000, 2, 2, self.db_weight, l, s)
    }

    // Storage: Vesting Vesting (r:1 w:1)
    // Storage: Balances Locks (r:1 w:1)
    pub fn vest_unlocked(&self, l: u32, s: u32) -> (w: Weight)
        ensures
            w == benchmarked_weight(40_943_000, 118_000, 169_000, 2, 2, self.db_weight, l, s),
    {
        weight_of(40_943_000, 118_000, 169_000, 2, 2, self.db_weight, l, s)
    }

    // Storage: Vesting Vesting (r:1 w:1)
    // Storage: Balances Locks (r:1 w:1)
    // Storage: System Account (r:1 w:1)
    pub fn vest_other_locked(&self, l: u32, s: u32) -> (w: Weight)
        ensures
            w == benchmarked_weight(42_367_000, 127_000, 196_000, 3, 3, self.db_weight, l, s),
    {
        weight_of(42_367_000, 127_000, 196_000, 3, 3, self.db_weight, l, s)
    }

    // Storage: Vesting Vesting (r:1 w:1)
    // Storage: Balances Locks (r:1 w:1)
    // Storage: System Account (r:1 w:1)
    pub fn vest_other_unlocked(&self, l: u32, s: u32) -> (w: Weight)
        ensures
            w == benchmarked_weight(41_880_000, 114_000, 147_000, 3, 3, self.db_weight, l, s),
    {
        weight_of(41_880_000, 114_000, 147_000, 3, 3, self.db_weight, l, s)
    }

    // Storage: Vesting Vesting (r:1 w:1)
    // Storage: System Account (r:1 w:1)
    // Storage: Balances Locks (r:1 w:1)
    pub fn vested_transfer(&self, l: u32, s: u32) -> (w: Weight)
        ensures
            w == benchmarked_weight(72_340_000, 113_000, 143_000, 3, 3, self.db_weight, l, s),
    {
        weight_of(72_340_000, 113_000, 143_000, 3, 3, self.db_weight, l, s)
    }

    // Storage: Vesting Vesting (r:1 w:1)
    // Storage: System Account (r:2 w:2)
    // Storage: Balances Locks (r:1 w:1)
    pub fn force_vested_transfer(&self, l: u32, s: u32) -> (w: Weight)
        ensures
            w == benchmarked_weight(73_035_000, 112_000, 95_000, 4, 4, self.db_weight, l, s),
    {
        weight_of(73_035_000, 112_000, 95_000, 4, 4, self.db_weight, l, s)
    }

    // Storage: Vesting Vesting (r:1 w:1)
    // Storage: Balances Locks (r:1 w:1)
    // Storage: System Account (r:1 w:1)
    pub fn not_unlocking_merge_schedules(&self, l: u32, s: u32) -> (w: Weight)
        ensures
            w == benchmarked_weight(43_538_000, 129_000, 217_000, 3, 3, self.db_weight, l, s),
    {
        weight_of(43_538_000, 129_000, 217_000, 3, 3, self.db_weight, l, s)
    }

    // Storage: Vesting Vesting (r:1 w:1)
    // Storage: Balances Locks (r:1 w:1)
    // Storage: System Account (r:1 w:1)
    pub fn unlocking_merge_schedules(&self, l: u32, s: u32) -> (w: Weight)
        ensures
            w == benchmarked_weight(43_933_000, 127_000, 194_000, 3, 3, self.db_weight, l, s),
    {
        weight_of(43_933_000, 127_000, 194_000, 3, 3, self.db_weight, l, s)
    }
}

/// A benchmarked weight never decreases when the number of locks or the number
/// of schedules grows.
pub proof fn lemma_benchmarked_weight_monotonic(
    base: Weight,
    per_l: Weight,
    per_s: Weight,
    reads: Weight,
    writes: Weight,
    db: RuntimeDbWeight,
    l1: u32,
    s1: u32,
    l2: u32,
    s2: u32,
)
    requires
        l1 <= l2,
        s1 <= s2,
    ensures
        benchmarked_weight(base, per_l, per_s, reads, writes, db, l1, s1) <= benchmarked_weight(
            base,
            per_l,
            per_s,
            reads,
            writes,
            db,
            l2,
            s2,
        ),
{
    assert(per_l * l1 <= per_l * l2) by (nonlinear_arith)
        requires
            l1 <= l2,
            0 <= per_l,
    ;
    assert(per_s * s1 <= per_s * s2) by (nonlinear_arith)
        requires
            s1 <= s2,
            0 <= per_s,
    ;
}

/// A benchmarked weight is at least its base weight, and it is the plain sum
/// of its terms whenever that sum fits in a weight.
pub proof fn lemma_benchmarked_weight_bounds(
    base: Weight,
    per_l: Weight,
    per_s: Weight,
    reads: Weight,
    writes: Weight,
    db: RuntimeDbWeight,
    l: u32,
    s: u32,
)
    ensures
        benchmarked_weight(base, per_l, per_s, reads, writes, db, l, s) >= base,
        base + per_l * l + per_s * s + db.read * reads + db.write * writes <= u64::MAX
            ==> benchmarked_weight(base, per_l, per_s, reads, writes, db, l, s) == base + per_l
            * l + per_s * s + db.read * reads + db.write * writes,
{
    assert(per_l * l >= 0) by (nonlinear_arith)
        requires
            0 <= per_l,
            0 <= l,
    ;
    assert(per_s * s >= 0) by (nonlinear_arith)
        requires
            0 <= per_s,
            0 <= s,
    ;
    assert(db.read * reads >= 0) by (nonlinear_arith)
        requires
            0 <= db.read,
            0 <= reads,
    ;
    assert(db.write * writes >= 0) by (nonlinear_arith)
        requires
            0 <= db.write,
            0 <= writes,
    ;
}

} // verus!
