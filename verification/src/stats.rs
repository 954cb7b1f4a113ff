//! Statistics over adjustment samples, in exact integer arithmetic: the
//! rounded mean, the test of the population standard deviation against one
//! word, and that deviation in hundredths of a word.

use vstd::prelude::*;
use crate::error::Error;

verus! {

/// The sum of the samples.
pub open spec fn total(s: Seq<u32>) -> int
    decreases s.len(),
{
    if s.len() == 0 {
        0
    } else {
        total(s.drop_last()) + s.last() as int
    }
}

/// The sum of the squares of the samples.
pub open spec fn total_squares(s: Seq<u32>) -> int
    decreases s.len(),
{
    if s.len() == 0 {
        0
    } else {
        total_squares(s.drop_last()) + (s.last() as int) * (s.last() as int)
    }
}

/// The population variance of the samples times the square of their
/// number: `n * sum(x^2) - sum(x)^2`.
pub open spec fn spread(s: Seq<u32>) -> int {
    s.len() * total_squares(s) - total(s) * total(s)
}

/// The arithmetic mean of the samples, rounded to the nearest integer,
/// halves upwards.
pub open spec fn rounded_mean(s: Seq<u32>) -> int
    recommends
        s.len() > 0,
{
    (2 * total(s) + s.len()) / (2 * s.len() as int)
}

/// Whether the population standard deviation of the samples is at most one
/// word.
pub open spec fn is_consistent(s: Seq<u32>) -> bool {
    spread(s) <= s.len() * s.len()
}

/// Whether `r` is the greatest natural number with `r * r <= x`.
pub open spec fn is_floor_root(x: int, r: int) -> bool {
    0 <= r && r * r <= x < (r + 1) * (r + 1)
}

/// The integer square root: the greatest `r` with `r * r <= x`.
pub open spec fn isqrt(x: int) -> int {
    choose|r: int| is_floor_root(x, r)
}

/// The population standard deviation of the samples in hundredths of a
/// word, rounded to the nearest integer, halves upwards.
pub open spec fn deviation_hundredths(s: Seq<u32>) -> int
    recommends
        s.len() > 0,
{
    (isqrt(40000 * spread(s)) + s.len()) / (2 * s.len() as int)
}

/// At most one number has its square at or below `x` and the square of its
/// successor above.
pub proof fn lemma_isqrt_unique(x: int, r: int)
    requires
        is_floor_root(x, r),
    ensures
        isqrt(x) == r,
{
    let s = isqrt(x);
    assert(is_floor_root(x, s));
    assert(s == r) by (nonlinear_arith)
        requires
            0 <= r,
            0 <= s,
            r * r <= x < (r + 1) * (r + 1),
            s * s <= x < (s + 1) * (s + 1),
    {
        if s < r {
            assert((s + 1) * (s + 1) <= r * r);
        }
        if r < s {
            assert((r + 1) * (r + 1) <= s * s);
        }
    }
}

/// Computes the integer square root.
pub fn integer_sqrt(x: u128) -> (r: u128)
    ensures
        r == isqrt(x as int),
        r * r <= x < (r + 1) * (r + 1),
        r <= 0xFFFF_FFFF_FFFF_FFFF,
{
    let mut lo: u128 = 0;
    let mut hi: u128 = 0x1_0000_0000_0000_0000;
    assert(0x1_0000_0000_0000_0000int * 0x1_0000_0000_0000_0000int > u128::MAX) by (nonlinear_arith);
    while hi - lo > 1
        invariant
            lo < hi <= 0x1_0000_0000_0000_0000,
            lo * lo <= x < hi * hi,
        decreases hi - lo,
    {
        let mid: u128 = lo + (hi - lo) / 2;
        assert(mid * mid <= 0xFFFF_FFFF_FFFF_FFFFint * 0xFFFF_FFFF_FFFF_FFFFint) by (nonlinear_arith)
            requires
                0 <= mid <= 0xFFFF_FFFF_FFFF_FFFF,
        ;
        assert(0xFFFF_FFFF_FFFF_FFFFint * 0xFFFF_FFFF_FFFF_FFFFint <= u128::MAX) by (nonlinear_arith);
        if mid * mid <= x {
            lo = mid;
        } else {
            hi = mid;
        }
    }
    proof {
        lemma_isqrt_unique(x as int, lo as int);
    }
    lo
}

/// The sums of `n` samples are at most `n` times the greatest value, and
/// `n` times its square.
pub proof fn lemma_totals_bounded(s: Seq<u32>)
    ensures
        0 <= total(s) <= s.len() * 0xFFFF_FFFF,
        0 <= total_squares(s) <= s.len() * 0xFFFF_FFFE_0000_0001,
    decreases s.len(),
{
    if s.len() > 0 {
        lemma_totals_bounded(s.drop_last());
        let x = s.last() as int;
        assert(0 <= x * x <= 0xFFFF_FFFE_0000_0001) by (nonlinear_arith)
            requires
                0 <= x <= 0xFFFF_FFFF,
        ;
    }
}

/// The sum of the squared distances of the samples from `c`.
pub open spec fn squared_distances(s: Seq<u32>, c: int) -> int
    decreases s.len(),
{
    if s.len() == 0 {
        0
    } else {
        squared_distances(s.drop_last(), c) + (s.last() - c) * (s.last() - c)
    }
}

/// Squared distances are no negative numbers, and their sum expands to
/// `sum(x^2) - 2 c sum(x) + n c^2`.
proof fn lemma_squared_distances(s: Seq<u32>, c: int)
    ensures
        squared_distances(s, c) >= 0,
        squared_distances(s, c) == total_squares(s) - 2 * c * total(s) + s.len() * (c * c),
    decreases s.len(),
{
    if s.len() > 0 {
        let r = s.drop_last();
        lemma_squared_distances(r, c);
        let x = s.last() as int;
        let n = r.len() as int;
        let q = total_squares(r);
        let t = total(r);
        assert((x - c) * (x - c) >= 0) by (nonlinear_arith);
        assert(q - 2 * c * t + n * (c * c) + (x - c) * (x - c) == (q + x * x) - 2 * c * (t + x) + (n
            + 1) * (c * c)) by (nonlinear_arith);
    }
}

/// The spread is no negative number.
pub proof fn lemma_spread_nonnegative(s: Seq<u32>)
    ensures
        spread(s) >= 0,
    decreases s.len(),
{
    if s.len() > 0 {
        let r = s.drop_last();
        lemma_spread_nonnegative(r);
        let x = s.last() as int;
        lemma_squared_distances(r, x);
        let n = r.len() as int;
        let q = total_squares(r);
        let t = total(r);
        assert((n + 1) * (q + x * x) - (t + x) * (t + x) == (n * q - t * t) + (q - 2 * x * t + n * (
            x * x))) by (nonlinear_arith);
    }
}

/// The most samples that a log holds.
pub const MAX_SAMPLES: usize = 16_777_216;

/// The adjustment samples of a session, in the order in which they were
/// recorded: each the number of words that one manual correction moved.
pub struct AdjustmentLog {
    samples: Vec<u32>,
}

impl View for AdjustmentLog {
    type V = Seq<u32>;

    closed spec fn view(&self) -> Seq<u32> {
        self.samples@
    }
}

impl AdjustmentLog {
    #[verifier::type_invariant]
    spec fn within_capacity(&self) -> bool {
        self.samples@.len() <= MAX_SAMPLES
    }

    /// An empty log.
    pub fn new() -> (log: AdjustmentLog)
        ensures
            log@.len() == 0,
    {
        AdjustmentLog { samples: Vec::new() }
    }

    /// The number of samples recorded.
    pub fn len(&self) -> (n: usize)
        ensures
            n == self@.len(),
            n <= MAX_SAMPLES,
    {
        proof {
            use_type_invariant(self);
        }
        self.samples.len()
    }

    /// The samples recorded, oldest first.
    pub fn samples(&self) -> (v: Vec<u32>)
        ensures
            v@ == self@,
    {
        self.samples.clone()
    }

    /// Records that one correction moved `words` words. A log that is full,
    /// or a count beyond `u32::MAX`, leaves the log unchanged and returns
    /// `false`.
    pub fn record(&mut self, words: usize) -> (recorded: bool)
        ensures
            recorded == (old(self)@.len() < MAX_SAMPLES && words <= u32::MAX),
            recorded ==> final(self)@ == old(self)@.push(words as u32),
            !recorded ==> final(self)@ == old(self)@,
    {
        proof {
            use_type_invariant(&*self);
        }
        if self.samples.len() < MAX_SAMPLES && words <= u32::MAX as usize {
            let mut taken = AdjustmentLog::new();
            std::mem::swap(self, &mut taken);
            let mut samples = taken.samples;
            samples.push(words as u32);
            *self = AdjustmentLog { samples };
            true
        } else {
            false
        }
    }

    /// Fits the correction pattern: the rounded mean of the samples, where
    /// there is a sample and their population standard deviation is at most
    /// one word. Without a sample the data is insufficient; with a greater
    /// deviation the confidence is low, and the error carries the deviation
    /// in hundredths of a word.
    pub fn fit(&self) -> (r: Result<usize, Error>)
        ensures
            match r {
                Ok(m) => self@.len() > 0 && is_consistent(self@) && m == rounded_mean(self@) && m
                    <= u32::MAX,
                Err(Error::InsufficientAdjustmentSamples) => self@.len() == 0,
                Err(Error::LowCorrectionConfidence(d)) => self@.len() > 0 && !is_consistent(self@)
                    && d == deviation_hundredths(self@),
                Err(_) => false,
            },
    {
        proof {
            use_type_invariant(self);
        }
        let count = self.samples.len();
        if count == 0 {
            return Err(Error::InsufficientAdjustmentSamples);
        }
        let mut sum: u128 = 0;
        let mut squares: u128 = 0;
        let mut i: usize = 0;
        while i < count
            invariant
                i <= count == self.samples@.len() <= MAX_SAMPLES,
                sum == total(self.samples@.take(i as int)),
                squares == total_squares(self.samples@.take(i as int)),
            decreases count - i,
        {
            let x: u128 = self.samples[i] as u128;
            proof {
                let next = self.samples@.take(i + 1);
                assert(next.drop_last() == self.samples@.take(i as int));
                lemma_totals_bounded(next);
                assert(0 <= x * x <= 0xFFFF_FFFE_0000_0001) by (nonlinear_arith)
                    requires
                        0 <= x <= 0xFFFF_FFFF,
                ;
                assert(next.len() * 0xFFFF_FFFF <= MAX_SAMPLES * 0xFFFF_FFFF);
                assert(next.len() * 0xFFFF_FFFE_0000_0001 <= MAX_SAMPLES * 0xFFFF_FFFE_0000_0001);
            }
            sum = sum + x;
            squares = squares + x * x;
            i += 1;
        }
        let n: u128 = count as u128;
        proof {
            let s = self.samples@;
            assert(s.take(count as int) == s);
            lemma_totals_bounded(s);
            lemma_spread_nonnegative(s);
            assert(n * squares <= 16_777_216 * (16_777_216 * 0xFFFF_FFFE_0000_0001))
                by (nonlinear_arith)
                requires
                    0 <= n <= 16_777_216,
                    0 <= squares <= n * 0xFFFF_FFFE_0000_0001,
            ;
            assert(sum * sum <= (16_777_216 * 0xFFFF_FFFF) * (16_777_216 * 0xFFFF_FFFF))
                by (nonlinear_arith)
                requires
                    0 <= n <= 16_777_216,
                    0 <= sum <= n * 0xFFFF_FFFF,
            ;
            assert(n * n <= 16_777_216 * 16_777_216) by (nonlinear_arith)
                requires
                    0 <= n <= 16_777_216,
            ;
        }
        let v: u128 = n * squares - sum * sum;
        if v > n * n {
            let root = integer_sqrt(40000 * v);
            let d: u128 = (root + n) / (2 * n);
            assert(d <= (root + n) / 2) by (nonlinear_arith)
                requires
                    d == (root + n) / (2 * n),
                    n >= 1,
                    root >= 0,
            ;
            Err(Error::LowCorrectionConfidence(d as u64))
        } else {
            let m: u128 = (2 * sum + n) / (2 * n);
            assert(m <= 0xFFFF_FFFF) by (nonlinear_arith)
                requires
                    m == (2 * sum + n) / (2 * n),
                    n >= 1,
                    0 <= sum <= n * 0xFFFF_FFFF,
            ;
            Ok(m as usize)
        }
    }
}

} // verus!
