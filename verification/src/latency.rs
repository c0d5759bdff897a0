//! The histogram of latencies.
//!
//! The histogram counts latencies in classes of values that it does not tell
//! apart, so its content is described by one representative for each latency
//! that was recorded: the smallest value of its class.

use hdrhistogram::{Histogram, RecordError};
use vstd::arithmetic::div_mod::{lemma_fundamental_div_mod, lemma_fundamental_div_mod_converse};
use vstd::multiset::Multiset;
use vstd::prelude::*;

use crate::text::is_digit;

verus! {

/// Lowest latency, in microseconds, that is told apart from zero.
pub const LOWEST_LATENCY: u64 = 1;

/// Highest latency, in microseconds, that the histogram is made for.
pub const HIGHEST_LATENCY: u64 = 60_000_000;

/// Significant decimal digits that are kept of a latency.
pub const LATENCY_DIGITS: u8 = 3;

/// The first latency that finds no room: the classes up to the highest
/// latency fill whole powers of two.
pub const LATENCY_LIMIT: u64 = 67_108_864;

/// A histogram of latencies in microseconds.
///
/// Trusted: holds an `hdrhistogram::Histogram<u64>`, which is made by
/// `new_with_bounds` and changed by `record` and `reset` alone.
#[verifier::external_body]
#[derive(Debug)]
pub struct LatencyHistogram {
    inner: Histogram<u64>,
}

/// The reason for an error of `Histogram::new_with_bounds`.
///
/// Trusted: carries `hdrhistogram::CreationError` through.
#[verifier::external_type_specification]
#[verifier::external_body]
pub struct ExCreationError(hdrhistogram::CreationError);

/// Why a latency could not be recorded.
#[derive(Clone, Copy, Debug, PartialEq, Eq, Structural)]
pub enum RecordFailure {
    /// It is too large for a histogram of fixed size.
    OutOfRange,
    /// The histogram could not grow.
    ResizeFailed,
}

/// The bounds and the number of digits that a histogram was made with.
pub uninterp spec fn settings(h: LatencyHistogram) -> Seq<u64>;

/// The representative of each latency that was recorded.
pub uninterp spec fn samples(h: LatencyHistogram) -> Multiset<u64>;

/// What `Histogram::value_at_percentile` finds.
pub uninterp spec fn percentile_value(
    settings: Seq<u64>,
    samples: Multiset<u64>,
    percent: u8,
) -> u64;

/// What `Histogram::mean` gives, written with one decimal place.
pub uninterp spec fn mean_figure(settings: Seq<u64>, samples: Multiset<u64>) -> Seq<char>;

/// The settings of the histogram of latencies.
pub open spec fn latency_settings() -> Seq<u64> {
    seq![LOWEST_LATENCY, HIGHEST_LATENCY, LATENCY_DIGITS as u64]
}

/// The number of latencies that are not told apart from a latency: one up to
/// 2047, and twice as many with each doubling from there.
pub open spec fn class_width(value: u64) -> nat
    decreases value,
{
    if value < 2048 {
        1
    } else {
        2 * class_width(value / 2)
    }
}

/// The smallest latency that is not told apart from a latency.
pub open spec fn lowest_equivalent(value: u64) -> u64 {
    (value as nat - value as nat % class_width(value)) as u64
}

/// The largest latency that is not told apart from a latency.
pub open spec fn highest_equivalent(value: u64) -> int {
    lowest_equivalent(value) + class_width(value) - 1
}

/// The samples after one more, whose representative is `low`. A class counts
/// up to the largest 64 bit number and then stays there.
pub open spec fn with_sample(samples: Multiset<u64>, low: u64) -> Multiset<u64> {
    if samples.count(low) < u64::MAX {
        samples.insert(low)
    } else {
        samples
    }
}

/// The samples after a latency was recorded: one more where the latency is in
/// range, else the same.
pub open spec fn recorded(samples: Multiset<u64>, value: u64) -> Multiset<u64> {
    if value < LATENCY_LIMIT {
        with_sample(samples, lowest_equivalent(value))
    } else {
        samples
    }
}

/// `r` is the least of the samples, zero where there are none.
pub open spec fn is_least(samples: Multiset<u64>, r: u64) -> bool {
    if samples.len() == 0 {
        r == 0
    } else {
        samples.contains(r) && forall|v: u64| #[trigger] samples.contains(v) ==> r <= v
    }
}

/// `top` is the greatest of the samples.
pub open spec fn is_top(samples: Multiset<u64>, top: u64) -> bool {
    samples.contains(top) && forall|v: u64| #[trigger] samples.contains(v) ==> v <= top
}

/// The greatest of the samples.
pub open spec fn greatest(samples: Multiset<u64>) -> u64 {
    choose|top: u64| is_top(samples, top)
}

/// Where there are samples, there is a greatest one.
pub proof fn greatest_is_top(samples: Multiset<u64>)
    requires
        samples.len() > 0,
    ensures
        is_top(samples, greatest(samples)),
    decreases samples.len(),
{
    let v = samples.choose();
    assert(samples.contains(v)) by {
        assert(samples.count(v) > 0);
    }
    let rest = samples.remove(v);
    if rest.len() == 0 {
        assert forall|w: u64| #[trigger] samples.contains(w) implies w <= v by {
            if w != v {
                assert(rest.count(w) > 0);
                assert(rest.contains(w));
            }
        }
        assert(is_top(samples, v));
    } else {
        greatest_is_top(rest);
        let top = if greatest(rest) > v {
            greatest(rest)
        } else {
            v
        };
        assert(samples.contains(top));
        assert forall|w: u64| #[trigger] samples.contains(w) implies w <= top by {
            if w != v {
                assert(rest.contains(w));
            }
        }
        assert(is_top(samples, top));
    }
}

/// `r` is the largest value of the class of the greatest of the samples, zero
/// where there are none.
pub open spec fn is_greatest(samples: Multiset<u64>, r: u64) -> bool {
    r == if samples.len() == 0 {
        0
    } else {
        highest_equivalent(greatest(samples))
    }
}

/// `r` is the largest value of the class of one of the samples, zero where
/// there are none.
pub open spec fn is_class_top(samples: Multiset<u64>, r: u64) -> bool {
    if samples.len() == 0 {
        r == 0
    } else {
        exists|v: u64| #[trigger]
            samples.contains(v) && r == highest_equivalent(v)
    }
}

proof fn lemma_class_width(value: u64)
    ensures
        class_width(value) >= 1,
        value >= 2048 ==> class_width(value) * 1024 <= value,
        value < 2048 ==> class_width(value) == 1,
    decreases value,
{
    if value >= 2048 {
        lemma_class_width(value / 2);
    }
}

/// A latency lies between the smallest and the largest latency that it is not
/// told apart from. Below 2048 the three are the same, and above they differ
/// by less than a thousandth.
pub proof fn three_digits_are_kept(value: u64)
    requires
        value < LATENCY_LIMIT,
    ensures
        lowest_equivalent(value) <= value <= highest_equivalent(value),
        value < 2048 ==> lowest_equivalent(value) == highest_equivalent(value),
        value >= 2048 ==> (highest_equivalent(value) - lowest_equivalent(value)) * 1000 < value,
{
    lemma_class_width(value);
    let width = class_width(value);
    assert(0 <= value as nat % width < width && value as nat % width <= value);
}

/// Above 2047 a class is twice the class of half the latency.
proof fn lemma_class_doubles(value: u64)
    requires
        value >= 2048,
    ensures
        highest_equivalent(value) == 2 * highest_equivalent(value / 2) + 1,
        value <= highest_equivalent(value),
    decreases value,
{
    let half = value / 2;
    let width = class_width(half) as int;
    lemma_class_width(half);
    if half >= 2048 {
        lemma_class_doubles(half);
    }
    let quotient = half as int / width;
    let rest = half as int % width;
    let odd = value as int % 2;
    lemma_fundamental_div_mod(half as int, width);
    assert(value as int == quotient * (2 * width) + (2 * rest + odd)) by (nonlinear_arith)
        requires
            value as int == 2 * half as int + odd,
            half as int == width * quotient + rest,
    ;
    lemma_fundamental_div_mod_converse(value as int, 2 * width, quotient, 2 * rest + odd);
}

/// The larger of two latencies has the larger class, or the same.
proof fn lemma_classes_are_ordered(a: u64, b: u64)
    requires
        a <= b,
    ensures
        highest_equivalent(a) <= highest_equivalent(b),
        a <= highest_equivalent(a),
    decreases b,
{
    if b >= 2048 {
        lemma_class_doubles(b);
        if a >= 2048 {
            lemma_class_doubles(a);
            lemma_classes_are_ordered(a / 2, b / 2);
        }
    }
}

/// A percentile lies between the least and the greatest latency.
pub proof fn percentile_is_in_range(samples: Multiset<u64>, least: u64, r: u64, top: u64)
    requires
        is_least(samples, least),
        is_class_top(samples, r),
        is_greatest(samples, top),
    ensures
        least <= r <= top,
{
    if samples.len() > 0 {
        greatest_is_top(samples);
        let v = choose|v: u64| #[trigger] samples.contains(v) && r == highest_equivalent(v);
        lemma_classes_are_ordered(v, greatest(samples));
    }
}

/// Makes an empty histogram.
///
/// Trusted: `Histogram::new_with_bounds` rejects a lowest value of zero or
/// above half of the 64 bit range, a highest value below twice the lowest,
/// and more than five digits; it accepts every other choice whose lowest value
/// is one. The new histogram is empty and of fixed size.
#[verifier::external_body]
fn new_with_bounds(low: u64, high: u64, digits: u8) -> (r: Result<
    LatencyHistogram,
    hdrhistogram::CreationError,
>)
    ensures
        low == 0 || low > u64::MAX / 2 || high < 2 * low || digits > 5 ==> r is Err,
        low == 1 && high >= 2 && digits <= 5 ==> r is Ok,
        r matches Ok(h) ==> settings(h) == seq![low, high, digits as u64] && samples(h)
            == Multiset::<u64>::empty(),
{
    Histogram::new_with_bounds(low, high, digits).map(|inner| LatencyHistogram { inner })
}

/// Records a latency.
///
/// Trusted: `Histogram::record` on a histogram of fixed size finds the class
/// of the value and counts it there, saturating; it returns
/// `ValueOutOfRangeResizeDisabled` and changes nothing where the value has no
/// class. With the settings required here the classes are one wide below 2048
/// and double in width with each power of two from there, and they end at the
/// power of two above the highest value.
#[verifier::external_body]
fn record_value(h: &mut LatencyHistogram, value: u64) -> (r: Result<(), RecordFailure>)
    requires
        settings(*old(h)) == latency_settings(),
    ensures
        settings(*final(h)) == settings(*old(h)),
        r == if value < LATENCY_LIMIT {
            Ok::<(), RecordFailure>(())
        } else {
            Err(RecordFailure::OutOfRange)
        },
        samples(*final(h)) == if value < LATENCY_LIMIT {
            with_sample(samples(*old(h)), lowest_equivalent(value))
        } else {
            samples(*old(h))
        },
{
    match h.inner.record(value) {
        Ok(()) => Ok(()),
        Err(RecordError::ValueOutOfRangeResizeDisabled) => Err(RecordFailure::OutOfRange),
        Err(RecordError::ResizeFailedUsizeTypeTooSmall) => Err(RecordFailure::ResizeFailed),
    }
}

/// Empties a histogram.
///
/// Trusted: `Histogram::reset` forgets what was recorded and keeps the
/// settings.
#[verifier::external_body]
fn reset_samples(h: &mut LatencyHistogram)
    ensures
        settings(*final(h)) == settings(*old(h)),
        samples(*final(h)) == Multiset::<u64>::empty(),
{
    h.inner.reset();
}

/// The number of latencies.
///
/// Trusted: `Histogram::len` counts every latency that was recorded, up to the
/// largest 64 bit number.
#[verifier::external_body]
fn sample_count(h: &LatencyHistogram) -> (r: u64)
    ensures
        r == if samples(*h).len() <= u64::MAX {
            samples(*h).len()
        } else {
            u64::MAX as nat
        },
{
    h.inner.len()
}

/// The least latency.
///
/// Trusted: `Histogram::min` is zero where nothing was recorded, and else the
/// least representative.
#[verifier::external_body]
fn least_sample(h: &LatencyHistogram) -> (r: u64)
    ensures
        is_least(samples(*h), r),
{
    h.inner.min()
}

/// The greatest latency.
///
/// Trusted: `Histogram::max` is zero where nothing was recorded, and else the
/// largest value of the class of the greatest representative.
#[verifier::external_body]
fn greatest_sample(h: &LatencyHistogram) -> (r: u64)
    requires
        settings(*h) == latency_settings(),
    ensures
        samples(*h).len() == 0 ==> r == 0,
        samples(*h).len() > 0 ==> r == highest_equivalent(greatest(samples(*h))),
{
    h.inner.max()
}

/// The latency that a share of all latencies does not exceed.
///
/// Trusted: `Histogram::value_at_percentile` depends on the settings, on the
/// counts and on the percentage alone (its rounding is floating point and is
/// named, not stated). It is zero where nothing was recorded, and else the
/// largest value of the class of some latency. For as many samples and as low
/// a percentage as are required here its sums stay in 64 bits and the share
/// stays below the whole.
#[verifier::external_body]
fn sample_at_percentile(h: &LatencyHistogram, percent: u8) -> (r: u64)
    requires
        settings(*h) == latency_settings(),
        samples(*h).len() <= u64::MAX,
        0 < percent < 100,
    ensures
        r == percentile_value(settings(*h), samples(*h), percent),
        is_class_top(samples(*h), r),
{
    h.inner.value_at_percentile(percent.into())
}

/// The mean latency with one decimal place.
///
/// Trusted: `Histogram::mean` depends on the settings and on the counts alone
/// (it is floating point and is named, not stated). It is finite and not
/// negative, so that it is written with digits and a decimal point.
#[verifier::external_body]
fn mean_with_one_decimal(h: &LatencyHistogram) -> (r: String)
    requires
        samples(*h).len() <= u64::MAX,
    ensures
        r@ == mean_figure(settings(*h), samples(*h)),
        forall|i: int| 0 <= i < r@.len() ==> is_digit(#[trigger] r@[i]) || r@[i] == '.',
{
    format!("{:.1}", h.inner.mean())
}

impl View for LatencyHistogram {
    type V = Multiset<u64>;

    open spec fn view(&self) -> Multiset<u64> {
        samples(*self)
    }
}

impl LatencyHistogram {
    /// The histogram has the settings of the histogram of latencies.
    pub open spec fn wf(self) -> bool {
        settings(self) == latency_settings()
    }

    /// An empty histogram of latencies up to a minute.
    pub fn new() -> (r: Self)
        ensures
            r.wf(),
            r@ == Multiset::<u64>::empty(),
    {
        match new_with_bounds(LOWEST_LATENCY, HIGHEST_LATENCY, LATENCY_DIGITS) {
            Ok(h) => h,
            Err(_) => {
                assert(false);
                vstd::pervasive::unreached()
            },
        }
    }

    /// Records a latency; one that is out of range changes nothing.
    pub fn record(&mut self, value: u64) -> (r: Result<(), RecordFailure>)
        requires
            old(self).wf(),
        ensures
            final(self).wf(),
            final(self)@ == recorded(old(self)@, value),
            r == if value < LATENCY_LIMIT {
                Ok::<(), RecordFailure>(())
            } else {
                Err(RecordFailure::OutOfRange)
            },
    {
        record_value(self, value)
    }

    /// Forgets all latencies.
    pub fn reset(&mut self)
        requires
            old(self).wf(),
        ensures
            final(self).wf(),
            final(self)@ == Multiset::<u64>::empty(),
    {
        reset_samples(self)
    }

    /// The number of latencies, up to the largest 64 bit number.
    pub fn len(&self) -> (r: u64)
        ensures
            r == if self@.len() <= u64::MAX {
                self@.len()
            } else {
                u64::MAX as nat
            },
    {
        sample_count(self)
    }

    /// The least latency, zero where there is none.
    pub fn min(&self) -> (r: u64)
        ensures
            is_least(self@, r),
    {
        least_sample(self)
    }

    /// The greatest latency, zero where there is none.
    pub fn max(&self) -> (r: u64)
        requires
            self.wf(),
        ensures
            is_greatest(self@, r),
    {
        greatest_sample(self)
    }

    /// The latency that `percent` of all latencies do not exceed.
    pub fn value_at_percentile(&self, percent: u8) -> (r: u64)
        requires
            self.wf(),
            self@.len() <= u64::MAX,
            0 < percent < 100,
        ensures
            r == percentile_value(latency_settings(), self@, percent),
            is_class_top(self@, r),
    {
        sample_at_percentile(self, percent)
    }

    /// The mean latency with one decimal place.
    pub fn mean_text(&self) -> (r: String)
        requires
            self.wf(),
            self@.len() <= u64::MAX,
        ensures
            r@ == mean_figure(latency_settings(), self@),
            forall|i: int| 0 <= i < r@.len() ==> is_digit(#[trigger] r@[i]) || r@[i] == '.',
    {
        mean_with_one_decimal(self)
    }
}

} // verus!
