//! Distributions to fill tensors from.

use vstd::prelude::*;
use rand::rngs::StdRng;

verus! {

/// A distribution from which values of type `E` are drawn with a generator of type `R`.
pub trait Sampler<E, R> {
    /// Whether the distribution can be drawn from at all.
    spec fn valid(&self) -> bool;

    /// Whether `value` is one of the values that the distribution can give.
    spec fn supports(&self, value: E) -> bool;

    /// Whether the distribution can be drawn from at all.
    fn is_valid(&self) -> (r: bool)
        ensures
            r == self.valid(),
    ;

    /// Draws a value. Which one of those that the distribution supports is not known
    /// beforehand.
    fn sample(&self, rng: &mut R) -> (value: E)
        requires
            self.valid(),
        ensures
            self.supports(value),
    ;
}

/// The distribution over all values of a type, each as likely as any other.
#[derive(Clone, Copy, Debug, Default)]
pub struct Standard;

/// The distribution over the values from `low` up to, and without, `high`, each as likely as
/// any other.
#[derive(Debug)]
pub struct Uniform<E> {
    pub low: E,
    pub high: E,
}

/// `Distribution::<bool>::sample` of `rand`, on its `Standard` distribution as `rand_distr`
/// hands it on: advances the generator and returns a value. Nothing is claimed of the value.
#[verifier::external_body]
fn standard_bool(rng: &mut StdRng) -> bool {
    rand_distr::Distribution::sample(&rand_distr::Standard, rng)
}

/// `Distribution::<i32>::sample` of `rand`, on its `Standard` distribution as `rand_distr`
/// hands it on: advances the generator and returns a value. Nothing is claimed of the value.
#[verifier::external_body]
fn standard_i32(rng: &mut StdRng) -> i32 {
    rand_distr::Distribution::sample(&rand_distr::Standard, rng)
}

/// `Distribution::<i64>::sample` of `rand`, on its `Standard` distribution as `rand_distr`
/// hands it on: advances the generator and returns a value. Nothing is claimed of the value.
#[verifier::external_body]
fn standard_i64(rng: &mut StdRng) -> i64 {
    rand_distr::Distribution::sample(&rand_distr::Standard, rng)
}

/// `Uniform::<i32>::new` of `rand`, as `rand_distr` hands it on, and `Distribution::sample` on
/// what it made. The constructor panics unless `low < high`, which is asked of the caller;
/// the sample lies in the half-open range from `low` to `high`. Which value of the range it is,
/// is not claimed.
#[verifier::external_body]
fn uniform_i32(low: i32, high: i32, rng: &mut StdRng) -> (value: i32)
    requires
        low < high,
    ensures
        low <= value < high,
{
    rand_distr::Distribution::sample(&rand_distr::Uniform::new(low, high), rng)
}

/// `Uniform::<i64>::new` of `rand`, as `rand_distr` hands it on, and `Distribution::sample` on
/// what it made. The constructor panics unless `low < high`, which is asked of the caller;
/// the sample lies in the half-open range from `low` to `high`. Which value of the range it is,
/// is not claimed.
#[verifier::external_body]
fn uniform_i64(low: i64, high: i64, rng: &mut StdRng) -> (value: i64)
    requires
        low < high,
    ensures
        low <= value < high,
{
    rand_distr::Distribution::sample(&rand_distr::Uniform::new(low, high), rng)
}

impl Sampler<bool, StdRng> for Standard {
    open spec fn valid(&self) -> bool {
        true
    }

    fn is_valid(&self) -> (r: bool) {
        true
    }

    open spec fn supports(&self, value: bool) -> bool {
        true
    }

    fn sample(&self, rng: &mut StdRng) -> (value: bool) {
        standard_bool(rng)
    }
}

impl Sampler<i32, StdRng> for Standard {
    open spec fn valid(&self) -> bool {
        true
    }

    fn is_valid(&self) -> (r: bool) {
        true
    }

    open spec fn supports(&self, value: i32) -> bool {
        true
    }

    fn sample(&self, rng: &mut StdRng) -> (value: i32) {
        standard_i32(rng)
    }
}

impl Sampler<i64, StdRng> for Standard {
    open spec fn valid(&self) -> bool {
        true
    }

    fn is_valid(&self) -> (r: bool) {
        true
    }

    open spec fn supports(&self, value: i64) -> bool {
        true
    }

    fn sample(&self, rng: &mut StdRng) -> (value: i64) {
        standard_i64(rng)
    }
}

impl Sampler<i32, StdRng> for Uniform<i32> {
    open spec fn valid(&self) -> bool {
        self.low < self.high
    }

    fn is_valid(&self) -> (r: bool) {
        self.low < self.high
    }

    open spec fn supports(&self, value: i32) -> bool {
        self.low <= value < self.high
    }

    fn sample(&self, rng: &mut StdRng) -> (value: i32) {
        uniform_i32(self.low, self.high, rng)
    }
}

impl Sampler<i64, StdRng> for Uniform<i64> {
    open spec fn valid(&self) -> bool {
        self.low < self.high
    }

    fn is_valid(&self) -> (r: bool) {
        self.low < self.high
    }

    open spec fn supports(&self, value: i64) -> bool {
        self.low <= value < self.high
    }

    fn sample(&self, rng: &mut StdRng) -> (value: i64) {
        uniform_i64(self.low, self.high, rng)
    }
}

impl<E> Uniform<E> {
    /// The distribution over the values from `low` up to, and without, `high`.
    pub fn new(low: E, high: E) -> (u: Uniform<E>)
        ensures
            u.low == low,
            u.high == high,
    {
        Uniform { low, high }
    }
}

} // verus!
