//! The Gaussian distribution.

use vstd::prelude::*;
use crate::curve::{
    chart, evaluate, is_chart_of, is_curve_over, Chart, Curve, Family, Query, GRID_POINTS,
};
use crate::double::{lemma_rank_orders_numbers, Double};
use crate::field::Field;

verus! {

/// The mean and the standard deviation of a Gaussian distribution, as plain
/// values.
#[derive(Clone, Copy, Debug, PartialEq, Eq, Structural)]
pub struct GaussianParams {
    pub mu: Double,
    pub sigma: Double,
}

impl GaussianParams {
    /// The domain: `mu` is any number, and `sigma` is a number that is
    /// not negative.
    pub open spec fn in_domain(self) -> bool {
        &&& Double::neg_infinity().rank() <= self.mu.rank() <= Double::infinity().rank()
        &&& Double::zero().rank() <= self.sigma.rank() <= Double::infinity().rank()
    }

    /// The parameters that a fresh distribution has: `mu` is zero and `sigma` is 1.
    pub open spec fn initial() -> GaussianParams {
        GaussianParams { mu: Double::zero(), sigma: Double::one() }
    }

    /// The parameters after an entry for `mu`: the entry is clamped to the
    /// range from negative to positive infinity, so that it is a number.
    pub open spec fn with_mu(self, value: Double) -> GaussianParams {
        GaussianParams {
            mu: value.clamp_spec(Double::neg_infinity(), Double::infinity()),
            sigma: self.sigma,
        }
    }

    /// The parameters after an entry for `sigma`: the entry is clamped to the
    /// range from zero to infinity.
    pub open spec fn with_sigma(self, value: Double) -> GaussianParams {
        GaussianParams {
            mu: self.mu,
            sigma: value.clamp_spec(Double::zero(), Double::infinity()),
        }
    }

    /// The parameters after one refresh of the editor: the entry for `mu` is
    /// taken first, then the entry for `sigma`.
    pub open spec fn edited(self, mu: Option<Double>, sigma: Option<Double>) -> GaussianParams {
        let first = match mu {
            Some(value) => self.with_mu(value),
            None => self,
        };
        match sigma {
            Some(value) => first.with_sigma(value),
            None => first,
        }
    }

    /// The parameters after a run of refreshes, each given by its two entries.
    pub open spec fn after(self, entries: Seq<(Option<Double>, Option<Double>)>) -> GaussianParams
        decreases entries.len(),
    {
        if entries.len() == 0 {
            self
        } else {
            self.after(entries.drop_last()).edited(entries.last().0, entries.last().1)
        }
    }

    /// Whether `fields` are the two fields of the editor for these
    /// parameters: `mu` first, each under its own name, with the number it
    /// holds and the range to which its entries are clamped.
    pub open spec fn shown_as(self, fields: [Field; 2]) -> bool {
        &&& fields[0].prefix@ == "mu: "@
        &&& fields[0].value == self.mu
        &&& fields[0].min == Double::neg_infinity()
        &&& fields[0].max == Double::infinity()
        &&& fields[1].prefix@ == "sigma: "@
        &&& fields[1].value == self.sigma
        &&& fields[1].min == Double::zero()
        &&& fields[1].max == Double::infinity()
    }

    /// The question about the distribution with these parameters for one
    /// function at `x`.
    pub open spec fn query(self, curve: Curve, x: Double) -> Query {
        Query { family: Family::Gaussian, first: self.mu, second: self.sigma, curve, x }
    }

    /// Whether the parameters lie in the domain.
    pub fn is_in_domain(&self) -> (b: bool)
        ensures
            b == self.in_domain(),
    {
        Double::neg_infinity().total_le(self.mu) && self.mu.total_le(Double::infinity())
            && Double::zero().total_le(self.sigma) && self.sigma.total_le(Double::infinity())
    }
}

/// Whatever is entered, and however often, the parameters stay in the domain:
/// `sigma` never becomes negative, and neither parameter ever stops being
/// a number.
pub proof fn lemma_gaussian_edits_stay_in_domain(
    params: GaussianParams,
    entries: Seq<(Option<Double>, Option<Double>)>,
)
    requires
        params.in_domain(),
    ensures
        params.after(entries).in_domain(),
        !params.after(entries).sigma.is_negative(),
        params.after(entries).sigma.scaled() >= 0,
        !params.after(entries).sigma.is_nan(),
        !params.after(entries).mu.is_nan(),
    decreases entries.len(),
{
    if entries.len() > 0 {
        lemma_gaussian_edits_stay_in_domain(params, entries.drop_last());
    }
    let end = params.after(entries);
    lemma_rank_orders_numbers(Double::zero(), end.sigma);
}

/// A Gaussian distribution. Its parameters are always in the domain.
#[derive(Clone, Copy, Debug, PartialEq, Eq)]
pub struct Gaussian {
    params: GaussianParams,
}

impl View for Gaussian {
    type V = GaussianParams;

    closed spec fn view(&self) -> GaussianParams {
        self.params
    }
}

impl Default for Gaussian {
    /// The Gaussian distribution with mean 0 and standard deviation 1.
    fn default() -> (r: Self)
        ensures
            r@ == GaussianParams::initial(),
    {
        Gaussian { params: GaussianParams { mu: Double::zero(), sigma: Double::one() } }
    }
}

impl Gaussian {
    #[verifier::type_invariant]
    spec fn inv(self) -> bool {
        self.params.in_domain()
    }

    /// The distribution with the given parameters, where they lie in the
    /// domain.
    pub fn new(params: GaussianParams) -> (r: Option<Self>)
        ensures
            r.is_some() == params.in_domain(),
            r.is_some() ==> r.unwrap()@ == params,
    {
        if params.is_in_domain() {
            Some(Gaussian { params })
        } else {
            None
        }
    }

    /// The parameters, which lie in the domain.
    pub fn params(&self) -> (r: GaussianParams)
        ensures
            r == self@,
            r.in_domain(),
    {
        proof {
            use_type_invariant(self);
        }
        self.params
    }

    /// The mean.
    pub fn mu(&self) -> (r: Double)
        ensures
            r == self@.mu,
    {
        self.params.mu
    }

    /// The standard deviation.
    pub fn sigma(&self) -> (r: Double)
        ensures
            r == self@.sigma,
    {
        self.params.sigma
    }

    /// The name under which the family is offered.
    pub fn name(&self) -> (r: &'static str)
        ensures
            r@ == "Gaussian"@,
    {
        "Gaussian"
    }

    /// The two fields of the editor, `mu` first, each with the range to which
    /// its entries are clamped.
    pub fn fields(&self) -> (r: [Field; 2])
        ensures
            self@.shown_as(r),
    {
        [
            Field {
                prefix: "mu: ",
                value: self.params.mu,
                min: Double::neg_infinity(),
                max: Double::infinity(),
            },
            Field {
                prefix: "sigma: ",
                value: self.params.sigma,
                min: Double::zero(),
                max: Double::infinity(),
            },
        ]
    }

    /// Takes an entry for `mu`, clamped to its range.
    pub fn set_mu(&mut self, value: Double)
        ensures
            final(self)@ == old(self)@.with_mu(value),
            final(self)@.in_domain(),
    {
        proof {
            use_type_invariant(&*self);
        }
        self.params.mu = value.clamp(Double::neg_infinity(), Double::infinity());
    }

    /// Takes an entry for `sigma`, clamped to its range: a negative entry
    /// becomes zero.
    pub fn set_sigma(&mut self, value: Double)
        ensures
            final(self)@ == old(self)@.with_sigma(value),
            final(self)@.in_domain(),
    {
        proof {
            use_type_invariant(&*self);
        }
        self.params.sigma = value.clamp(Double::zero(), Double::infinity());
    }

    /// One refresh of the editor: takes the entries that were made, the one
    /// for `mu` first.
    pub fn ui(&mut self, mu: Option<Double>, sigma: Option<Double>)
        ensures
            final(self)@ == old(self)@.edited(mu, sigma),
            final(self)@.in_domain(),
    {
        proof {
            use_type_invariant(&*self);
        }
        if let Some(value) = mu {
            self.set_mu(value);
        }
        if let Some(value) = sigma {
            self.set_sigma(value);
        }
    }

    /// The density at every value of the grid `x`.
    pub fn calculate_pdf<M: Fn(Query) -> Double>(&self, x: Vec<Double>, math: &M) -> (points: Vec<
        [Double; 2],
    >)
        requires
            forall|i: int|
                0 <= i < x.len() ==> call_requires(
                    *math,
                    (self@.query(Curve::Pdf, #[trigger] x[i]),),
                ),
        ensures
            is_curve_over(points@, Family::Gaussian, self@.mu, self@.sigma, Curve::Pdf, x@, *math),
    {
        evaluate(Family::Gaussian, self.params.mu, self.params.sigma, Curve::Pdf, x, math)
    }

    /// The cumulative function at every value of the grid `x`.
    pub fn calculate_cdf<M: Fn(Query) -> Double>(&self, x: Vec<Double>, math: &M) -> (points: Vec<
        [Double; 2],
    >)
        requires
            forall|i: int|
                0 <= i < x.len() ==> call_requires(
                    *math,
                    (self@.query(Curve::Cdf, #[trigger] x[i]),),
                ),
        ensures
            is_curve_over(points@, Family::Gaussian, self@.mu, self@.sigma, Curve::Cdf, x@, *math),
    {
        evaluate(Family::Gaussian, self.params.mu, self.params.sigma, Curve::Cdf, x, math)
    }

    /// The chart of the distribution over the fixed domain.
    pub fn plot<L: Fn(Double, Double, usize) -> Vec<Double>, M: Fn(Query) -> Double>(
        &self,
        linspace: &L,
        math: &M,
    ) -> (r: Chart)
        requires
            call_requires(*linspace, (Double::ten().neg(), Double::ten(), GRID_POINTS)),
            forall|curve: Curve, x: Double| call_requires(*math, (self@.query(curve, x),)),
        ensures
            is_chart_of(r, Family::Gaussian, self@.mu, self@.sigma, *linspace, *math),
    {
        assert forall|curve: Curve, x: Double|
            call_requires(
                *math,
                (
                    Query {
                        family: Family::Gaussian,
                        first: self.params.mu,
                        second: self.params.sigma,
                        curve,
                        x,
                    },
                ),
            ) by {
            assert(call_requires(*math, (self@.query(curve, x),)));
        }
        chart(Family::Gaussian, self.params.mu, self.params.sigma, linspace, math)
    }
}

} // verus!
