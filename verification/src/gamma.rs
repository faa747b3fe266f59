//! The gamma distribution.

use vstd::prelude::*;
use crate::curve::{
    chart, evaluate, is_chart_of, is_curve_over, Chart, Curve, Family, Query, GRID_POINTS,
};
use crate::double::{lemma_rank_orders_numbers, Double};
use crate::field::Field;

verus! {

/// The shape and the scale of a gamma distribution, as plain values.
#[derive(Clone, Copy, Debug, PartialEq, Eq, Structural)]
pub struct GammaParams {
    pub k: Double,
    pub theta: Double,
}

impl GammaParams {
    /// The domain: `k` and `theta` are numbers that are not negative.
    pub open spec fn in_domain(self) -> bool {
        &&& Double::zero().rank() <= self.k.rank() <= Double::infinity().rank()
        &&& Double::zero().rank() <= self.theta.rank() <= Double::infinity().rank()
    }

    /// The parameters that a fresh distribution has: `k` is 2 and `theta` is 1.
    pub open spec fn initial() -> GammaParams {
        GammaParams { k: Double::two(), theta: Double::one() }
    }

    /// The parameters after an entry for `k`: the entry is clamped to the
    /// range from zero to infinity.
    pub open spec fn with_k(self, value: Double) -> GammaParams {
        GammaParams {
            k: value.clamp_spec(Double::zero(), Double::infinity()),
            theta: self.theta,
        }
    }

    /// The parameters after an entry for `theta`: the entry is clamped to the
    /// range from zero to infinity.
    pub open spec fn with_theta(self, value: Double) -> GammaParams {
        GammaParams {
            k: self.k,
            theta: value.clamp_spec(Double::zero(), Double::infinity()),
        }
    }

    /// The parameters after one refresh of the editor: the entry for `k` is
    /// taken first, then the entry for `theta`.
    pub open spec fn edited(self, k: Option<Double>, theta: Option<Double>) -> GammaParams {
        let first = match k {
            Some(value) => self.with_k(value),
            None => self,
        };
        match theta {
            Some(value) => first.with_theta(value),
            None => first,
        }
    }

    /// The parameters after a run of refreshes, each given by its two entries.
    pub open spec fn after(self, entries: Seq<(Option<Double>, Option<Double>)>) -> GammaParams
        decreases entries.len(),
    {
        if entries.len() == 0 {
            self
        } else {
            self.after(entries.drop_last()).edited(entries.last().0, entries.last().1)
        }
    }

    /// Whether `fields` are the two fields of the editor for these
    /// parameters: `k` first, each under its own name, with the number it
    /// holds and the range to which its entries are clamped.
    pub open spec fn shown_as(self, fields: [Field; 2]) -> bool {
        &&& fields[0].prefix@ == "k: "@
        &&& fields[0].value == self.k
        &&& fields[0].min == Double::zero()
        &&& fields[0].max == Double::infinity()
        &&& fields[1].prefix@ == "theta: "@
        &&& fields[1].value == self.theta
        &&& fields[1].min == Double::zero()
        &&& fields[1].max == Double::infinity()
    }

    /// The question about the distribution with these parameters for one
    /// function at `x`.
    pub open spec fn query(self, curve: Curve, x: Double) -> Query {
        Query { family: Family::Gamma, first: self.k, second: self.theta, curve, x }
    }

    /// Whether the parameters lie in the domain.
    pub fn is_in_domain(&self) -> (b: bool)
        ensures
            b == self.in_domain(),
    {
        Double::zero().total_le(self.k) && self.k.total_le(Double::infinity())
            && Double::zero().total_le(self.theta) && self.theta.total_le(Double::infinity())
    }
}

/// Whatever is entered, and however often, the parameters stay in the domain:
/// neither `k` nor `theta` ever becomes negative or stops being a number.
pub proof fn lemma_gamma_edits_stay_in_domain(
    params: GammaParams,
    entries: Seq<(Option<Double>, Option<Double>)>,
)
    requires
        params.in_domain(),
    ensures
        params.after(entries).in_domain(),
        !params.after(entries).k.is_negative(),
        params.after(entries).k.scaled() >= 0,
        !params.after(entries).k.is_nan(),
        !params.after(entries).theta.is_negative(),
        params.after(entries).theta.scaled() >= 0,
        !params.after(entries).theta.is_nan(),
    decreases entries.len(),
{
    if entries.len() > 0 {
        lemma_gamma_edits_stay_in_domain(params, entries.drop_last());
    }
    let end = params.after(entries);
    lemma_rank_orders_numbers(Double::zero(), end.k);
    lemma_rank_orders_numbers(Double::zero(), end.theta);
}

/// A gamma distribution. Its parameters are always in the domain.
#[derive(Clone, Copy, Debug, PartialEq, Eq)]
pub struct Gamma {
    params: GammaParams,
}

impl View for Gamma {
    type V = GammaParams;

    closed spec fn view(&self) -> GammaParams {
        self.params
    }
}

impl Default for Gamma {
    /// The gamma distribution with shape 2 and scale 1.
    fn default() -> (r: Self)
        ensures
            r@ == GammaParams::initial(),
    {
        Gamma { params: GammaParams { k: Double::two(), theta: Double::one() } }
    }
}

impl Gamma {
    #[verifier::type_invariant]
    spec fn inv(self) -> bool {
        self.params.in_domain()
    }

    /// The distribution with the given parameters, where they lie in the
    /// domain.
    pub fn new(params: GammaParams) -> (r: Option<Self>)
        ensures
            r.is_some() == params.in_domain(),
            r.is_some() ==> r.unwrap()@ == params,
    {
        if params.is_in_domain() {
            Some(Gamma { params })
        } else {
            None
        }
    }

    /// The parameters, which lie in the domain.
    pub fn params(&self) -> (r: GammaParams)
        ensures
            r == self@,
            r.in_domain(),
    {
        proof {
            use_type_invariant(self);
        }
        self.params
    }

    /// The shape.
    pub fn k(&self) -> (r: Double)
        ensures
            r == self@.k,
    {
        self.params.k
    }

    /// The scale.
    pub fn theta(&self) -> (r: Double)
        ensures
            r == self@.theta,
    {
        self.params.theta
    }

    /// The name under which the family is offered.
    pub fn name(&self) -> (r: &'static str)
        ensures
            r@ == "Gamma"@,
    {
        "Gamma"
    }

    /// The two fields of the editor, `k` first, each with the range to which
    /// its entries are clamped.
    pub fn fields(&self) -> (r: [Field; 2])
        ensures
            self@.shown_as(r),
    {
        [
            Field {
                prefix: "k: ",
                value: self.params.k,
                min: Double::zero(),
                max: Double::infinity(),
            },
            Field {
                prefix: "theta: ",
                value: self.params.theta,
                min: Double::zero(),
                max: Double::infinity(),
            },
        ]
    }

    /// Takes an entry for `k`, clamped to its range.
    pub fn set_k(&mut self, value: Double)
        ensures
            final(self)@ == old(self)@.with_k(value),
            final(self)@.in_domain(),
    {
        proof {
            use_type_invariant(&*self);
        }
        self.params.k = value.clamp(Double::zero(), Double::infinity());
    }

    /// Takes an entry for `theta`, clamped to its range: a negative entry
    /// becomes zero.
    pub fn set_theta(&mut self, value: Double)
        ensures
            final(self)@ == old(self)@.with_theta(value),
            final(self)@.in_domain(),
    {
        proof {
            use_type_invariant(&*self);
        }
        self.params.theta = value.clamp(Double::zero(), Double::infinity());
    }

    /// One refresh of the editor: takes the entries that were made, the one
    /// for `k` first.
    pub fn ui(&mut self, k: Option<Double>, theta: Option<Double>)
        ensures
            final(self)@ == old(self)@.edited(k, theta),
            final(self)@.in_domain(),
    {
        proof {
            use_type_invariant(&*self);
        }
        if let Some(value) = k {
            self.set_k(value);
        }
        if let Some(value) = theta {
            self.set_theta(value);
        }
    }

    /// The density at every value of the grid `x`.
    pub fn calculate_pdf<M: Fn(Query) -> Double>(&self, x: Vec<Double>, math: &M) -> (points: Vec<
        [Double; 2],
    >)
        requires
            forall|i: int|
                0 <= i < x.len() ==> call_requires(
                    *math,
                    (self@.query(Curve::Pdf, #[trigger] x[i]),),
                ),
        ensures
            is_curve_over(points@, Family::Gamma, self@.k, self@.theta, Curve::Pdf, x@, *math),
    {
        evaluate(Family::Gamma, self.params.k, self.params.theta, Curve::Pdf, x, math)
    }

    /// The cumulative function at every value of the grid `x`.
    pub fn calculate_cdf<M: Fn(Query) -> Double>(&self, x: Vec<Double>, math: &M) -> (points: Vec<
        [Double; 2],
    >)
        requires
            forall|i: int|
                0 <= i < x.len() ==> call_requires(
                    *math,
                    (self@.query(Curve::Cdf, #[trigger] x[i]),),
                ),
        ensures
            is_curve_over(points@, Family::Gamma, self@.k, self@.theta, Curve::Cdf, x@, *math),
    {
        evaluate(Family::Gamma, self.params.k, self.params.theta, Curve::Cdf, x, math)
    }

    /// The chart of the distribution over the fixed domain.
    pub fn plot<L: Fn(Double, Double, usize) -> Vec<Double>, M: Fn(Query) -> Double>(
        &self,
        linspace: &L,
        math: &M,
    ) -> (r: Chart)
        requires
            call_requires(*linspace, (Double::ten().neg(), Double::ten(), GRID_POINTS)),
            forall|curve: Curve, x: Double| call_requires(*math, (self@.query(curve, x),)),
        ensures
            is_chart_of(r, Family::Gamma, self@.k, self@.theta, *linspace, *math),
    {
        assert forall|curve: Curve, x: Double|
            call_requires(
                *math,
                (
                    Query {
                        family: Family::Gamma,
                        first: self.params.k,
                        second: self.params.theta,
                        curve,
                        x,
                    },
                ),
            ) by {
            assert(call_requires(*math, (self@.query(curve, x),)));
        }
        chart(Family::Gamma, self.params.k, self.params.theta, linspace, math)
    }
}

} // verus!
