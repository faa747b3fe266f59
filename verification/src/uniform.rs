//! The uniform distribution on an interval.

use vstd::prelude::*;
use crate::curve::{
    chart, evaluate, is_chart_of, is_curve_over, Chart, Curve, Family, Query, GRID_POINTS,
};
use crate::double::{lemma_rank_orders_numbers, Double};
use crate::field::Field;

verus! {

/// The two bounds of a uniform distribution, as plain values.
#[derive(Clone, Copy, Debug, PartialEq, Eq, Structural)]
pub struct UniformParams {
    pub lower_bound: Double,
    pub upper_bound: Double,
}

impl UniformParams {
    /// The domain: both bounds are numbers, and the lower bound does not come
    /// after the upper bound in the total order.
    pub open spec fn in_domain(self) -> bool {
        Double::neg_infinity().rank() <= self.lower_bound.rank()
            <= self.upper_bound.rank() <= Double::infinity().rank()
    }

    /// The bounds that a fresh uniform distribution has: -1 and 1.
    pub open spec fn initial() -> UniformParams {
        UniformParams { lower_bound: Double::one().neg(), upper_bound: Double::one() }
    }

    /// The bounds after an entry for the lower bound: the entry is clamped
    /// to the range that ends at the upper bound.
    pub open spec fn with_lower_bound(self, value: Double) -> UniformParams {
        UniformParams {
            lower_bound: value.clamp_spec(Double::neg_infinity(), self.upper_bound),
            upper_bound: self.upper_bound,
        }
    }

    /// The bounds after an entry for the upper bound: the entry is clamped
    /// to the range that starts at the lower bound.
    pub open spec fn with_upper_bound(self, value: Double) -> UniformParams {
        UniformParams {
            lower_bound: self.lower_bound,
            upper_bound: value.clamp_spec(self.lower_bound, Double::infinity()),
        }
    }

    /// The bounds after one refresh of the editor: the entry for the lower
    /// bound is taken first, then the entry for the upper bound.
    pub open spec fn edited(
        self,
        lower_bound: Option<Double>,
        upper_bound: Option<Double>,
    ) -> UniformParams {
        let first = match lower_bound {
            Some(value) => self.with_lower_bound(value),
            None => self,
        };
        match upper_bound {
            Some(value) => first.with_upper_bound(value),
            None => first,
        }
    }

    /// The bounds after a run of refreshes, each given by its two entries.
    pub open spec fn after(self, entries: Seq<(Option<Double>, Option<Double>)>) -> UniformParams
        decreases entries.len(),
    {
        if entries.len() == 0 {
            self
        } else {
            self.after(entries.drop_last()).edited(entries.last().0, entries.last().1)
        }
    }

    /// Whether `fields` are the two fields of the editor for these bounds: the
    /// lower bound first, each under its own name, with the number it holds
    /// and the range to which its entries are clamped. The lower bound can be
    /// moved up to the upper bound, the upper bound down to the lower.
    pub open spec fn shown_as(self, fields: [Field; 2]) -> bool {
        &&& fields[0].prefix@ == "Lower bound: "@
        &&& fields[0].value == self.lower_bound
        &&& fields[0].min == Double::neg_infinity()
        &&& fields[0].max == self.upper_bound
        &&& fields[1].prefix@ == "Upper bound: "@
        &&& fields[1].value == self.upper_bound
        &&& fields[1].min == self.lower_bound
        &&& fields[1].max == Double::infinity()
    }

    /// The question about the distribution with these bounds for one function
    /// at `x`.
    pub open spec fn query(self, curve: Curve, x: Double) -> Query {
        Query {
            family: Family::Uniform,
            first: self.lower_bound,
            second: self.upper_bound,
            curve,
            x,
        }
    }

    /// Whether the bounds lie in the domain.
    pub fn is_in_domain(&self) -> (b: bool)
        ensures
            b == self.in_domain(),
    {
        Double::neg_infinity().total_le(self.lower_bound) && self.lower_bound.total_le(
            self.upper_bound,
        ) && self.upper_bound.total_le(Double::infinity())
    }
}

/// Whatever is entered, and however often, the bounds stay in the domain: both
/// are numbers, and the lower bound is never above the upper bound.
pub proof fn lemma_uniform_edits_stay_in_domain(
    params: UniformParams,
    entries: Seq<(Option<Double>, Option<Double>)>,
)
    requires
        params.in_domain(),
    ensures
        params.after(entries).in_domain(),
        !params.after(entries).lower_bound.is_nan(),
        !params.after(entries).upper_bound.is_nan(),
        params.after(entries).lower_bound.scaled() <= params.after(entries).upper_bound.scaled(),
    decreases entries.len(),
{
    if entries.len() > 0 {
        lemma_uniform_edits_stay_in_domain(params, entries.drop_last());
    }
    let end = params.after(entries);
    lemma_rank_orders_numbers(end.lower_bound, end.upper_bound);
}

/// An entry that would carry one bound across the other is absorbed: the
/// edited bound stops at the other bound, which stays where it was.
pub proof fn lemma_crossing_entry_is_absorbed(params: UniformParams, value: Double)
    requires
        params.in_domain(),
    ensures
        value.rank() > params.upper_bound.rank() ==> {
            &&& params.with_lower_bound(value).lower_bound == params.upper_bound
            &&& params.with_lower_bound(value).upper_bound == params.upper_bound
        },
        value.rank() < params.lower_bound.rank() ==> {
            &&& params.with_upper_bound(value).lower_bound == params.lower_bound
            &&& params.with_upper_bound(value).upper_bound == params.lower_bound
        },
{
}

/// A uniform distribution. Its bounds are always in the domain.
#[derive(Clone, Copy, Debug, PartialEq, Eq)]
pub struct Uniform {
    params: UniformParams,
}

impl View for Uniform {
    type V = UniformParams;

    closed spec fn view(&self) -> UniformParams {
        self.params
    }
}

impl Default for Uniform {
    /// The uniform distribution between -1 and 1.
    fn default() -> (r: Self)
        ensures
            r@ == UniformParams::initial(),
    {
        Uniform {
            params: UniformParams { lower_bound: Double::one().neg(), upper_bound: Double::one() },
        }
    }
}

impl Uniform {
    #[verifier::type_invariant]
    spec fn inv(self) -> bool {
        self.params.in_domain()
    }

    /// The uniform distribution with the given bounds, where they lie in the
    /// domain.
    pub fn new(params: UniformParams) -> (r: Option<Self>)
        ensures
            r.is_some() == params.in_domain(),
            r.is_some() ==> r.unwrap()@ == params,
    {
        if params.is_in_domain() {
            Some(Uniform { params })
        } else {
            None
        }
    }

    /// The bounds, which lie in the domain.
    pub fn params(&self) -> (r: UniformParams)
        ensures
            r == self@,
            r.in_domain(),
    {
        proof {
            use_type_invariant(self);
        }
        self.params
    }

    /// The lower bound.
    pub fn lower_bound(&self) -> (r: Double)
        ensures
            r == self@.lower_bound,
    {
        self.params.lower_bound
    }

    /// The upper bound.
    pub fn upper_bound(&self) -> (r: Double)
        ensures
            r == self@.upper_bound,
    {
        self.params.upper_bound
    }

    /// The name under which the family is offered.
    pub fn name(&self) -> (r: &'static str)
        ensures
            r@ == "Uniform"@,
    {
        "Uniform"
    }

    /// The two fields of the editor, the lower bound first, each with the
    /// range to which its entries are clamped.
    pub fn fields(&self) -> (r: [Field; 2])
        ensures
            self@.shown_as(r),
    {
        [
            Field {
                prefix: "Lower bound: ",
                value: self.params.lower_bound,
                min: Double::neg_infinity(),
                max: self.params.upper_bound,
            },
            Field {
                prefix: "Upper bound: ",
                value: self.params.upper_bound,
                min: self.params.lower_bound,
                max: Double::infinity(),
            },
        ]
    }

    /// Takes an entry for the lower bound. An entry above the upper bound is
    /// absorbed: the lower bound then becomes the upper bound.
    pub fn set_lower_bound(&mut self, value: Double)
        ensures
            final(self)@ == old(self)@.with_lower_bound(value),
            final(self)@.in_domain(),
    {
        proof {
            use_type_invariant(&*self);
        }
        self.params.lower_bound = value.clamp(Double::neg_infinity(), self.params.upper_bound);
    }

    /// Takes an entry for the upper bound. An entry below the lower bound is
    /// absorbed: the upper bound then becomes the lower bound.
    pub fn set_upper_bound(&mut self, value: Double)
        ensures
            final(self)@ == old(self)@.with_upper_bound(value),
            final(self)@.in_domain(),
    {
        proof {
            use_type_invariant(&*self);
        }
        self.params.upper_bound = value.clamp(self.params.lower_bound, Double::infinity());
    }

    /// One refresh of the editor: takes the entries that were made, the one
    /// for the lower bound first.
    pub fn ui(&mut self, lower_bound: Option<Double>, upper_bound: Option<Double>)
        ensures
            final(self)@ == old(self)@.edited(lower_bound, upper_bound),
            final(self)@.in_domain(),
    {
        proof {
            use_type_invariant(&*self);
        }
        if let Some(value) = lower_bound {
            self.set_lower_bound(value);
        }
        if let Some(value) = upper_bound {
            self.set_upper_bound(value);
        }
    }

    /// The density at every value of the grid `x`.
    pub fn calculate_pdf<M: Fn(Query) -> Double>(&self, x: Vec<Double>, math: &M) -> (points: Vec<
        [Double; 2],
    >)
        requires
            forall|i: int|
                0 <= i < x.len() ==> call_requires(
                    *math,
                    (self@.query(Curve::Pdf, #[trigger] x[i]),),
                ),
        ensures
            is_curve_over(
                points@,
                Family::Uniform,
                self@.lower_bound,
                self@.upper_bound,
                Curve::Pdf,
                x@,
                *math,
            ),
    {
        evaluate(
            Family::Uniform,
            self.params.lower_bound,
            self.params.upper_bound,
            Curve::Pdf,
            x,
            math,
        )
    }

    /// The cumulative function at every value of the grid `x`.
    pub fn calculate_cdf<M: Fn(Query) -> Double>(&self, x: Vec<Double>, math: &M) -> (points: Vec<
        [Double; 2],
    >)
        requires
            forall|i: int|
                0 <= i < x.len() ==> call_requires(
                    *math,
                    (self@.query(Curve::Cdf, #[trigger] x[i]),),
                ),
        ensures
            is_curve_over(
                points@,
                Family::Uniform,
                self@.lower_bound,
                self@.upper_bound,
                Curve::Cdf,
                x@,
                *math,
            ),
    {
        evaluate(
            Family::Uniform,
            self.params.lower_bound,
            self.params.upper_bound,
            Curve::Cdf,
            x,
            math,
        )
    }

    /// The chart of the distribution over the fixed domain.
    pub fn plot<L: Fn(Double, Double, usize) -> Vec<Double>, M: Fn(Query) -> Double>(
        &self,
        linspace: &L,
        math: &M,
    ) -> (r: Chart)
        requires
            call_requires(*linspace, (Double::ten().neg(), Double::ten(), GRID_POINTS)),
            forall|curve: Curve, x: Double| call_requires(*math, (self@.query(curve, x),)),
        ensures
            is_chart_of(
                r,
                Family::Uniform,
                self@.lower_bound,
                self@.upper_bound,
                *linspace,
                *math,
            ),
    {
        assert forall|curve: Curve, x: Double|
            call_requires(
                *math,
                (
                    Query {
                        family: Family::Uniform,
                        first: self.params.lower_bound,
                        second: self.params.upper_bound,
                        curve,
                        x,
                    },
                ),
            ) by {
            assert(call_requires(*math, (self@.query(curve, x),)));
        }
        chart(Family::Uniform, self.params.lower_bound, self.params.upper_bound, linspace, math)
    }
}

} // verus!
