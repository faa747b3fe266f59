//! Curves: what is asked of the closed formulas, and the evaluation of a
//! family's density or cumulative function over a grid.
//!
//! The formulas are not part of this library. Every function here that needs
//! one takes it as an argument, hands it a `Query`, and says in its contract
//! which queries it makes and where each answer ends up.

use vstd::prelude::*;
use crate::double::Double;

verus! {

/// The families of distributions.
#[derive(Clone, Copy, Debug, PartialEq, Eq, Structural)]
pub enum Family {
    Uniform,
    Gaussian,
    Gamma,
    LogNormal,
}

/// The two functions of a distribution that are drawn.
#[derive(Clone, Copy, Debug, PartialEq, Eq, Structural)]
pub enum Curve {
    /// The probability density function.
    Pdf,
    /// The cumulative distribution function.
    Cdf,
}

/// One question to the closed formulas: the value at `x` of one function of
/// the distribution of `family` with the parameters `first` and `second`.
#[derive(Clone, Copy, Debug, PartialEq, Eq, Structural)]
pub struct Query {
    pub family: Family,
    pub first: Double,
    pub second: Double,
    pub curve: Curve,
    pub x: Double,
}

/// The number of grid values over which the curves are drawn.
pub const GRID_POINTS: usize = 1000;

/// A line of a chart: its label and its points, each an x and a y.
#[derive(Debug, PartialEq, Eq)]
pub struct Series {
    pub name: &'static str,
    pub points: Vec<[Double; 2]>,
}

/// What is drawn for a distribution: its density and its cumulative function
/// over one grid.
#[derive(Debug, PartialEq, Eq)]
pub struct Chart {
    pub pdf: Series,
    pub cdf: Series,
}

/// Whether `grid` is an answer of `linspace` for the fixed domain of the
/// charts: 1000 values from -10 to 10.
pub open spec fn is_grid<L: Fn(Double, Double, usize) -> Vec<Double>>(
    grid: Vec<Double>,
    linspace: L,
) -> bool {
    call_ensures(linspace, (Double::ten().neg(), Double::ten(), GRID_POINTS), grid)
}

/// Whether `chart` is the chart of the distribution with the given parameters:
/// a line labelled "pdf" and a line labelled "cdf", both over one grid that
/// `linspace` gave for the fixed domain, with the answers of `math`.
pub open spec fn is_chart_of<L: Fn(Double, Double, usize) -> Vec<Double>, M: Fn(Query) -> Double>(
    chart: Chart,
    family: Family,
    first: Double,
    second: Double,
    linspace: L,
    math: M,
) -> bool {
    &&& chart.pdf.name@ == "pdf"@
    &&& chart.cdf.name@ == "cdf"@
    &&& exists|grid: Vec<Double>|
        {
            &&& #[trigger] is_grid(grid, linspace)
            &&& is_curve_over(chart.pdf.points@, family, first, second, Curve::Pdf, grid@, math)
            &&& is_curve_over(chart.cdf.points@, family, first, second, Curve::Cdf, grid@, math)
        }
}

/// Whether `points` is the curve over the grid `x` that `math` gives for the
/// parameters: one point for each grid value, in the order of the grid, with
/// the grid value itself as first coordinate and an answer of `math` to the
/// query at that grid value as second.
pub open spec fn is_curve_over<M: Fn(Query) -> Double>(
    points: Seq<[Double; 2]>,
    family: Family,
    first: Double,
    second: Double,
    curve: Curve,
    x: Seq<Double>,
    math: M,
) -> bool {
    &&& points.len() == x.len()
    &&& forall|i: int|
        0 <= i < x.len() ==> {
            &&& (#[trigger] points[i])[0] == x[i]
            &&& call_ensures(
                math,
                (Query { family, first, second, curve, x: x[i] },),
                points[i][1],
            )
        }
}

/// Evaluates one function of a distribution at every value of the grid `x`.
pub fn evaluate<M: Fn(Query) -> Double>(
    family: Family,
    first: Double,
    second: Double,
    curve: Curve,
    x: Vec<Double>,
    math: &M,
) -> (points: Vec<[Double; 2]>)
    requires
        forall|i: int|
            0 <= i < x.len() ==> call_requires(
                *math,
                (Query { family, first, second, curve, x: #[trigger] x[i] },),
            ),
    ensures
        is_curve_over(points@, family, first, second, curve, x@, *math),
{
    let mut points: Vec<[Double; 2]> = Vec::with_capacity(x.len());
    let mut i: usize = 0;
    while i < x.len()
        invariant
            i <= x.len(),
            forall|j: int|
                0 <= j < x.len() ==> call_requires(
                    *math,
                    (Query { family, first, second, curve, x: #[trigger] x[j] },),
                ),
            is_curve_over(points@, family, first, second, curve, x@.take(i as int), *math),
        decreases x.len() - i,
    {
        let at: Double = x[i];
        let value: Double = math(Query { family, first, second, curve, x: at });
        points.push([at, value]);
        i = i + 1;
    }
    points
}

/// Draws up the chart of a distribution: asks `linspace` for the grid of the
/// fixed domain, and evaluates the density and the cumulative function over it.
pub fn chart<L: Fn(Double, Double, usize) -> Vec<Double>, M: Fn(Query) -> Double>(
    family: Family,
    first: Double,
    second: Double,
    linspace: &L,
    math: &M,
) -> (chart: Chart)
    requires
        call_requires(*linspace, (Double::ten().neg(), Double::ten(), GRID_POINTS)),
        forall|curve: Curve, x: Double|
            call_requires(*math, (Query { family, first, second, curve, x },)),
    ensures
        is_chart_of(chart, family, first, second, *linspace, *math),
{
    let grid: Vec<Double> = linspace(Double::ten().neg(), Double::ten(), GRID_POINTS);
    assert(is_grid(grid, *linspace));
    let again: Vec<Double> = copy_of(&grid);
    let pdf: Vec<[Double; 2]> = evaluate(family, first, second, Curve::Pdf, again, math);
    let cdf: Vec<[Double; 2]> = evaluate(family, first, second, Curve::Cdf, grid, math);
    Chart { pdf: Series { name: "pdf", points: pdf }, cdf: Series { name: "cdf", points: cdf } }
}

/// A second vector with the same values.
fn copy_of(x: &Vec<Double>) -> (r: Vec<Double>)
    ensures
        r@ == x@,
{
    let mut r: Vec<Double> = Vec::with_capacity(x.len());
    let mut i: usize = 0;
    while i < x.len()
        invariant
            i <= x.len(),
            r@ == x@.take(i as int),
        decreases x.len() - i,
    {
        r.push(x[i]);
        i = i + 1;
    }
    r
}

} // verus!
