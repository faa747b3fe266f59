//! The state of the viewer: the one distribution that is selected, how it is
//! saved and restored, and what one refresh does to it.

use vstd::prelude::*;
use crate::curve::{is_chart_of, Chart, Curve, Family, Query, GRID_POINTS};
use crate::double::{lemma_named_numbers, Double};
use crate::field::Field;
use crate::gamma::{Gamma, GammaParams};
use crate::gaussian::{Gaussian, GaussianParams};
use crate::lognormal::{LogNormal, LogNormalParams};
use crate::uniform::{Uniform, UniformParams};

verus! {

/// The family and the parameters of a distribution, as plain values. This is
/// what is saved, and what a distribution is restored from.
#[derive(Clone, Copy, Debug, PartialEq, Eq, Structural)]
pub enum Parameters {
    Uniform(UniformParams),
    Gaussian(GaussianParams),
    Gamma(GammaParams),
    LogNormal(LogNormalParams),
}

impl Parameters {
    /// The family.
    pub open spec fn family(self) -> Family {
        match self {
            Parameters::Uniform(_) => Family::Uniform,
            Parameters::Gaussian(_) => Family::Gaussian,
            Parameters::Gamma(_) => Family::Gamma,
            Parameters::LogNormal(_) => Family::LogNormal,
        }
    }

    /// The first parameter, in the order of the editor.
    pub open spec fn first(self) -> Double {
        match self {
            Parameters::Uniform(p) => p.lower_bound,
            Parameters::Gaussian(p) => p.mu,
            Parameters::Gamma(p) => p.k,
            Parameters::LogNormal(p) => p.mu,
        }
    }

    /// The second parameter, in the order of the editor.
    pub open spec fn second(self) -> Double {
        match self {
            Parameters::Uniform(p) => p.upper_bound,
            Parameters::Gaussian(p) => p.sigma,
            Parameters::Gamma(p) => p.theta,
            Parameters::LogNormal(p) => p.sigma,
        }
    }

    /// Whether the parameters lie in the domain of their family.
    pub open spec fn in_domain(self) -> bool {
        match self {
            Parameters::Uniform(p) => p.in_domain(),
            Parameters::Gaussian(p) => p.in_domain(),
            Parameters::Gamma(p) => p.in_domain(),
            Parameters::LogNormal(p) => p.in_domain(),
        }
    }

    /// Whether `fields` are the two fields of the editor for these parameters.
    pub open spec fn shown_as(self, fields: [Field; 2]) -> bool {
        match self {
            Parameters::Uniform(p) => p.shown_as(fields),
            Parameters::Gaussian(p) => p.shown_as(fields),
            Parameters::Gamma(p) => p.shown_as(fields),
            Parameters::LogNormal(p) => p.shown_as(fields),
        }
    }

    /// The question about the distribution with these parameters for one
    /// function at `x`.
    pub open spec fn query(self, curve: Curve, x: Double) -> Query {
        Query { family: self.family(), first: self.first(), second: self.second(), curve, x }
    }

    /// The parameters that a fresh distribution of the family has.
    pub open spec fn initial(family: Family) -> Parameters {
        match family {
            Family::Uniform => Parameters::Uniform(UniformParams::initial()),
            Family::Gaussian => Parameters::Gaussian(GaussianParams::initial()),
            Family::Gamma => Parameters::Gamma(GammaParams::initial()),
            Family::LogNormal => Parameters::LogNormal(LogNormalParams::initial()),
        }
    }

    /// The parameters after one refresh of the editor, with the entries for
    /// the first and the second field.
    pub open spec fn edited(self, first: Option<Double>, second: Option<Double>) -> Parameters {
        match self {
            Parameters::Uniform(p) => Parameters::Uniform(p.edited(first, second)),
            Parameters::Gaussian(p) => Parameters::Gaussian(p.edited(first, second)),
            Parameters::Gamma(p) => Parameters::Gamma(p.edited(first, second)),
            Parameters::LogNormal(p) => Parameters::LogNormal(p.edited(first, second)),
        }
    }

    /// The state after one refresh: a selection puts a fresh distribution of
    /// the selected family in place of the old one, whatever the old one was;
    /// the entries of the editor are then taken by the distribution that is
    /// in place.
    pub open spec fn updated(self, frame: Frame) -> Parameters {
        let start = match frame.selected {
            Some(family) => Parameters::initial(family),
            None => self,
        };
        start.edited(frame.first, frame.second)
    }

    /// The state after a run of refreshes.
    pub open spec fn after(self, frames: Seq<Frame>) -> Parameters
        decreases frames.len(),
    {
        if frames.len() == 0 {
            self
        } else {
            self.after(frames.drop_last()).updated(frames.last())
        }
    }

    /// The state that is restored from what was saved: the saved state where
    /// there is one and it lies in its domain, and otherwise the fresh
    /// uniform distribution.
    pub open spec fn restored(saved: Option<Parameters>) -> Parameters {
        match saved {
            Some(state) => if state.in_domain() {
                state
            } else {
                Parameters::initial(Family::Uniform)
            },
            None => Parameters::initial(Family::Uniform),
        }
    }

    /// Whether the parameters lie in the domain of their family.
    pub fn is_in_domain(&self) -> (b: bool)
        ensures
            b == self.in_domain(),
    {
        match self {
            Parameters::Uniform(p) => p.is_in_domain(),
            Parameters::Gaussian(p) => p.is_in_domain(),
            Parameters::Gamma(p) => p.is_in_domain(),
            Parameters::LogNormal(p) => p.is_in_domain(),
        }
    }
}

/// The name under which a family is offered.
pub open spec fn family_name(family: Family) -> Seq<char> {
    match family {
        Family::Uniform => "Uniform"@,
        Family::Gaussian => "Gaussian"@,
        Family::Gamma => "Gamma"@,
        Family::LogNormal => "LogNormal"@,
    }
}

/// What the user did during one refresh: the family that was selected, if
/// one was, and the numbers that were entered in the two fields of the
/// editor, if any were.
#[derive(Clone, Copy, Debug, PartialEq, Eq, Structural)]
pub struct Frame {
    pub selected: Option<Family>,
    pub first: Option<Double>,
    pub second: Option<Double>,
}

/// A distribution of one of the families.
#[derive(Clone, Copy, Debug, PartialEq, Eq)]
pub enum Distributions {
    Uniform(Uniform),
    Gaussian(Gaussian),
    Gamma(Gamma),
    LogNormal(LogNormal),
}

impl View for Distributions {
    type V = Parameters;

    open spec fn view(&self) -> Parameters {
        match self {
            Distributions::Uniform(d) => Parameters::Uniform(d@),
            Distributions::Gaussian(d) => Parameters::Gaussian(d@),
            Distributions::Gamma(d) => Parameters::Gamma(d@),
            Distributions::LogNormal(d) => Parameters::LogNormal(d@),
        }
    }
}

impl Distributions {
    /// A fresh distribution of the family.
    pub fn fresh(family: Family) -> (r: Self)
        ensures
            r@ == Parameters::initial(family),
    {
        match family {
            Family::Uniform => Distributions::Uniform(Uniform::default()),
            Family::Gaussian => Distributions::Gaussian(Gaussian::default()),
            Family::Gamma => Distributions::Gamma(Gamma::default()),
            Family::LogNormal => Distributions::LogNormal(LogNormal::default()),
        }
    }

    /// The distribution with the given family and parameters, where the
    /// parameters lie in the domain.
    pub fn new(params: Parameters) -> (r: Option<Self>)
        ensures
            r.is_some() == params.in_domain(),
            r.is_some() ==> r.unwrap()@ == params,
    {
        match params {
            Parameters::Uniform(p) => match Uniform::new(p) {
                Some(d) => Some(Distributions::Uniform(d)),
                None => None,
            },
            Parameters::Gaussian(p) => match Gaussian::new(p) {
                Some(d) => Some(Distributions::Gaussian(d)),
                None => None,
            },
            Parameters::Gamma(p) => match Gamma::new(p) {
                Some(d) => Some(Distributions::Gamma(d)),
                None => None,
            },
            Parameters::LogNormal(p) => match LogNormal::new(p) {
                Some(d) => Some(Distributions::LogNormal(d)),
                None => None,
            },
        }
    }

    /// The family and the parameters, which lie in the domain.
    pub fn params(&self) -> (r: Parameters)
        ensures
            r == self@,
            r.in_domain(),
    {
        match self {
            Distributions::Uniform(d) => Parameters::Uniform(d.params()),
            Distributions::Gaussian(d) => Parameters::Gaussian(d.params()),
            Distributions::Gamma(d) => Parameters::Gamma(d.params()),
            Distributions::LogNormal(d) => Parameters::LogNormal(d.params()),
        }
    }

    /// The family.
    pub fn family(&self) -> (r: Family)
        ensures
            r == self@.family(),
    {
        match self {
            Distributions::Uniform(_) => Family::Uniform,
            Distributions::Gaussian(_) => Family::Gaussian,
            Distributions::Gamma(_) => Family::Gamma,
            Distributions::LogNormal(_) => Family::LogNormal,
        }
    }

    /// The name under which the family of the distribution is offered.
    pub fn name(&self) -> (r: &'static str)
        ensures
            r@ == family_name(self@.family()),
    {
        match self {
            Distributions::Uniform(d) => d.name(),
            Distributions::Gaussian(d) => d.name(),
            Distributions::Gamma(d) => d.name(),
            Distributions::LogNormal(d) => d.name(),
        }
    }

    /// The two fields of the editor, each with the range to which its entries
    /// are clamped.
    pub fn fields(&self) -> (r: [Field; 2])
        ensures
            self@.shown_as(r),
    {
        match self {
            Distributions::Uniform(d) => d.fields(),
            Distributions::Gaussian(d) => d.fields(),
            Distributions::Gamma(d) => d.fields(),
            Distributions::LogNormal(d) => d.fields(),
        }
    }

    /// One refresh of the editor: the distribution takes the entries that
    /// were made in its two fields, the first field first.
    pub fn ui(&mut self, first: Option<Double>, second: Option<Double>)
        ensures
            final(self)@ == old(self)@.edited(first, second),
            final(self)@.in_domain(),
    {
        match self {
            Distributions::Uniform(d) => d.ui(first, second),
            Distributions::Gaussian(d) => d.ui(first, second),
            Distributions::Gamma(d) => d.ui(first, second),
            Distributions::LogNormal(d) => d.ui(first, second),
        }
    }

    /// The chart of the distribution over the fixed domain.
    pub fn plot<L: Fn(Double, Double, usize) -> Vec<Double>, M: Fn(Query) -> Double>(
        &self,
        linspace: &L,
        math: &M,
    ) -> (r: Chart)
        requires
            call_requires(*linspace, (Double::ten().neg(), Double::ten(), GRID_POINTS)),
            forall|curve: Curve, x: Double| call_requires(*math, (self@.query(curve, x),)),
        ensures
            is_chart_of(r, self@.family(), self@.first(), self@.second(), *linspace, *math),
    {
        match self {
            Distributions::Uniform(d) => {
                assert forall|curve: Curve, x: Double|
                    call_requires(*math, (d@.query(curve, x),)) by {
                    assert(call_requires(*math, (self@.query(curve, x),)));
                }
                d.plot(linspace, math)
            },
            Distributions::Gaussian(d) => {
                assert forall|curve: Curve, x: Double|
                    call_requires(*math, (d@.query(curve, x),)) by {
                    assert(call_requires(*math, (self@.query(curve, x),)));
                }
                d.plot(linspace, math)
            },
            Distributions::Gamma(d) => {
                assert forall|curve: Curve, x: Double|
                    call_requires(*math, (d@.query(curve, x),)) by {
                    assert(call_requires(*math, (self@.query(curve, x),)));
                }
                d.plot(linspace, math)
            },
            Distributions::LogNormal(d) => {
                assert forall|curve: Curve, x: Double|
                    call_requires(*math, (d@.query(curve, x),)) by {
                    assert(call_requires(*math, (self@.query(curve, x),)));
                }
                d.plot(linspace, math)
            },
        }
    }
}

/// The viewer: exactly one distribution is selected at any time.
#[derive(Clone, Copy, Debug, PartialEq, Eq)]
pub struct VizProbApp {
    distribution: Distributions,
}

impl View for VizProbApp {
    type V = Parameters;

    closed spec fn view(&self) -> Parameters {
        self.distribution@
    }
}

impl Default for VizProbApp {
    /// The viewer with the fresh uniform distribution selected.
    fn default() -> (r: Self)
        ensures
            r@ == Parameters::initial(Family::Uniform),
    {
        VizProbApp { distribution: Distributions::Uniform(Uniform::default()) }
    }
}

impl VizProbApp {
    /// The viewer at startup: with the saved state, where there is one and
    /// it lies in its domain, and with the fresh uniform distribution
    /// otherwise.
    pub fn new(saved: Option<Parameters>) -> (r: Self)
        ensures
            r@ == Parameters::restored(saved),
    {
        match saved {
            Some(state) => match Distributions::new(state) {
                Some(distribution) => VizProbApp { distribution },
                None => VizProbApp::default(),
            },
            None => VizProbApp::default(),
        }
    }

    /// The state to save, which lies in its domain.
    pub fn save(&self) -> (r: Parameters)
        ensures
            r == self@,
            r.in_domain(),
    {
        self.distribution.params()
    }

    /// The distribution that is selected.
    pub fn distribution(&self) -> (r: &Distributions)
        ensures
            r@ == self@,
    {
        &self.distribution
    }

    /// One refresh. A selection puts a fresh distribution of the selected
    /// family in place; the distribution in place takes the entries of the
    /// editor; the chart of the distribution as it then stands is drawn up.
    pub fn update<L: Fn(Double, Double, usize) -> Vec<Double>, M: Fn(Query) -> Double>(
        &mut self,
        frame: Frame,
        linspace: &L,
        math: &M,
    ) -> (chart: Chart)
        requires
            call_requires(*linspace, (Double::ten().neg(), Double::ten(), GRID_POINTS)),
            forall|curve: Curve, x: Double|
                call_requires(*math, (old(self)@.updated(frame).query(curve, x),)),
        ensures
            final(self)@ == old(self)@.updated(frame),
            final(self)@.in_domain(),
            is_chart_of(
                chart,
                final(self)@.family(),
                final(self)@.first(),
                final(self)@.second(),
                *linspace,
                *math,
            ),
    {
        if let Some(family) = frame.selected {
            self.distribution = Distributions::fresh(family);
        }
        self.distribution.ui(frame.first, frame.second);
        self.distribution.plot(linspace, math)
    }
}

/// Saving and restoring gives the same state back: the same family with the
/// same parameters.
pub proof fn lemma_restore_saved(state: Parameters)
    requires
        state.in_domain(),
    ensures
        Parameters::restored(Some(state)) == state,
{
}

/// Selecting a family puts the parameters of a fresh distribution in place,
/// whatever was selected before: -1 and 1 for the uniform distribution, 0
/// and 1 for the Gaussian, 2 and 1 for the gamma, 0 and 1 for the log-normal.
pub proof fn lemma_selection_resets(state: Parameters, family: Family)
    ensures
        state.updated(Frame { selected: Some(family), first: None, second: None })
            == Parameters::initial(family),
        Parameters::initial(family).family() == family,
        Parameters::initial(family).in_domain(),
        Parameters::initial(family).first().is_int(
            match family {
                Family::Uniform => -1,
                Family::Gaussian => 0,
                Family::Gamma => 2,
                Family::LogNormal => 0,
            },
        ),
        Parameters::initial(family).second().is_int(1),
{
    lemma_named_numbers();
}

/// Whatever is selected and entered, and however often, the state stays in
/// the domain of the family that is selected.
pub proof fn lemma_updates_stay_in_domain(state: Parameters, frames: Seq<Frame>)
    requires
        state.in_domain(),
    ensures
        state.after(frames).in_domain(),
    decreases frames.len(),
{
    if frames.len() > 0 {
        lemma_updates_stay_in_domain(state, frames.drop_last());
        let frame = frames.last();
        let start = match frame.selected {
            Some(family) => Parameters::initial(family),
            None => state.after(frames.drop_last()),
        };
        assert(start.in_domain());
        assert(start.edited(frame.first, frame.second).in_domain());
    }
}

} // verus!
