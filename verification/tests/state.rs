use itertools_num::linspace;
use probability::distribution::{Continuous, Distribution};
use vizprob::curve::{Curve, Family, Query};
use vizprob::double::Double;
use vizprob::gamma::GammaParams;
use vizprob::gaussian::GaussianParams;
use vizprob::lognormal::LogNormalParams;
use vizprob::state::{Distributions, Frame, Parameters, VizProbApp};
use vizprob::uniform::UniformParams;

fn d(x: f64) -> Double {
    Double::from_bits(x.to_bits())
}

fn f(x: Double) -> f64 {
    f64::from_bits(x.to_bits())
}

fn math(query: Query) -> Double {
    let (a, b, x) = (f(query.first), f(query.second), f(query.x));
    if !(b > 0.0) || (query.family == Family::Uniform && !(a < b)) {
        return d(f64::NAN);
    }
    if query.family == Family::Gamma && !(a > 0.0) {
        return d(f64::NAN);
    }
    let y = match (query.family, query.curve) {
        (Family::Uniform, Curve::Pdf) => probability::distribution::Uniform::new(a, b).density(x),
        (Family::Uniform, Curve::Cdf) => {
            probability::distribution::Uniform::new(a, b).distribution(x)
        }
        (Family::Gaussian, Curve::Pdf) => probability::distribution::Gaussian::new(a, b).density(x),
        (Family::Gaussian, Curve::Cdf) => {
            probability::distribution::Gaussian::new(a, b).distribution(x)
        }
        (Family::Gamma, Curve::Pdf) => probability::distribution::Gamma::new(a, b).density(x),
        (Family::Gamma, Curve::Cdf) => probability::distribution::Gamma::new(a, b).distribution(x),
        (Family::LogNormal, Curve::Pdf) => {
            probability::distribution::Lognormal::new(a, b).density(x)
        }
        (Family::LogNormal, Curve::Cdf) => {
            probability::distribution::Lognormal::new(a, b).distribution(x)
        }
    };
    d(y)
}

fn spaced(min: Double, max: Double, n: usize) -> Vec<Double> {
    linspace::<f64>(f(min), f(max), n).map(d).collect()
}

fn idle() -> Frame {
    Frame { selected: None, first: None, second: None }
}

fn select(family: Family) -> Frame {
    Frame { selected: Some(family), first: None, second: None }
}

fn uniform(lower_bound: f64, upper_bound: f64) -> Parameters {
    Parameters::Uniform(UniformParams { lower_bound: d(lower_bound), upper_bound: d(upper_bound) })
}

fn gaussian(mu: f64, sigma: f64) -> Parameters {
    Parameters::Gaussian(GaussianParams { mu: d(mu), sigma: d(sigma) })
}

fn gamma(k: f64, theta: f64) -> Parameters {
    Parameters::Gamma(GammaParams { k: d(k), theta: d(theta) })
}

fn lognormal(mu: f64, sigma: f64) -> Parameters {
    Parameters::LogNormal(LogNormalParams { mu: d(mu), sigma: d(sigma) })
}

#[test]
fn default_state_is_uniform_minus_one_to_one() {
    assert_eq!(VizProbApp::default().save(), uniform(-1.0, 1.0));
    assert_eq!(VizProbApp::default().distribution().name(), "Uniform");
    assert_eq!(VizProbApp::default().distribution().family(), Family::Uniform);
}

#[test]
fn new_without_saved_state_is_the_default() {
    assert_eq!(VizProbApp::new(None), VizProbApp::default());
}

#[test]
fn new_restores_a_saved_state() {
    for saved in [uniform(-3.0, 8.0), gaussian(2.0, 0.5), gamma(9.0, 0.5), lognormal(-1.0, 3.0)] {
        assert_eq!(VizProbApp::new(Some(saved)).save(), saved);
    }
}

#[test]
fn new_falls_back_on_a_corrupt_state() {
    for saved in [
        uniform(3.0, -8.0),
        uniform(f64::NAN, 1.0),
        gaussian(2.0, -0.5),
        gaussian(f64::NAN, 1.0),
        gamma(-9.0, 0.5),
        gamma(9.0, f64::NAN),
        lognormal(-1.0, -3.0),
    ] {
        assert_eq!(VizProbApp::new(Some(saved)), VizProbApp::default());
    }
}

#[test]
fn saving_and_restoring_gives_the_state_back() {
    let mut app = VizProbApp::default();
    let frames = [
        idle(),
        Frame { selected: None, first: Some(d(-4.0)), second: Some(d(2.5)) },
        select(Family::Gamma),
        Frame { selected: None, first: Some(d(7.0)), second: None },
        Frame { selected: Some(Family::LogNormal), first: None, second: Some(d(0.125)) },
        select(Family::Gaussian),
        Frame { selected: None, first: Some(d(-0.0)), second: Some(d(f64::INFINITY)) },
    ];
    for frame in frames {
        app.update(frame, &spaced, &math);
        let again = VizProbApp::new(Some(app.save()));
        assert_eq!(again, app);
        assert_eq!(again.save(), app.save());
    }
}

#[test]
fn selecting_resets_to_the_defaults() {
    let mut app = VizProbApp::default();
    let wide = Frame { selected: None, first: Some(d(-5.0)), second: Some(d(5.0)) };
    app.update(wide, &spaced, &math);
    assert_eq!(app.save(), uniform(-5.0, 5.0));
    app.update(select(Family::Gaussian), &spaced, &math);
    assert_eq!(app.save(), gaussian(0.0, 1.0));
    app.update(select(Family::Gamma), &spaced, &math);
    assert_eq!(app.save(), gamma(2.0, 1.0));
    app.update(select(Family::LogNormal), &spaced, &math);
    assert_eq!(app.save(), lognormal(0.0, 1.0));
    app.update(select(Family::Uniform), &spaced, &math);
    assert_eq!(app.save(), uniform(-1.0, 1.0));
}

#[test]
fn selecting_the_same_family_resets_too() {
    let mut app = VizProbApp::default();
    app.update(select(Family::Gamma), &spaced, &math);
    let entries = Frame { selected: None, first: Some(d(9.0)), second: Some(d(0.5)) };
    app.update(entries, &spaced, &math);
    assert_eq!(app.save(), gamma(9.0, 0.5));
    app.update(select(Family::Gamma), &spaced, &math);
    assert_eq!(app.save(), gamma(2.0, 1.0));
}

#[test]
fn entries_go_to_the_family_just_selected() {
    let mut app = VizProbApp::default();
    let frame =
        Frame { selected: Some(Family::Gaussian), first: Some(d(3.0)), second: Some(d(-2.0)) };
    app.update(frame, &spaced, &math);
    assert_eq!(app.save(), gaussian(3.0, 0.0));
}

#[test]
fn idle_refresh_changes_nothing() {
    let mut app = VizProbApp::new(Some(gamma(9.0, 0.5)));
    let before = app;
    app.update(idle(), &spaced, &math);
    assert_eq!(app, before);
}

#[test]
fn update_clamps_entries() {
    let mut app = VizProbApp::default();
    app.update(Frame { selected: None, first: Some(d(4.0)), second: None }, &spaced, &math);
    assert_eq!(app.save(), uniform(1.0, 1.0));
    let both = Frame { selected: None, first: Some(d(-4.0)), second: Some(d(-9.0)) };
    app.update(both, &spaced, &math);
    assert_eq!(app.save(), uniform(-4.0, -4.0));
}

#[test]
fn update_draws_the_new_state() {
    let mut app = VizProbApp::default();
    let chart = app.update(select(Family::Gamma), &spaced, &math);
    assert_eq!(chart.pdf.name, "pdf");
    assert_eq!(chart.cdf.name, "cdf");
    assert_eq!(chart.pdf.points.len(), 1000);
    assert_eq!(chart.cdf.points.len(), 1000);
    let grid: Vec<f64> = linspace::<f64>(-10.0, 10.0, 1000).collect();
    let expected = probability::distribution::Gamma::new(2.0, 1.0);
    for i in 0..1000 {
        assert_eq!(f(chart.pdf.points[i][0]), grid[i]);
        assert_eq!(f(chart.pdf.points[i][1]), expected.density(grid[i]));
        assert_eq!(f(chart.cdf.points[i][0]), grid[i]);
        assert_eq!(f(chart.cdf.points[i][1]), expected.distribution(grid[i]));
    }
}

#[test]
fn state_stays_in_its_domain() {
    let entries = [None, Some(-3.0), Some(0.0), Some(f64::NAN), Some(2.0), Some(-f64::NAN)];
    let families = [
        None,
        Some(Family::Uniform),
        Some(Family::Gaussian),
        Some(Family::Gamma),
        Some(Family::LogNormal),
    ];
    let mut app = VizProbApp::default();
    for (i, first) in entries.iter().enumerate() {
        for (j, second) in entries.iter().enumerate() {
            let frame = Frame {
                selected: families[(i + 2 * j) % families.len()],
                first: first.map(d),
                second: second.map(d),
            };
            app.update(frame, &spaced, &math);
            let state = app.save();
            assert!(state.is_in_domain());
            match state {
                Parameters::Uniform(p) => assert!(f(p.lower_bound) <= f(p.upper_bound)),
                Parameters::Gaussian(p) => assert!(f(p.sigma) >= 0.0 && !f(p.mu).is_nan()),
                Parameters::Gamma(p) => assert!(f(p.k) >= 0.0 && f(p.theta) >= 0.0),
                Parameters::LogNormal(p) => assert!(f(p.sigma) >= 0.0 && !f(p.mu).is_nan()),
            }
        }
    }
}

#[test]
fn distributions_of_each_family() {
    for (family, name, first, second) in [
        (Family::Uniform, "Uniform", -1.0, 1.0),
        (Family::Gaussian, "Gaussian", 0.0, 1.0),
        (Family::Gamma, "Gamma", 2.0, 1.0),
        (Family::LogNormal, "LogNormal", 0.0, 1.0),
    ] {
        let fresh = Distributions::fresh(family);
        assert_eq!(fresh.family(), family);
        assert_eq!(fresh.name(), name);
        let fields = fresh.fields();
        assert_eq!(fields[0].value.to_bits(), f64::to_bits(first));
        assert_eq!(fields[1].value.to_bits(), f64::to_bits(second));
        assert_eq!(Distributions::new(fresh.params()), Some(fresh));
    }
}

#[test]
fn distributions_new_wants_the_domain() {
    assert!(Distributions::new(gamma(9.0, 0.5)).is_some());
    assert!(Distributions::new(gamma(9.0, -0.5)).is_none());
    assert!(Distributions::new(uniform(1.0, -1.0)).is_none());
    assert!(!uniform(1.0, -1.0).is_in_domain());
    assert!(uniform(-1.0, 1.0).is_in_domain());
}

#[test]
fn distributions_ui_and_plot() {
    let mut dist = Distributions::fresh(Family::LogNormal);
    dist.ui(Some(d(0.5)), Some(d(-1.0)));
    assert_eq!(dist.params(), lognormal(0.5, 0.0));
    dist.ui(None, Some(d(2.0)));
    let chart = dist.plot(&spaced, &math);
    let expected = probability::distribution::Lognormal::new(0.5, 2.0);
    let grid: Vec<f64> = linspace::<f64>(-10.0, 10.0, 1000).collect();
    assert_eq!(f(chart.pdf.points[700][1]), expected.density(grid[700]));
    assert_eq!(f(chart.cdf.points[700][1]), expected.distribution(grid[700]));
}
