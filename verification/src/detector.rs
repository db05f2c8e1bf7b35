//! The detection, stage by stage.
//!
//! A detection extends the series, maps the extended series to its saliency,
//! cuts the saliency back to the length of the series, scores it against its
//! local average and flags the scores above the threshold. The numeric work
//! between the stages (the trend value, the saliency map and the scores) is
//! done by the caller; each stage says what it needs and checks what it is
//! handed.

use vstd::prelude::*;
use crate::error::DetectError;
use crate::extrapolator::{extend, extended, plan, spec_plan, spec_trend_window, TrendWindow};
use crate::layout::{trim, trimmed};
use crate::sample::Sample;
use crate::thresholder::{flags_of, threshold};

verus! {

/// The five settings of a detection.
#[derive(Clone, Copy, Debug, PartialEq, Eq, Structural)]
pub struct Hyperparameters {
    /// The window the log-amplitude spectrum is smoothed with.
    pub q: usize,
    /// The window the saliency is averaged with for scoring.
    pub z: usize,
    /// The threshold a score has to exceed to be flagged.
    pub t: Sample,
    /// The number of trailing points the trend is read from.
    pub m: usize,
    /// The number of values added at each end; zero leaves the series as it is.
    pub k: usize,
}

impl Default for Hyperparameters {
    /// The reference settings: windows of 3 and 21, a threshold of 3.0, and
    /// five values added at each end from a trend over five points.
    fn default() -> (r: Hyperparameters)
        ensures
            r.q == 3,
            r.z == 21,
            r.t.bits == 0x4040_0000,
            r.m == 5,
            r.k == 5,
    {
        Hyperparameters { q: 3, z: 21, t: Sample { bits: 0x4040_0000 }, m: 5, k: 5 }
    }
}

/// What a detection gives: for each sample of the series its saliency, its
/// score and its flag.
#[derive(Debug)]
pub struct Detection {
    pub saliency: Vec<Sample>,
    pub score: Vec<Sample>,
    pub flags: Vec<bool>,
}

impl Detection {
    /// Both detections hold the same saliency, scores and flags.
    pub open spec fn agrees(&self, other: &Detection) -> bool {
        &&& self.saliency@ == other.saliency@
        &&& self.score@ == other.score@
        &&& self.flags@ == other.flags@
    }

    /// The three sequences have `n` entries each.
    pub open spec fn aligned(&self, n: nat) -> bool {
        &&& self.saliency@.len() == n
        &&& self.score@.len() == n
        &&& self.flags@.len() == n
    }
}

/// A detection that waits for the trend value of its series.
pub struct Estimating {
    params: Hyperparameters,
    series: Vec<Sample>,
    window: TrendWindow,
}

/// A detection that waits for the saliency map of its extended series.
pub struct Mapping {
    params: Hyperparameters,
    n: usize,
    extended: Vec<Sample>,
}

/// A detection that waits for the scores of its saliency.
pub struct Scoring {
    params: Hyperparameters,
    saliency: Vec<Sample>,
}

/// How a detection starts: with a trend to estimate, or, where nothing is to
/// be added to the series, with the series as it is.
pub enum Started {
    Trend(Estimating),
    Extended(Mapping),
}

/// Starts a detection on `series`.
///
/// With `k == 0` the series is not extended and `m` is not looked at.
/// Otherwise the trend needs `1 <= m <= series.len()`.
pub fn start(params: Hyperparameters, series: Vec<Sample>) -> (r: Result<Started, DetectError>)
    requires
        series.len() + 2 * params.k <= usize::MAX,
    ensures
        r is Err <==> params.k > 0 && (params.m == 0 || params.m > series.len()),
        match r {
            Ok(Started::Extended(mapping)) => {
                &&& spec_plan(series.len(), params.m, params.k) == Ok::<_, DetectError>(None::<TrendWindow>)
                &&& mapping.params() == params
                &&& mapping.n() == series.len()
                &&& mapping.series() == series@
            },
            Ok(Started::Trend(estimating)) => {
                &&& spec_plan(series.len(), params.m, params.k) == Ok::<_, DetectError>(
                    Some(estimating.window()),
                )
                &&& estimating.params() == params
                &&& estimating.series() == series@
            },
            Err(e) => spec_plan(series.len(), params.m, params.k) == Err::<Option<TrendWindow>, _>(e),
        },
{
    match plan(series.len(), params.m, params.k) {
        Err(e) => Err(e),
        Ok(None) => Ok(Started::Extended(Mapping { params, n: series.len(), extended: series })),
        Ok(Some(window)) => Ok(Started::Trend(Estimating { params, series, window })),
    }
}

impl Estimating {
    #[verifier::type_invariant]
    spec fn well_formed(&self) -> bool {
        &&& 1 <= self.params.k
        &&& 1 <= self.params.m <= self.series.len()
        &&& self.series.len() + 2 * self.params.k <= usize::MAX
        &&& self.window == spec_trend_window(self.series.len(), self.params.m)
    }

    /// The settings the detection was started with.
    pub closed spec fn params(&self) -> Hyperparameters {
        self.params
    }

    /// The series the detection was started on.
    pub closed spec fn series(&self) -> Seq<Sample> {
        self.series@
    }

    /// The positions the trend is to be read from.
    pub closed spec fn window(&self) -> TrendWindow {
        self.window
    }

    /// Both stages wait for the trend of the same series under the same
    /// settings.
    pub open spec fn agrees(&self, other: &Estimating) -> bool {
        &&& self.params() == other.params()
        &&& self.series() == other.series()
        &&& self.window() == other.window()
    }

    /// The series whose trend is asked for.
    pub fn samples(&self) -> (r: &[Sample])
        ensures
            r@ == self.series(),
    {
        self.series.as_slice()
    }

    /// The positions of the series that the trend is to be read from. All of
    /// them hold a sample.
    pub fn trend_window(&self) -> (r: TrendWindow)
        ensures
            r == self.window(),
            r == spec_trend_window(self.series().len() as usize, self.params().m),
            r.first <= r.last < self.series().len(),
            r.anchor < self.series().len(),
    {
        proof {
            use_type_invariant(self);
        }
        self.window
    }

    /// Takes the value one trend step ahead of the series and extends the
    /// series by `k` copies of it at each end.
    pub fn extend(self, extra: Sample) -> (r: Mapping)
        ensures
            r.params() == self.params(),
            r.n() == self.series().len(),
            r.series() == extended(self.series(), extra, self.params().k as nat),
    {
        proof {
            use_type_invariant(&self);
        }
        let extended = extend(self.series.as_slice(), extra, self.params.k);
        Mapping { params: self.params, n: self.series.len(), extended }
    }
}

impl Mapping {
    #[verifier::type_invariant]
    spec fn well_formed(&self) -> bool {
        self.extended.len() == self.n + 2 * self.params.k
    }

    /// The settings the detection was started with.
    pub closed spec fn params(&self) -> Hyperparameters {
        self.params
    }

    /// The length of the series the detection was started on.
    pub closed spec fn n(&self) -> nat {
        self.n as nat
    }

    /// The extended series.
    pub closed spec fn series(&self) -> Seq<Sample> {
        self.extended@
    }

    /// Both stages wait for the saliency map of the same extended series
    /// under the same settings.
    pub open spec fn agrees(&self, other: &Mapping) -> bool {
        &&& self.params() == other.params()
        &&& self.n() == other.n()
        &&& self.series() == other.series()
    }

    /// The series whose saliency map is asked for: `k` values longer at each
    /// end than the series the detection was started on.
    pub fn samples(&self) -> (r: &[Sample])
        ensures
            r@ == self.series(),
            r@.len() == self.n() + 2 * self.params().k,
    {
        proof {
            use_type_invariant(self);
        }
        self.extended.as_slice()
    }

    /// The window the saliency map is to smooth the spectrum with.
    pub fn q(&self) -> (r: usize)
        ensures
            r == self.params().q,
    {
        self.params.q
    }

    /// Takes the saliency map of the extended series and cuts the `k` values
    /// at each end off again. A map of another length than the extended
    /// series is refused.
    pub fn trim(self, full: Vec<Sample>) -> (r: Result<Scoring, DetectError>)
        ensures
            match r {
                Ok(scoring) => {
                    &&& full.len() == self.series().len()
                    &&& scoring.params() == self.params()
                    &&& scoring.saliency() == trimmed(full@, self.params().k as nat, self.n())
                    &&& scoring.saliency().len() == self.n()
                },
                Err(e) => {
                    &&& full.len() != self.series().len()
                    &&& e == (DetectError::LengthMismatch {
                        expected: self.series().len() as usize,
                        found: full.len(),
                    })
                },
            },
    {
        proof {
            use_type_invariant(&self);
        }
        if full.len() != self.extended.len() {
            return Err(
                DetectError::LengthMismatch { expected: self.extended.len(), found: full.len() },
            );
        }
        let saliency = trim(full.as_slice(), self.params.k, self.n);
        Ok(Scoring { params: self.params, saliency })
    }
}

impl Scoring {
    /// The settings the detection was started with.
    pub closed spec fn params(&self) -> Hyperparameters {
        self.params
    }

    /// The saliency of the series, sample for sample.
    pub closed spec fn saliency(&self) -> Seq<Sample> {
        self.saliency@
    }

    /// Both stages wait for the scores of the same saliency under the same
    /// settings.
    pub open spec fn agrees(&self, other: &Scoring) -> bool {
        &&& self.params() == other.params()
        &&& self.saliency() == other.saliency()
    }

    /// The saliency whose scores are asked for.
    pub fn samples(&self) -> (r: &[Sample])
        ensures
            r@ == self.saliency(),
    {
        self.saliency.as_slice()
    }

    /// The window the saliency is to be averaged with.
    pub fn z(&self) -> (r: usize)
        ensures
            r == self.params().z,
    {
        self.params.z
    }

    /// Takes the scores and flags those above the threshold. Scores of
    /// another number than the saliency has are refused.
    pub fn finish(self, scores: Vec<Sample>) -> (r: Result<Detection, DetectError>)
        ensures
            match r {
                Ok(d) => {
                    &&& scores.len() == self.saliency().len()
                    &&& d.saliency@ == self.saliency()
                    &&& d.score@ == scores@
                    &&& d.flags@ == flags_of(scores@, self.params().t)
                    &&& d.aligned(self.saliency().len())
                },
                Err(e) => {
                    &&& scores.len() != self.saliency().len()
                    &&& e == (DetectError::LengthMismatch {
                        expected: self.saliency().len() as usize,
                        found: scores.len(),
                    })
                },
            },
    {
        if scores.len() != self.saliency.len() {
            return Err(
                DetectError::LengthMismatch { expected: self.saliency.len(), found: scores.len() },
            );
        }
        let flags = threshold(scores.as_slice(), self.params.t);
        Ok(Detection { saliency: self.saliency, score: scores, flags })
    }
}

/// However the numeric stages answer, a detection that finishes holds one
/// saliency, one score and one flag for each sample of the series it was
/// started on: the saliency is the middle of the map it was handed, the scores
/// are those it was handed, and a sample is flagged exactly where its score
/// exceeds the threshold.
pub proof fn lemma_detection_is_aligned(
    params: Hyperparameters,
    series: Vec<Sample>,
    started: Started,
    extra: Sample,
    mapping: Mapping,
    full: Vec<Sample>,
    scoring: Scoring,
    scores: Vec<Sample>,
    detection: Detection,
)
    requires
        call_ensures(start, (params, series), Ok::<Started, DetectError>(started)),
        match started {
            Started::Trend(estimating) => call_ensures(
                Estimating::extend,
                (estimating, extra),
                mapping,
            ),
            Started::Extended(extended) => extended.agrees(&mapping),
        },
        call_ensures(Mapping::trim, (mapping, full), Ok::<Scoring, DetectError>(scoring)),
        call_ensures(Scoring::finish, (scoring, scores), Ok::<Detection, DetectError>(detection)),
    ensures
        detection.aligned(series@.len()),
        detection.saliency@ == trimmed(full@, params.k as nat, series@.len()),
        detection.score@ == scores@,
        forall|i: int|
            0 <= i < series@.len() ==> detection.flags@[i] == detection.score@[i].spec_exceeds(
                params.t,
            ),
{
}

/// Two results of [`start`] hold the same: the same stage in the same state,
/// or the same error.
pub open spec fn same_start(a: Result<Started, DetectError>, b: Result<Started, DetectError>) -> bool {
    match (a, b) {
        (Ok(Started::Trend(x)), Ok(Started::Trend(y))) => x.agrees(&y),
        (Ok(Started::Extended(x)), Ok(Started::Extended(y))) => x.agrees(&y),
        (Err(e), Err(f)) => e == f,
        _ => false,
    }
}

/// Starting twice on the same series under the same settings gives the same
/// stage, or the same error.
pub proof fn lemma_start_is_determined(
    params: Hyperparameters,
    first: Vec<Sample>,
    second: Vec<Sample>,
    a: Result<Started, DetectError>,
    b: Result<Started, DetectError>,
)
    requires
        first@ == second@,
        call_ensures(start, (params, first), a),
        call_ensures(start, (params, second), b),
    ensures
        same_start(a, b),
{
}

/// Extending the same series by the same value gives the same extended
/// series.
pub proof fn lemma_extend_is_determined(
    first: Estimating,
    second: Estimating,
    extra: Sample,
    a: Mapping,
    b: Mapping,
)
    requires
        first.agrees(&second),
        call_ensures(Estimating::extend, (first, extra), a),
        call_ensures(Estimating::extend, (second, extra), b),
    ensures
        a.agrees(&b),
{
}

/// Cutting the same saliency map back gives the same saliency, or the same
/// refusal.
pub proof fn lemma_trim_is_determined(
    first: Mapping,
    second: Mapping,
    full: Vec<Sample>,
    again: Vec<Sample>,
    a: Result<Scoring, DetectError>,
    b: Result<Scoring, DetectError>,
)
    requires
        first.agrees(&second),
        full@ == again@,
        call_ensures(Mapping::trim, (first, full), a),
        call_ensures(Mapping::trim, (second, again), b),
    ensures
        match (a, b) {
            (Ok(x), Ok(y)) => x.agrees(&y),
            (Err(e), Err(f)) => e == f,
            _ => false,
        },
{
}

/// Finishing on the same scores gives the same saliency, scores and flags, or
/// the same refusal.
pub proof fn lemma_finish_is_determined(
    first: Scoring,
    second: Scoring,
    scores: Vec<Sample>,
    again: Vec<Sample>,
    a: Result<Detection, DetectError>,
    b: Result<Detection, DetectError>,
)
    requires
        first.agrees(&second),
        scores@ == again@,
        call_ensures(Scoring::finish, (first, scores), a),
        call_ensures(Scoring::finish, (second, again), b),
    ensures
        match (a, b) {
            (Ok(x), Ok(y)) => x.agrees(&y),
            (Err(e), Err(f)) => e == f,
            _ => false,
        },
{
}

} // verus!
