//! Navigation initialization: stationary evidence, alignment phases and the
//! choice of the initial heading.
use vstd::prelude::*;

use crate::error::InitializationError;
use crate::ring::FixedRing;
use crate::time::SessionTime;

verus! {

/// Most scores that the stationary classifier averages over.
pub const STATIONARY_WINDOW_CAPACITY: usize = 512;

#[derive(Clone, Copy, Debug, PartialEq, Eq, Structural)]
pub enum InitializationPhase {
    Uninitialized,
    CoarseAligning,
    FineAligning,
    Navigating,
    Invalid,
}

#[derive(Clone, Copy, Debug, PartialEq, Eq, Structural)]
pub enum InitialHeadingSource {
    Supplied,
    Gyrocompass,
    DynamicConstraint,
    Absent,
}

#[derive(Clone, Copy, Debug, PartialEq, Eq, Structural)]
pub struct AlignmentConfig {
    /// Scores that a stationary decision needs.
    pub minimum_window_samples: u16,
    pub minimum_coarse_samples: u32,
    pub minimum_gyrocompass_samples: u32,
    pub gyrocompassing_qualified: bool,
    /// Whether every probability, variance and threshold is in range.
    pub values_are_valid: bool,
}

impl AlignmentConfig {
    pub open spec fn valid(self) -> bool {
        &&& self.values_are_valid
        &&& 0 < self.minimum_window_samples <= STATIONARY_WINDOW_CAPACITY
        &&& 0 < self.minimum_coarse_samples <= self.minimum_gyrocompass_samples
    }

    pub fn validate(&self) -> (r: Result<(), InitializationError>)
        ensures
            r == (if self.valid() {
                Ok::<(), InitializationError>(())
            } else {
                Err(InitializationError::InvalidConfiguration)
            }),
    {
        if self.minimum_window_samples == 0 || self.minimum_window_samples as usize
            > STATIONARY_WINDOW_CAPACITY || self.minimum_coarse_samples == 0
            || self.minimum_gyrocompass_samples < self.minimum_coarse_samples
            || !self.values_are_valid {
            Err(InitializationError::InvalidConfiguration)
        } else {
            Ok(())
        }
    }
}

/// Whether evidence of `evidence_time` is at most `maximum_age_ns` old.
pub open spec fn fresh(now: SessionTime, evidence_time: SessionTime, maximum_age_ns: u64) -> bool {
    0 <= now.ns - evidence_time.ns <= maximum_age_ns && now.ns - evidence_time.ns <= i64::MAX
}

pub fn evidence_is_fresh(now: SessionTime, evidence_time: SessionTime, maximum_age_ns: u64) -> (r:
    bool)
    ensures
        r == fresh(now, evidence_time, maximum_age_ns),
{
    match now.checked_duration_since(evidence_time) {
        None => false,
        Some(age) => age.ns >= 0 && age.ns as u64 <= maximum_age_ns,
    }
}

/// The newest scores of the classifier, oldest first.
pub open spec fn window_after<S>(window: Seq<S>, score: S) -> Seq<S> {
    if window.len() == STATIONARY_WINDOW_CAPACITY {
        window.subrange(1, window.len() as int).push(score)
    } else {
        window.push(score)
    }
}

/// What one inertial observation did to the score window.
#[derive(Clone, Copy, Debug, PartialEq)]
pub struct WindowStep<S: Copy> {
    /// The score that left the full window.
    pub evicted: Option<S>,
    pub len: usize,
    /// The zero-velocity score of fresh receiver evidence.
    pub receiver_score: Option<S>,
}

/// How well a receiver fix agrees with standing still.
#[derive(Clone, Copy, Debug, PartialEq)]
pub struct ReceiverEvidence<S> {
    pub time: SessionTime,
    pub score: S,
}

/// Sliding-window stationary classifier. `S` is a score.
#[derive(Clone, Copy, Debug, PartialEq)]
pub struct StationaryClassifier<S: Copy> {
    scores: FixedRing<S, STATIONARY_WINDOW_CAPACITY>,
    stationary_latched: bool,
    minimum_window_samples: u16,
    latest_zero_velocity: Option<ReceiverEvidence<S>>,
}

/// What a classifier holds, as plain values.
#[verifier::ext_equal]
pub struct ClassifierModel<S> {
    pub scores: Seq<S>,
    pub latched: bool,
    pub minimum: int,
    pub receiver: Option<ReceiverEvidence<S>>,
}

impl<S: Copy> View for StationaryClassifier<S> {
    type V = ClassifierModel<S>;

    closed spec fn view(&self) -> ClassifierModel<S> {
        ClassifierModel {
            scores: self.scores@,
            latched: self.stationary_latched,
            minimum: self.minimum_window_samples as int,
            receiver: self.latest_zero_velocity,
        }
    }
}

impl<S> ClassifierModel<S> {
    /// Whether enough scores have been seen for a decision.
    pub open spec fn ready(self) -> bool {
        self.scores.len() >= self.minimum
    }

    /// The receiver evidence that is still fresh at `time`.
    pub open spec fn fresh_receiver(self, time: SessionTime, maximum_age_ns: u64) -> Option<
        ReceiverEvidence<S>,
    > {
        if self.receiver is Some && fresh(time, self.receiver->0.time, maximum_age_ns) {
            self.receiver
        } else {
            None
        }
    }

    /// The latch after a probability was computed. Without fresh receiver
    /// evidence nothing is stationary; otherwise the two thresholds form a
    /// hysteresis.
    pub open spec fn latch_after(self, above_enter: bool, below_exit: bool) -> bool {
        if !self.ready() {
            self.latched
        } else if self.receiver is None {
            false
        } else if self.latched {
            !below_exit
        } else {
            above_enter
        }
    }
}

impl<S: Copy> StationaryClassifier<S> {
    pub closed spec fn wf(self) -> bool {
        self.scores.wf()
    }

    pub fn new(minimum_window_samples: u16) -> (classifier: Self)
        ensures
            classifier.wf(),
            classifier@ == (ClassifierModel {
                scores: Seq::<S>::empty(),
                latched: false,
                minimum: minimum_window_samples as int,
                receiver: None,
            }),
    {
        StationaryClassifier {
            scores: FixedRing::new(),
            stationary_latched: false,
            minimum_window_samples,
            latest_zero_velocity: None,
        }
    }

    /// Takes over the zero-velocity score of a receiver fix. `None` withdraws
    /// the evidence.
    pub fn observe_gnss_zero_velocity(&mut self, evidence_time: SessionTime, score: Option<S>)
        requires
            old(self).wf(),
        ensures
            final(self).wf(),
            final(self)@ == (ClassifierModel {
                receiver: match score {
                    Some(score) => Some(ReceiverEvidence { time: evidence_time, score }),
                    None => None,
                },
                ..old(self)@
            }),
    {
        self.latest_zero_velocity =
        match score {
            Some(score) => Some(ReceiverEvidence { time: evidence_time, score }),
            None => None,
        };
    }

    /// Adds one inertial score to the window and drops stale receiver
    /// evidence.
    pub fn observe_score(&mut self, time: SessionTime, maximum_gnss_age_ns: u64, score: S) -> (step:
        WindowStep<S>)
        requires
            old(self).wf(),
        ensures
            final(self).wf(),
            final(self)@ == (ClassifierModel {
                scores: window_after(old(self)@.scores, score),
                receiver: old(self)@.fresh_receiver(time, maximum_gnss_age_ns),
                ..old(self)@
            }),
            step.evicted == (if old(self)@.scores.len() == STATIONARY_WINDOW_CAPACITY {
                Some(old(self)@.scores[0])
            } else {
                None
            }),
            step.len == final(self)@.scores.len(),
            step.len > 0,
            step.receiver_score == (match final(self)@.receiver {
                Some(evidence) => Some(evidence.score),
                None => None,
            }),
    {
        proof {
            self.scores.wf_facts();
        }
        let mut evicted: Option<S> = None;
        if self.scores.len() == STATIONARY_WINDOW_CAPACITY {
            evicted = self.scores.pop_front();
        }
        let pushed = self.scores.push_back(score);
        let receiver_score = match self.latest_zero_velocity {
            Some(evidence) => if evidence_is_fresh(
                time,
                evidence.time,
                maximum_gnss_age_ns,
            ) {
                Some(evidence.score)
            } else {
                None
            },
            None => None,
        };
        if receiver_score.is_none() {
            self.latest_zero_velocity = None;
        }
        WindowStep { evicted, len: self.scores.len(), receiver_score }
    }

    /// Decides with the probability that followed from `observe_score`.
    pub fn settle(&mut self, above_enter: bool, below_exit: bool)
        requires
            old(self).wf(),
        ensures
            final(self).wf(),
            final(self)@ == (ClassifierModel {
                latched: old(self)@.latch_after(above_enter, below_exit),
                ..old(self)@
            }),
    {
        if self.scores.len() >= self.minimum_window_samples as usize {
            if self.latest_zero_velocity.is_none() {
                self.stationary_latched = false;
            } else if self.stationary_latched {
                if below_exit {
                    self.stationary_latched = false;
                }
            } else if above_enter {
                self.stationary_latched = true;
            }
        }
    }

    pub fn stationary(&self) -> (stationary: bool)
        ensures
            stationary == self@.latched,
    {
        self.stationary_latched
    }

    pub fn decision_ready(&self) -> (ready: bool)
        requires
            self.wf(),
        ensures
            ready == self@.ready(),
    {
        self.scores.len() >= self.minimum_window_samples as usize
    }
}

/// What to do with the running means of the inertial samples.
#[derive(Clone, Copy, Debug, PartialEq, Eq, Structural)]
pub enum MomentsAction {
    Accumulate,
    Discard,
}

/// How the gyrocompass solution turned out.
#[derive(Clone, Copy, Debug, PartialEq, Eq, Structural)]
pub enum GyrocompassVerdict {
    Observable,
    Unobservable,
    Degenerate,
}

/// Verdicts on the numbers of one alignment attempt.
#[derive(Clone, Copy, Debug, PartialEq, Eq, Structural)]
pub struct AlignmentNumbers {
    /// Whether the variances of both means are below their limits.
    pub variances_are_acceptable: bool,
    /// Whether the mean force determines a direction.
    pub gravity_is_usable: bool,
    pub gyrocompass: GyrocompassVerdict,
    /// Whether the dynamic heading has enough information and little enough
    /// variance.
    pub dynamic_heading_is_qualified: bool,
    pub covariance_is_finite: bool,
}

/// A receiver fix and the time of the oldest evidence in it.
#[derive(Clone, Copy, Debug, PartialEq)]
pub struct TimedFix<F> {
    pub evidence_time: SessionTime,
    pub fix: F,
}

/// Alignment state machine. `F` is a receiver fix, `S` a score.
#[derive(Clone, Copy, Debug, PartialEq)]
pub struct Initializer<F: Copy, S: Copy> {
    pub phase: InitializationPhase,
    pub config: AlignmentConfig,
    pub classifier: StationaryClassifier<S>,
    /// Samples in the running means.
    pub sample_count: u32,
    pub latest_fix: Option<TimedFix<F>>,
    pub heading_is_supplied: bool,
    /// Whether the motion constraint of the dynamic heading was validated.
    pub dynamic_heading: Option<bool>,
}

/// One more sample, as far as the counter goes.
pub open spec fn count_after(count: u32) -> u32 {
    if count == u32::MAX {
        count
    } else {
        (count + 1) as u32
    }
}

impl<F: Copy, S: Copy> Initializer<F, S> {
    pub open spec fn wf(self) -> bool {
        self.classifier.wf()
    }

    pub fn new(config: AlignmentConfig) -> (r: Result<Self, InitializationError>)
        ensures
            r is Ok <==> config.valid(),
            r is Err ==> r->Err_0 == InitializationError::InvalidConfiguration,
            r matches Ok(initializer) ==> {
                &&& initializer.wf()
                &&& initializer.phase == InitializationPhase::Uninitialized
                &&& initializer.config == config
                &&& initializer.classifier@ == (ClassifierModel {
                    scores: Seq::<S>::empty(),
                    latched: false,
                    minimum: config.minimum_window_samples as int,
                    receiver: None,
                })
                &&& initializer.sample_count == 0
                &&& initializer.latest_fix is None
                &&& !initializer.heading_is_supplied
                &&& initializer.dynamic_heading is None
            },
    {
        match config.validate() {
            Err(error) => Err(error),
            Ok(_) => Ok(
                Initializer {
                    phase: InitializationPhase::Uninitialized,
                    config,
                    classifier: StationaryClassifier::new(config.minimum_window_samples),
                    sample_count: 0,
                    latest_fix: None,
                    heading_is_supplied: false,
                    dynamic_heading: None,
                },
            ),
        }
    }

    /// Takes over a receiver fix whose oldest evidence is of `evidence_time`.
    pub fn observe_gnss(
        &mut self,
        evidence_time: SessionTime,
        fix: F,
        zero_velocity: Option<S>,
        fix_is_finite: bool,
    ) -> (r: Result<(), InitializationError>)
        requires
            old(self).wf(),
        ensures
            final(self).wf(),
            r == (if fix_is_finite {
                Ok::<(), InitializationError>(())
            } else {
                Err(InitializationError::NonFinite)
            }),
            r is Err ==> *final(self) == *old(self),
            r is Ok ==> {
                &&& final(self).latest_fix == Some(TimedFix { evidence_time, fix })
                &&& final(self).classifier@ == (ClassifierModel {
                    receiver: match zero_velocity {
                        Some(score) => Some(ReceiverEvidence { time: evidence_time, score }),
                        None => None,
                    },
                    ..old(self).classifier@
                })
                &&& *final(self) == (Initializer {
                    latest_fix: final(self).latest_fix,
                    classifier: final(self).classifier,
                    ..*old(self)
                })
            },
    {
        if !fix_is_finite {
            return Err(InitializationError::NonFinite);
        }
        self.classifier.observe_gnss_zero_velocity(evidence_time, zero_velocity);
        self.latest_fix = Some(TimedFix { evidence_time, fix });
        Ok(())
    }

    /// The fix, as long as its evidence is fresh at `time`.
    pub open spec fn fresh_fix(self, time: SessionTime, maximum_gnss_age_ns: u64) -> Option<
        TimedFix<F>,
    > {
        if self.latest_fix is Some && fresh(
            time,
            self.latest_fix->0.evidence_time,
            maximum_gnss_age_ns,
        ) {
            self.latest_fix
        } else {
            None
        }
    }

    fn drop_stale_fix(&mut self, time: SessionTime, maximum_gnss_age_ns: u64)
        ensures
            *final(self) == (Initializer {
                latest_fix: old(self).fresh_fix(time, maximum_gnss_age_ns),
                ..*old(self)
            }),
    {
        if let Some(latest) = self.latest_fix {
            if !evidence_is_fresh(time, latest.evidence_time, maximum_gnss_age_ns) {
                self.latest_fix = None;
            }
        }
    }

    /// Refuses an inertial reading that is not finite. Its time still counts: a
    /// fix that is stale by then is dropped.
    pub fn reject_reading(&mut self, time: SessionTime, maximum_gnss_age_ns: u64) -> (r: Result<
        (),
        InitializationError,
    >)
        requires
            old(self).wf(),
        ensures
            final(self).wf(),
            r == Err::<(), InitializationError>(InitializationError::NonFinite),
            *final(self) == (Initializer {
                latest_fix: old(self).fresh_fix(time, maximum_gnss_age_ns),
                ..*old(self)
            }),
    {
        self.drop_stale_fix(time, maximum_gnss_age_ns);
        Err(InitializationError::NonFinite)
    }

    /// Drops a stale fix and adds one inertial score.
    pub fn observe_score(&mut self, time: SessionTime, maximum_gnss_age_ns: u64, score: S) -> (step:
        WindowStep<S>)
        requires
            old(self).wf(),
        ensures
            final(self).wf(),
            final(self).latest_fix == old(self).fresh_fix(time, maximum_gnss_age_ns),
            final(self).classifier@ == (ClassifierModel {
                scores: window_after(old(self).classifier@.scores, score),
                receiver: old(self).classifier@.fresh_receiver(time, maximum_gnss_age_ns),
                ..old(self).classifier@
            }),
            *final(self) == (Initializer {
                latest_fix: final(self).latest_fix,
                classifier: final(self).classifier,
                ..*old(self)
            }),
            step.evicted == (if old(self).classifier@.scores.len() == STATIONARY_WINDOW_CAPACITY {
                Some(old(self).classifier@.scores[0])
            } else {
                None
            }),
            step.len == final(self).classifier@.scores.len(),
            step.receiver_score == (match final(self).classifier@.receiver {
                Some(evidence) => Some(evidence.score),
                None => None,
            }),
    {
        self.drop_stale_fix(time, maximum_gnss_age_ns);
        self.classifier.observe_score(time, maximum_gnss_age_ns, score)
    }

    /// Whether the newest sample joins the running means: while stationary,
    /// and while the first window fills up.
    pub open spec fn keeps_sample(self) -> bool {
        self.classifier@.latched || (self.phase == InitializationPhase::Uninitialized
            && !self.classifier@.ready())
    }

    /// The phase after the classifier has settled.
    pub open spec fn phase_after(self) -> InitializationPhase {
        if self.classifier@.latched {
            if count_after(self.sample_count) >= self.config.minimum_coarse_samples
                && self.latest_fix is Some {
                InitializationPhase::FineAligning
            } else if self.phase == InitializationPhase::Uninitialized {
                InitializationPhase::CoarseAligning
            } else {
                self.phase
            }
        } else if self.keeps_sample() {
            self.phase
        } else if self.phase == InitializationPhase::CoarseAligning || self.phase
            == InitializationPhase::FineAligning {
            InitializationPhase::Uninitialized
        } else {
            self.phase
        }
    }

    /// Settles the classifier and moves the alignment phase. Samples of a
    /// classified motion never stay in the means.
    pub fn settle(&mut self, above_enter: bool, below_exit: bool) -> (action: MomentsAction)
        requires
            old(self).wf(),
        ensures
            final(self).wf(),
            ({
                let settled = Initializer { classifier: final(self).classifier, ..*old(self) };
                &&& final(self).classifier@ == (ClassifierModel {
                    latched: old(self).classifier@.latch_after(above_enter, below_exit),
                    ..old(self).classifier@
                })
                &&& action == (if settled.keeps_sample() {
                    MomentsAction::Accumulate
                } else {
                    MomentsAction::Discard
                })
                &&& *final(self) == (Initializer {
                    phase: settled.phase_after(),
                    sample_count: if settled.keeps_sample() {
                        count_after(settled.sample_count)
                    } else {
                        0
                    },
                    ..settled
                })
            }),
    {
        self.classifier.settle(above_enter, below_exit);
        if self.classifier.stationary() {
            if self.phase == InitializationPhase::Uninitialized {
                self.phase = InitializationPhase::CoarseAligning;
            }
            self.count_sample();
            if self.sample_count >= self.config.minimum_coarse_samples
                && self.latest_fix.is_some() {
                self.phase = InitializationPhase::FineAligning;
            }
            MomentsAction::Accumulate
        } else if self.phase == InitializationPhase::Uninitialized
            && !self.classifier.decision_ready() {
            self.count_sample();
            MomentsAction::Accumulate
        } else {
            self.sample_count = 0;
            if self.phase == InitializationPhase::CoarseAligning || self.phase
                == InitializationPhase::FineAligning {
                self.phase = InitializationPhase::Uninitialized;
            }
            MomentsAction::Discard
        }
    }

    fn count_sample(&mut self)
        ensures
            *final(self) == (Initializer {
                sample_count: count_after(old(self).sample_count),
                ..*old(self)
            }),
    {
        if self.sample_count < u32::MAX {
            self.sample_count = self.sample_count + 1;
        }
    }

    /// Takes over a supplied heading.
    pub fn provide_heading(&mut self, heading_is_valid: bool) -> (r: Result<(), InitializationError>)
        ensures
            r == (if heading_is_valid {
                Ok::<(), InitializationError>(())
            } else {
                Err(InitializationError::NonFinite)
            }),
            *final(self) == (Initializer {
                heading_is_supplied: old(self).heading_is_supplied || heading_is_valid,
                ..*old(self)
            }),
    {
        if !heading_is_valid {
            return Err(InitializationError::NonFinite);
        }
        self.heading_is_supplied = true;
        Ok(())
    }

    /// Takes over a heading that was inferred from motion.
    pub fn provide_dynamic_yaw(&mut self, heading_is_valid: bool, constraint_valid: bool) -> (r:
        Result<(), InitializationError>)
        ensures
            r == (if heading_is_valid {
                Ok::<(), InitializationError>(())
            } else {
                Err(InitializationError::NonFinite)
            }),
            *final(self) == (Initializer {
                dynamic_heading: if heading_is_valid {
                    Some(constraint_valid)
                } else {
                    old(self).dynamic_heading
                },
                ..*old(self)
            }),
    {
        if !heading_is_valid {
            return Err(InitializationError::NonFinite);
        }
        self.dynamic_heading = Some(constraint_valid);
        Ok(())
    }

    /// Whether a gyrocompass solution would be used.
    pub open spec fn gyrocompass_applies(self) -> bool {
        &&& !self.heading_is_supplied
        &&& self.config.gyrocompassing_qualified
        &&& self.sample_count >= self.config.minimum_gyrocompass_samples
    }

    /// The heading source, best first: supplied, gyrocompass, motion, none.
    pub open spec fn heading_source(self, numbers: AlignmentNumbers) -> InitialHeadingSource {
        if self.heading_is_supplied {
            InitialHeadingSource::Supplied
        } else if self.gyrocompass_applies() && numbers.gyrocompass
            == GyrocompassVerdict::Observable {
            InitialHeadingSource::Gyrocompass
        } else if self.dynamic_heading == Some(true) && numbers.dynamic_heading_is_qualified {
            InitialHeadingSource::DynamicConstraint
        } else {
            InitialHeadingSource::Absent
        }
    }

    /// The outcome of one attempt.
    pub open spec fn attempt(self, numbers: AlignmentNumbers) -> Result<
        Option<InitialHeadingSource>,
        InitializationError,
    > {
        if self.phase != InitializationPhase::FineAligning {
            Ok(None)
        } else if self.latest_fix is None {
            Err(InitializationError::MissingGnss)
        } else if !numbers.variances_are_acceptable {
            Ok(None)
        } else if !numbers.gravity_is_usable || (self.gyrocompass_applies() && numbers.gyrocompass
            == GyrocompassVerdict::Degenerate) || !numbers.covariance_is_finite {
            Err(InitializationError::DegenerateAlignment)
        } else {
            Ok(Some(self.heading_source(numbers)))
        }
    }

    /// Completes the alignment, if everything that it needs is there.
    pub fn try_initialize(&mut self, numbers: AlignmentNumbers) -> (r: Result<
        Option<InitialHeadingSource>,
        InitializationError,
    >)
        ensures
            r == old(self).attempt(numbers),
            *final(self) == (Initializer {
                phase: if r is Ok && r->Ok_0 is Some {
                    InitializationPhase::Navigating
                } else {
                    old(self).phase
                },
                ..*old(self)
            }),
    {
        if self.phase != InitializationPhase::FineAligning {
            return Ok(None);
        }
        if self.latest_fix.is_none() {
            return Err(InitializationError::MissingGnss);
        }
        if !numbers.variances_are_acceptable {
            return Ok(None);
        }
        if !numbers.gravity_is_usable {
            return Err(InitializationError::DegenerateAlignment);
        }
        let source = if self.heading_is_supplied {
            InitialHeadingSource::Supplied
        } else {
            let gyrocompass = if self.config.gyrocompassing_qualified && self.sample_count
                >= self.config.minimum_gyrocompass_samples {
                match numbers.gyrocompass {
                    GyrocompassVerdict::Observable => true,
                    GyrocompassVerdict::Unobservable => false,
                    GyrocompassVerdict::Degenerate => {
                        return Err(InitializationError::DegenerateAlignment);
                    },
                }
            } else {
                false
            };
            let dynamic = match self.dynamic_heading {
                Some(constraint_valid) => constraint_valid && numbers.dynamic_heading_is_qualified,
                None => false,
            };
            if gyrocompass {
                InitialHeadingSource::Gyrocompass
            } else if dynamic {
                InitialHeadingSource::DynamicConstraint
            } else {
                InitialHeadingSource::Absent
            }
        };
        if !numbers.covariance_is_finite {
            return Err(InitializationError::DegenerateAlignment);
        }
        self.phase = InitializationPhase::Navigating;
        Ok(Some(source))
    }
}

/// Missing or stale receiver evidence can never make a full window stationary.
pub proof fn stationary_needs_receiver<S>(
    model: ClassifierModel<S>,
    above_enter: bool,
    below_exit: bool,
)
    requires
        model.ready(),
        model.receiver is None,
    ensures
        !model.latch_after(above_enter, below_exit),
{
}

/// Alignment cannot finish without a fix, and only out of fine alignment.
pub proof fn navigation_needs_fine_alignment<F: Copy, S: Copy>(
    initializer: Initializer<F, S>,
    numbers: AlignmentNumbers,
)
    ensures
        initializer.attempt(numbers) matches Ok(Some(_)) ==> initializer.phase
            == InitializationPhase::FineAligning && initializer.latest_fix is Some,
{
}

/// A sample that is classified as motion ends any alignment in progress.
pub proof fn motion_ends_alignment<F: Copy, S: Copy>(initializer: Initializer<F, S>)
    requires
        !initializer.classifier@.latched,
        initializer.phase == InitializationPhase::CoarseAligning || initializer.phase
            == InitializationPhase::FineAligning,
    ensures
        initializer.phase_after() == InitializationPhase::Uninitialized,
        !initializer.keeps_sample(),
{
}

/// The two thresholds form a hysteresis. With a full enough window and fresh
/// receiver evidence, a probability between them leaves the latch as it was: what
/// is stationary stays so unless the probability is below the exit threshold, and
/// what moves goes on moving unless it is above the enter threshold.
pub proof fn latch_has_hysteresis<S: Copy>(
    classifier: &mut StationaryClassifier<S>,
    above_enter: bool,
    below_exit: bool,
)
    requires
        call_ensures(
            StationaryClassifier::<S>::settle,
            (classifier, above_enter, below_exit),
            (),
        ),
    ensures
        ({
            let before = old(classifier)@;
            let after = final(classifier)@;
            let decides = before.scores.len() >= before.minimum && before.receiver is Some;
            &&& !above_enter && !below_exit && decides ==> after.latched == before.latched
            &&& before.latched && !below_exit && decides ==> after.latched
            &&& before.latched && below_exit && decides ==> !after.latched
            &&& !before.latched && above_enter && decides ==> after.latched
            &&& !before.latched && !above_enter && decides ==> !after.latched
            &&& before.scores.len() >= before.minimum && before.receiver is None ==> !after.latched
            &&& before.scores.len() < before.minimum ==> after.latched == before.latched
            &&& after.scores == before.scores && after.minimum == before.minimum && after.receiver
                == before.receiver
        }),
{
}

/// Settling again with the same probability changes nothing more: once it has been
/// decided on, only another probability or another window moves the latch.
pub proof fn settling_twice_changes_nothing<S: Copy>(
    first: &mut StationaryClassifier<S>,
    second: &mut StationaryClassifier<S>,
    above_enter: bool,
    below_exit: bool,
)
    requires
        !(above_enter && below_exit),
        call_ensures(StationaryClassifier::<S>::settle, (first, above_enter, below_exit), ()),
        call_ensures(StationaryClassifier::<S>::settle, (second, above_enter, below_exit), ()),
        *old(second) == *final(first),
    ensures
        final(second)@ == final(first)@,
        old(first)@.scores.len() >= old(first)@.minimum && old(first)@.receiver is Some
            && above_enter ==> final(first)@.latched,
        old(first)@.scores.len() >= old(first)@.minimum && below_exit ==> !final(first)@.latched,
{
}

/// A score enters the window as its newest; only a full window loses its oldest one,
/// and says which. Evidence of a receiver stays as long as it is no older than
/// allowed, and no evidence comes from the future.
pub proof fn scores_slide_through_the_window<S: Copy>(
    classifier: &mut StationaryClassifier<S>,
    time: SessionTime,
    maximum_gnss_age_ns: u64,
    score: S,
    step: WindowStep<S>,
)
    requires
        call_ensures(
            StationaryClassifier::<S>::observe_score,
            (classifier, time, maximum_gnss_age_ns, score),
            step,
        ),
        old(classifier)@.scores.len() <= STATIONARY_WINDOW_CAPACITY,
    ensures
        ({
            let before = old(classifier)@;
            let after = final(classifier)@;
            &&& after.scores.len() > 0 && after.scores.last() == score
            &&& after.scores.len() <= STATIONARY_WINDOW_CAPACITY
            &&& step.len == after.scores.len()
            &&& match step.evicted {
                None => {
                    &&& before.scores.len() < STATIONARY_WINDOW_CAPACITY
                    &&& after.scores.drop_last() == before.scores
                },
                Some(evicted) => {
                    &&& before.scores.len() == STATIONARY_WINDOW_CAPACITY
                    &&& evicted == before.scores[0]
                    &&& seq![evicted] + after.scores.drop_last() == before.scores
                },
            }
            &&& after.latched == before.latched && after.minimum == before.minimum
            &&& match before.receiver {
                None => after.receiver is None && step.receiver_score is None,
                Some(evidence) => {
                    let age = time.ns - evidence.time.ns;
                    &&& 0 <= age <= maximum_gnss_age_ns && age <= i64::MAX ==> after.receiver
                        == Some(evidence) && step.receiver_score == Some(evidence.score)
                    &&& age < 0 || age > maximum_gnss_age_ns || age > i64::MAX ==> after.receiver
                        is None && step.receiver_score is None
                },
            }
        }),
{
    let before = old(classifier)@;
    let after = final(classifier)@;
    if before.scores.len() == STATIONARY_WINDOW_CAPACITY {
        assert(seq![before.scores[0]] + after.scores.drop_last() =~= before.scores);
    } else {
        assert(after.scores.drop_last() =~= before.scores);
    }
}

/// A successful attempt takes the best heading that there is. A supplied one comes
/// first. A gyrocompass solution counts where the profile is qualified, enough
/// samples were averaged and it is observable. A heading from motion counts where
/// its constraint was validated and its numbers are qualified, whatever the profile
/// says about gyrocompassing. Only without any of them is the heading absent.
pub proof fn best_available_heading_is_taken<F: Copy, S: Copy>(
    initializer: &mut Initializer<F, S>,
    numbers: AlignmentNumbers,
    attempted: Result<Option<InitialHeadingSource>, InitializationError>,
)
    requires
        call_ensures(Initializer::<F, S>::try_initialize, (initializer, numbers), attempted),
    ensures
        attempted matches Ok(Some(source)) ==> {
            let before = *old(initializer);
            let compass = before.config.gyrocompassing_qualified && before.sample_count
                >= before.config.minimum_gyrocompass_samples && numbers.gyrocompass
                == GyrocompassVerdict::Observable;
            let motion = before.dynamic_heading == Some(true)
                && numbers.dynamic_heading_is_qualified;
            &&& source == InitialHeadingSource::Supplied <==> before.heading_is_supplied
            &&& source == InitialHeadingSource::Gyrocompass <==> !before.heading_is_supplied
                && compass
            &&& source == InitialHeadingSource::DynamicConstraint <==> !before.heading_is_supplied
                && !compass && motion
            &&& source == InitialHeadingSource::Absent <==> !before.heading_is_supplied && !compass
                && !motion
        },
{
}

/// Without a supplied heading and without a usable gyrocompass, two attempts that
/// differ in nothing but the gyrocompass profile choose the same heading.
pub proof fn motion_heading_ignores_the_gyrocompass_profile<F: Copy, S: Copy>(
    first: &mut Initializer<F, S>,
    second: &mut Initializer<F, S>,
    numbers: AlignmentNumbers,
    first_attempt: Result<Option<InitialHeadingSource>, InitializationError>,
    second_attempt: Result<Option<InitialHeadingSource>, InitializationError>,
)
    requires
        numbers.gyrocompass == GyrocompassVerdict::Unobservable,
        *old(second) == (Initializer { config: old(second).config, ..*old(first) }),
        call_ensures(Initializer::<F, S>::try_initialize, (first, numbers), first_attempt),
        call_ensures(Initializer::<F, S>::try_initialize, (second, numbers), second_attempt),
    ensures
        first_attempt == second_attempt,
        final(first).phase == final(second).phase,
{
}

/// When an alignment completes: in fine alignment, with a fix, with steady means, a
/// usable direction of gravity, a gyrocompass that is not degenerate where it is
/// consulted, and a finite covariance. Everything else either waits or names what
/// is wrong, and leaves the alignment where it was.
pub proof fn alignment_completes_when_it_can<F: Copy, S: Copy>(
    initializer: &mut Initializer<F, S>,
    numbers: AlignmentNumbers,
    attempted: Result<Option<InitialHeadingSource>, InitializationError>,
)
    requires
        call_ensures(Initializer::<F, S>::try_initialize, (initializer, numbers), attempted),
    ensures
        ({
            let before = *old(initializer);
            let after = *final(initializer);
            let fine = before.phase == InitializationPhase::FineAligning;
            let consulted = !before.heading_is_supplied && before.config.gyrocompassing_qualified
                && before.sample_count >= before.config.minimum_gyrocompass_samples;
            let determinate = numbers.gravity_is_usable && numbers.covariance_is_finite && (
            consulted ==> numbers.gyrocompass != GyrocompassVerdict::Degenerate);
            &&& (attempted matches Ok(Some(_))) <==> fine && before.latest_fix is Some
                && numbers.variances_are_acceptable && determinate
            &&& (attempted matches Ok(None)) <==> !fine || (before.latest_fix is Some
                && !numbers.variances_are_acceptable)
            &&& (attempted matches Err(InitializationError::MissingGnss)) <==> fine
                && before.latest_fix is None
            &&& (attempted matches Err(InitializationError::DegenerateAlignment)) <==> fine
                && before.latest_fix is Some && numbers.variances_are_acceptable && !determinate
            &&& (attempted matches Ok(Some(_))) ==> after.phase == InitializationPhase::Navigating
            &&& !(attempted matches Ok(Some(_))) ==> after == before
            &&& after == (Initializer { phase: after.phase, ..before })
        }),
{
}

/// How the alignment moves with the classifier. Standing still starts it and, once
/// enough samples and a fix are there, makes it fine. Motion ends it and forgets its
/// samples. While the first window fills up, samples are kept without a decision.
/// Nothing here leaves the navigating phase by motion.
pub proof fn alignment_follows_the_classifier<F: Copy, S: Copy>(
    initializer: &mut Initializer<F, S>,
    above_enter: bool,
    below_exit: bool,
    action: MomentsAction,
)
    requires
        call_ensures(
            Initializer::<F, S>::settle,
            (initializer, above_enter, below_exit),
            action,
        ),
    ensures
        ({
            let before = *old(initializer);
            let after = *final(initializer);
            let still = after.classifier@.latched;
            let deciding = after.classifier@.scores.len() >= after.classifier@.minimum;
            let filling = !deciding && before.phase == InitializationPhase::Uninitialized;
            &&& still || filling ==> action == MomentsAction::Accumulate
            &&& !still && !filling ==> action == MomentsAction::Discard && after.sample_count == 0
            &&& action == MomentsAction::Accumulate && before.sample_count < u32::MAX
                ==> after.sample_count == before.sample_count + 1
            &&& action == MomentsAction::Accumulate && before.sample_count == u32::MAX
                ==> after.sample_count == u32::MAX
            &&& still && before.phase == InitializationPhase::Uninitialized ==> after.phase
                == InitializationPhase::CoarseAligning || after.phase
                == InitializationPhase::FineAligning
            &&& still && after.sample_count >= before.config.minimum_coarse_samples
                && before.latest_fix is Some ==> after.phase == InitializationPhase::FineAligning
            &&& still && after.phase != before.phase && after.phase
                == InitializationPhase::FineAligning ==> after.sample_count
                >= before.config.minimum_coarse_samples && before.latest_fix is Some
            &&& still && before.phase != InitializationPhase::Uninitialized && (after.sample_count
                < before.config.minimum_coarse_samples || before.latest_fix is None) ==> after.phase
                == before.phase
            &&& !still && (before.phase == InitializationPhase::CoarseAligning || before.phase
                == InitializationPhase::FineAligning) ==> after.phase
                == InitializationPhase::Uninitialized
            &&& !still && before.phase != InitializationPhase::CoarseAligning && before.phase
                != InitializationPhase::FineAligning ==> after.phase == before.phase
            &&& after.latest_fix == before.latest_fix && after.config == before.config
            &&& after.heading_is_supplied == before.heading_is_supplied && after.dynamic_heading
                == before.dynamic_heading
        }),
{
}

/// Within the alignment the classifier is the same as on its own.
pub proof fn alignment_settles_its_classifier<F: Copy, S: Copy>(
    initializer: &mut Initializer<F, S>,
    classifier: &mut StationaryClassifier<S>,
    above_enter: bool,
    below_exit: bool,
    action: MomentsAction,
)
    requires
        old(classifier)@ == old(initializer).classifier@,
        call_ensures(
            Initializer::<F, S>::settle,
            (initializer, above_enter, below_exit),
            action,
        ),
        call_ensures(
            StationaryClassifier::<S>::settle,
            (classifier, above_enter, below_exit),
            (),
        ),
    ensures
        final(initializer).classifier@ == final(classifier)@,
{
}

/// A fix stays exactly as long as its oldest evidence is no older than allowed,
/// whether the reading that tells the time is usable or not.
pub proof fn fixes_grow_stale<F: Copy, S: Copy>(
    scored: &mut Initializer<F, S>,
    rejected: &mut Initializer<F, S>,
    time: SessionTime,
    maximum_gnss_age_ns: u64,
    score: S,
    step: WindowStep<S>,
    refusal: Result<(), InitializationError>,
)
    requires
        *old(scored) == *old(rejected),
        call_ensures(
            Initializer::<F, S>::observe_score,
            (scored, time, maximum_gnss_age_ns, score),
            step,
        ),
        call_ensures(
            Initializer::<F, S>::reject_reading,
            (rejected, time, maximum_gnss_age_ns),
            refusal,
        ),
    ensures
        refusal == Err::<(), InitializationError>(InitializationError::NonFinite),
        final(scored).latest_fix == final(rejected).latest_fix,
        final(rejected).classifier == old(rejected).classifier,
        match old(scored).latest_fix {
            None => final(scored).latest_fix is None,
            Some(fix) => {
                let age = time.ns - fix.evidence_time.ns;
                &&& 0 <= age <= maximum_gnss_age_ns && age <= i64::MAX ==> final(scored).latest_fix
                    == Some(fix)
                &&& age < 0 || age > maximum_gnss_age_ns || age > i64::MAX ==> final(scored).latest_fix is None
            },
        },
        final(scored).phase == old(scored).phase,
        final(scored).sample_count == old(scored).sample_count,
{
}

/// A finite fix replaces the one before it and brings, or withdraws, its evidence of
/// standing still. Both have the time of the fix. One that is not finite leaves no
/// trace.
pub proof fn fixes_are_taken_over<F: Copy, S: Copy>(
    initializer: &mut Initializer<F, S>,
    evidence_time: SessionTime,
    fix: F,
    zero_velocity: Option<S>,
    fix_is_finite: bool,
    taken: Result<(), InitializationError>,
)
    requires
        call_ensures(
            Initializer::<F, S>::observe_gnss,
            (initializer, evidence_time, fix, zero_velocity, fix_is_finite),
            taken,
        ),
    ensures
        fix_is_finite == (taken is Ok),
        !fix_is_finite ==> *final(initializer) == *old(initializer),
        fix_is_finite ==> {
            let after = *final(initializer);
            &&& after.latest_fix matches Some(latest) && latest.fix == fix && latest.evidence_time
                == evidence_time
            &&& zero_velocity matches Some(score) ==> (after.classifier@.receiver matches Some(
                evidence,
            ) && evidence.score == score && evidence.time == evidence_time)
            &&& zero_velocity is None ==> after.classifier@.receiver is None
            &&& after.classifier@.scores == old(initializer).classifier@.scores
            &&& after.classifier@.latched == old(initializer).classifier@.latched
            &&& after.phase == old(initializer).phase
        },
{
}

/// A valid supplied heading is remembered for good; an invalid one never counts.
/// A heading from motion is remembered with the verdict on its constraint, and the
/// last one counts.
pub proof fn headings_are_remembered<F: Copy, S: Copy>(
    supplied: &mut Initializer<F, S>,
    moved: &mut Initializer<F, S>,
    heading_is_valid: bool,
    constraint_valid: bool,
    first: Result<(), InitializationError>,
    second: Result<(), InitializationError>,
)
    requires
        call_ensures(Initializer::<F, S>::provide_heading, (supplied, heading_is_valid), first),
        call_ensures(
            Initializer::<F, S>::provide_dynamic_yaw,
            (moved, heading_is_valid, constraint_valid),
            second,
        ),
    ensures
        first is Ok == heading_is_valid,
        second is Ok == heading_is_valid,
        heading_is_valid || old(supplied).heading_is_supplied ==> final(supplied).heading_is_supplied,
        !heading_is_valid ==> *final(supplied) == *old(supplied) && *final(moved) == *old(moved),
        heading_is_valid ==> final(moved).dynamic_heading == Some(constraint_valid),
        final(supplied).dynamic_heading == old(supplied).dynamic_heading,
        final(moved).heading_is_supplied == old(moved).heading_is_supplied,
        final(supplied).phase == old(supplied).phase && final(moved).phase == old(moved).phase,
{
}

/// A profile is accepted exactly if its numbers are valid, the window holds between one and
/// 512 scores, coarse alignment needs a sample, and the gyrocompass no fewer than that. An
/// alignment then begins with nothing: no score, no sample, no fix, no heading.
pub proof fn alignments_begin_with_nothing<F: Copy, S: Copy>(
    config: AlignmentConfig,
    checked: Result<(), InitializationError>,
    made: Result<Initializer<F, S>, InitializationError>,
)
    requires
        call_ensures(AlignmentConfig::validate, (&config,), checked),
        call_ensures(Initializer::<F, S>::new, (config,), made),
    ensures
        checked is Ok <==> config.values_are_valid && 1 <= config.minimum_window_samples <= 512
            && 1 <= config.minimum_coarse_samples && config.minimum_coarse_samples
            <= config.minimum_gyrocompass_samples,
        checked is Err ==> checked->Err_0 == InitializationError::InvalidConfiguration,
        made is Ok <==> checked is Ok,
        made matches Ok(initializer) ==> {
            &&& initializer.phase == InitializationPhase::Uninitialized
            &&& initializer.config == config
            &&& initializer.classifier@.scores.len() == 0
            &&& !initializer.classifier@.latched
            &&& initializer.classifier@.receiver is None
            &&& initializer.classifier@.minimum == config.minimum_window_samples
            &&& initializer.sample_count == 0
            &&& initializer.latest_fix is None
            &&& !initializer.heading_is_supplied && initializer.dynamic_heading is None
        },
{
}

/// A classifier begins in motion, says what its latch says, and decides once it has seen
/// enough. A receiver's evidence replaces the earlier one, and none withdraws it.
pub proof fn classifiers_say_what_they_hold<S: Copy>(
    minimum_window_samples: u16,
    fresh_classifier: StationaryClassifier<S>,
    classifier: &mut StationaryClassifier<S>,
    evidence_time: SessionTime,
    score: Option<S>,
    still: bool,
    ready: bool,
)
    requires
        call_ensures(
            StationaryClassifier::<S>::new,
            (minimum_window_samples,),
            fresh_classifier,
        ),
        call_ensures(
            StationaryClassifier::<S>::observe_gnss_zero_velocity,
            (classifier, evidence_time, score),
            (),
        ),
        call_ensures(StationaryClassifier::<S>::stationary, (&*final(classifier),), still),
        call_ensures(StationaryClassifier::<S>::decision_ready, (&*final(classifier),), ready),
    ensures
        !fresh_classifier@.latched && fresh_classifier@.scores.len() == 0
            && fresh_classifier@.receiver is None && fresh_classifier@.minimum
            == minimum_window_samples,
        score matches Some(value) ==> final(classifier)@.receiver == Some(
            ReceiverEvidence { time: evidence_time, score: value },
        ),
        score is None ==> final(classifier)@.receiver is None,
        final(classifier)@.scores == old(classifier)@.scores,
        still == old(classifier)@.latched,
        ready <==> old(classifier)@.scores.len() >= old(classifier)@.minimum,
{
}

/// Evidence is fresh from its own instant on, for as long as it may age; none is fresh
/// before.
pub proof fn evidence_ages(
    now: SessionTime,
    evidence_time: SessionTime,
    maximum_age_ns: u64,
    is_fresh: bool,
)
    requires
        call_ensures(evidence_is_fresh, (now, evidence_time, maximum_age_ns), is_fresh),
    ensures
        now == evidence_time ==> is_fresh,
        now.ns < evidence_time.ns ==> !is_fresh,
        is_fresh ==> now.ns - evidence_time.ns <= maximum_age_ns,
        0 <= now.ns - evidence_time.ns <= maximum_age_ns && maximum_age_ns <= i64::MAX ==> is_fresh,
{
}

} // verus!
