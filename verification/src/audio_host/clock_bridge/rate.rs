//! The rate decisions that graph and playback boundaries have in common.

use crate::audio_host::clock_bridge::attempt::{
    freshness_refusal, law_estimator_inputs_are_recent, validate_estimator_freshness, SharedBridge,
};
use crate::audio_host::clock_bridge::errors::{
    BridgeClockDomain, BridgeError, BridgeState, ClockRateEstimatorError, RateMatchControllerError,
    RateMatchError,
};
use crate::audio_host::clock_bridge::observation::ClockObservation;
use vstd::prelude::*;

verus! {

/// One admitted boundary as far as rate matching is concerned.
#[derive(Clone, Copy, Debug, Eq, PartialEq, Structural)]
pub struct RateCycle {
    /// The role whose activity counter holds this boundary.
    pub role: BridgeClockDomain,
    /// The domain whose rate is matched.
    pub domain: BridgeClockDomain,
    /// The attempt state in which the boundary was admitted.
    pub state: BridgeState,
    /// The clock sample on the output side of the matcher.
    pub output_clock: ClockObservation,
    /// The handed-over clock sample on the input side, where there is one.
    pub input_clock: Option<ClockObservation>,
    /// The FIFO fill when the boundary was admitted.
    pub fill: usize,
}

/// What the estimator told about the input clock. Ratios are binary64 bit
/// patterns.
#[derive(Clone, Copy, Debug, Eq, PartialEq)]
pub enum EstimatorReading {
    /// The ratio after previewing the handed-over sample.
    Previewed(Result<Option<u64>, ClockRateEstimatorError>),
    /// The committed ratio, where no sample was handed over.
    Committed {
        ratio: Option<u64>,
        latest_input: Option<ClockObservation>,
        maximum_skew_nanoseconds: u64,
    },
}

/// The ratio decision of one boundary.
#[derive(Clone, Copy, Debug, Eq, PartialEq, Structural)]
pub struct RateRequest {
    /// Whether the estimator has measured a ratio.
    pub measured: bool,
    /// The measured ratio to hand to the controller; without one the boundary
    /// runs at the nominal ratio.
    pub feed_forward: Option<u64>,
}

/// Why no input could be requested from the matcher.
#[derive(Clone, Copy, Debug, Eq, PartialEq, Structural)]
pub enum RateFailure {
    Controller(RateMatchControllerError),
    Matcher(RateMatchError),
}

impl RateCycle {
    /// Whether this boundary runs at the nominal ratio.
    pub open spec fn nominal(self) -> bool {
        match self.domain {
            BridgeClockDomain::WaveCapture => self.state == BridgeState::CaptureFilterDelay
                || self.state == BridgeState::CaptureEstimatorPriming,
            _ => self.state == BridgeState::PlaybackFilterDelay || self.state
                == BridgeState::PlaybackEstimatorPriming,
        }
    }

    /// The ratio decision for a measured or missing ratio.
    pub open spec fn request_for(self, candidate: Option<u64>) -> Result<RateRequest, BridgeError> {
        if self.nominal() {
            Ok(RateRequest { measured: candidate is Some, feed_forward: None })
        } else {
            match candidate {
                None => Err(BridgeError::ObservationUnavailable { domain: self.domain }),
                Some(ratio) => Ok(RateRequest { measured: true, feed_forward: Some(ratio) }),
            }
        }
    }

    /// The ratio decision that follows from an estimator reading.
    pub open spec fn ratio_decision(self, reading: EstimatorReading) -> Result<
        RateRequest,
        BridgeError,
    > {
        match reading {
            EstimatorReading::Previewed(Err(error)) => Err(
                BridgeError::Estimator { domain: self.domain, error },
            ),
            EstimatorReading::Previewed(Ok(candidate)) => self.request_for(candidate),
            EstimatorReading::Committed { ratio, latest_input, maximum_skew_nanoseconds } => {
                let stale = freshness_refusal(
                    latest_input,
                    maximum_skew_nanoseconds,
                    self.output_clock,
                );
                if self.state == BridgeState::Active && stale is Some {
                    Err(BridgeError::Estimator { domain: self.domain, error: stale->Some_0 })
                } else {
                    self.request_for(ratio)
                }
            },
        }
    }

    fn is_nominal(&self) -> (nominal: bool)
        ensures
            nominal == self.nominal(),
    {
        match self.domain {
            BridgeClockDomain::WaveCapture => self.state == BridgeState::CaptureFilterDelay
                || self.state == BridgeState::CaptureEstimatorPriming,
            _ => self.state == BridgeState::PlaybackFilterDelay || self.state
                == BridgeState::PlaybackEstimatorPriming,
        }
    }

    /// Decides the ratio of this boundary; a failure ends it.
    pub fn estimate(&self, bridge: &mut SharedBridge, reading: EstimatorReading) -> (result: Result<
        RateRequest,
        BridgeError,
    >)
        requires
            (reading is Previewed) == (self.input_clock is Some),
        ensures
            result == self.ratio_decision(reading),
            ({
                let starting = match self.domain {
                    BridgeClockDomain::WaveCapture => self.state == BridgeState::CaptureFilterDelay
                        || self.state == BridgeState::CaptureEstimatorPriming,
                    _ => self.state == BridgeState::PlaybackFilterDelay || self.state
                        == BridgeState::PlaybackEstimatorPriming,
                };
                match reading {
                    EstimatorReading::Previewed(Ok(ratio)) => {
                        &&& result is Ok <==> starting || ratio is Some
                        &&& result is Ok ==> result->Ok_0.measured == (ratio is Some)
                        &&& result is Ok && starting ==> result->Ok_0.feed_forward is None
                        &&& result is Ok && !starting ==> result->Ok_0.feed_forward == ratio
                        &&& result is Err ==> result->Err_0 == (BridgeError::ObservationUnavailable {
                            domain: self.domain,
                        })
                    },
                    EstimatorReading::Previewed(Err(error)) => {
                        &&& result is Err
                        &&& result->Err_0 == (BridgeError::Estimator { domain: self.domain, error })
                    },
                    EstimatorReading::Committed { ratio, latest_input, maximum_skew_nanoseconds } => {
                        &&& result is Ok ==> result->Ok_0.measured == (ratio is Some)
                        &&& result is Ok && starting ==> result->Ok_0.feed_forward is None
                        &&& result is Ok && !starting ==> result->Ok_0.feed_forward == ratio
                            && ratio is Some
                        &&& self.state != BridgeState::Active ==> (result is Ok <==> starting
                            || ratio is Some)
                    },
                }
            }),
            final(bridge).same_handover(*old(bridge)),
            final(bridge).attempt == match result {
                Ok(_) => old(bridge).attempt,
                Err(_) => old(bridge).attempt.faulted().left(self.role),
            },
    {
        let candidate: Option<u64> = match reading {
            EstimatorReading::Previewed(preview) => match preview {
                Ok(candidate) => candidate,
                Err(error) => {
                    let failure = BridgeError::Estimator { domain: self.domain, error };
                    return Err(bridge.attempt.fail(self.role, failure));
                },
            },
            EstimatorReading::Committed { ratio, latest_input, maximum_skew_nanoseconds } => {
                if self.state == BridgeState::Active {
                    if let Err(error) = validate_estimator_freshness(
                        latest_input,
                        maximum_skew_nanoseconds,
                        self.output_clock,
                    ) {
                        let failure = BridgeError::Estimator { domain: self.domain, error };
                        return Err(bridge.attempt.fail(self.role, failure));
                    }
                }
                ratio
            },
        };
        if self.is_nominal() {
            return Ok(RateRequest { measured: candidate.is_some(), feed_forward: None });
        }
        match candidate {
            None => {
                let failure = BridgeError::ObservationUnavailable { domain: self.domain };
                Err(bridge.attempt.fail(self.role, failure))
            },
            Some(ratio) => Ok(RateRequest { measured: true, feed_forward: Some(ratio) }),
        }
    }
}

/// Every boundary outside the filter-delay and estimator-priming states of its
/// direction is driven by exactly the ratio that the estimator measured; those two
/// run at the nominal ratio.
pub proof fn law_measured_ratio_reaches_the_controller(cycle: RateCycle, reading: EstimatorReading)
    ensures
        ({
            let starting = match cycle.domain {
                BridgeClockDomain::WaveCapture => cycle.state == BridgeState::CaptureFilterDelay
                    || cycle.state == BridgeState::CaptureEstimatorPriming,
                _ => cycle.state == BridgeState::PlaybackFilterDelay || cycle.state
                    == BridgeState::PlaybackEstimatorPriming,
            };
            match reading {
                EstimatorReading::Previewed(Ok(ratio)) => {
                    &&& cycle.ratio_decision(reading) is Ok <==> starting || ratio is Some
                    &&& cycle.ratio_decision(reading) is Ok ==> cycle.ratio_decision(reading)->Ok_0.measured == (ratio is Some)
                    &&& cycle.ratio_decision(reading) is Ok && starting ==> cycle.ratio_decision(reading)->Ok_0.feed_forward is None
                    &&& cycle.ratio_decision(reading) is Ok && !starting ==> cycle.ratio_decision(reading)->Ok_0.feed_forward == ratio
                    &&& cycle.ratio_decision(reading) is Err ==> cycle.ratio_decision(reading)->Err_0 == (BridgeError::ObservationUnavailable {
                        domain: cycle.domain,
                    })
                },
                EstimatorReading::Previewed(Err(error)) => {
                    &&& cycle.ratio_decision(reading) is Err
                    &&& cycle.ratio_decision(reading)->Err_0 == (BridgeError::Estimator { domain: cycle.domain, error })
                },
                EstimatorReading::Committed { ratio, latest_input, maximum_skew_nanoseconds } => {
                    &&& cycle.ratio_decision(reading) is Ok ==> cycle.ratio_decision(reading)->Ok_0.measured == (ratio is Some)
                    &&& cycle.ratio_decision(reading) is Ok && starting ==> cycle.ratio_decision(reading)->Ok_0.feed_forward is None
                    &&& cycle.ratio_decision(reading) is Ok && !starting ==> cycle.ratio_decision(reading)->Ok_0.feed_forward == ratio
                        && ratio is Some
                    &&& cycle.state != BridgeState::Active ==> (cycle.ratio_decision(reading) is Ok <==> starting
                        || ratio is Some)
                },
            }
        }),
{
}

/// The boundary failure that a failed rate preparation means in `domain`.
pub open spec fn rate_failure(failure: RateFailure, domain: BridgeClockDomain) -> BridgeError {
    match failure {
        RateFailure::Controller(error) => BridgeError::Controller { domain, error },
        RateFailure::Matcher(error) => BridgeError::Asrc { domain, error },
    }
}

/// Translates a failed rate preparation into a boundary failure.
pub fn map_rate(failure: RateFailure, domain: BridgeClockDomain) -> (error: BridgeError)
    ensures
        error == rate_failure(failure, domain),
{
    match failure {
        RateFailure::Controller(error) => BridgeError::Controller { domain, error },
        RateFailure::Matcher(error) => BridgeError::Asrc { domain, error },
    }
}

/// An active boundary without a new sample uses an earlier measurement only while
/// its input is recent: within the allowed distance of the output sample, on either
/// side. Before the attempt is active, age is no matter.
pub proof fn law_stale_measurement_ends_an_active_boundary(
    cycle: RateCycle,
    ratio: Option<u64>,
    latest: ClockObservation,
    maximum_skew_nanoseconds: u64,
)
    requires
        cycle.state == BridgeState::Active,
    ensures
        ({
            let output = cycle.output_clock.monotonic_time.nanoseconds;
            let input = latest.monotonic_time.nanoseconds;
            let recent = input <= output + maximum_skew_nanoseconds && output <= input
                + maximum_skew_nanoseconds;
            let reading = EstimatorReading::Committed {
                ratio,
                latest_input: Some(latest),
                maximum_skew_nanoseconds,
            };
            &&& cycle.ratio_decision(reading) is Ok <==> recent && ratio is Some
            &&& recent && ratio is None ==> cycle.ratio_decision(reading) == Err::<
                RateRequest,
                BridgeError,
            >(BridgeError::ObservationUnavailable { domain: cycle.domain })
            &&& !recent ==> match cycle.ratio_decision(reading) {
                Err(BridgeError::Estimator {
                    domain,
                    error: ClockRateEstimatorError::ObservationSkew {
                        actual_nanoseconds,
                        maximum_nanoseconds,
                    },
                }) => {
                    &&& domain == cycle.domain
                    &&& maximum_nanoseconds == maximum_skew_nanoseconds
                    &&& actual_nanoseconds > maximum_skew_nanoseconds
                    &&& actual_nanoseconds + input == output || actual_nanoseconds + output
                        == input
                },
                _ => false,
            }
        }),
{
    law_estimator_inputs_are_recent(latest, maximum_skew_nanoseconds, cycle.output_clock);
}

/// A failed rate preparation keeps its own error and names the direction that it
/// happened in.
pub proof fn law_rate_failures_keep_their_error(
    controller: RateMatchControllerError,
    matcher: RateMatchError,
    domain: BridgeClockDomain,
)
    ensures
        rate_failure(RateFailure::Controller(controller), domain) == (BridgeError::Controller {
            domain,
            error: controller,
        }),
        rate_failure(RateFailure::Matcher(matcher), domain) == (BridgeError::Asrc {
            domain,
            error: matcher,
        }),
{
}

} // verus!
