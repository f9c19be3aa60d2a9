//! Caller-selected policy of one clock-bridge attempt.

use crate::audio_host::clock_bridge::errors::{BridgeBuildError, BridgeClockDomain};
use crate::audio_host::clock_bridge::observation::ClockAttemptEpoch;
use crate::audio_host::pcm::{WAVE3_CAPTURE_CHANNELS, WAVE3_PLAYBACK_CHANNELS};
use vstd::prelude::*;

verus! {

/// The admitted ratio range of one direction, as binary64 bit patterns.
#[derive(Clone, Copy, Debug, Eq, PartialEq, Structural)]
pub struct RateMatchRatioBounds {
    pub dependency_limit_bits: u64,
    pub minimum_bits: u64,
    pub maximum_bits: u64,
}

/// What the bridge reads of a rate matcher's configuration.
#[derive(Clone, Copy, Debug, Eq, PartialEq, Structural)]
pub struct RateMatcherConfig {
    pub max_output_frames: usize,
    pub channels: usize,
    pub ratio_bounds: RateMatchRatioBounds,
}

/// What the bridge reads of a rate controller's configuration.
#[derive(Clone, Copy, Debug, Eq, PartialEq, Structural)]
pub struct RateMatchControllerConfig {
    pub target_fill_frames: usize,
    pub ratio_bounds: RateMatchRatioBounds,
}

/// What the bridge reads of a clock-rate estimator's configuration.
#[derive(Clone, Copy, Debug, Eq, PartialEq, Structural)]
pub struct ClockRateEstimatorConfig {
    pub maximum_observation_skew_nanoseconds: u64,
    pub ratio_bounds: RateMatchRatioBounds,
}

/// Caller-selected resources and controller policy for one direction.
#[derive(Clone, Copy, Debug, Eq, PartialEq, Structural)]
pub struct DirectionBridgeConfig {
    pub fifo_capacity_frames: usize,
    pub startup_guard_frames: usize,
    pub matcher: RateMatcherConfig,
    pub controller: RateMatchControllerConfig,
    pub estimator: ClockRateEstimatorConfig,
}

impl DirectionBridgeConfig {
    /// Why this direction's policy is refused, if it is.
    pub open spec fn refusal(self) -> Option<BridgeBuildError> {
        let target = self.controller.target_fill_frames;
        if self.fifo_capacity_frames == 0 {
            Some(BridgeBuildError::ZeroFifoCapacity)
        } else if self.matcher.ratio_bounds != self.controller.ratio_bounds {
            Some(BridgeBuildError::RatioBoundsDiffer)
        } else if self.matcher.ratio_bounds != self.estimator.ratio_bounds {
            Some(BridgeBuildError::EstimatorRatioBoundsDiffer)
        } else if target <= self.startup_guard_frames || target + self.startup_guard_frames
            > self.fifo_capacity_frames {
            Some(
                BridgeBuildError::InvalidStartupGuard {
                    target_fill_frames: target,
                    startup_guard_frames: self.startup_guard_frames,
                    fifo_capacity_frames: self.fifo_capacity_frames,
                },
            )
        } else {
            None
        }
    }

    /// Checks one direction's caller-selected resource and control policy.
    pub fn try_new(
        fifo_capacity_frames: usize,
        startup_guard_frames: usize,
        matcher: RateMatcherConfig,
        controller: RateMatchControllerConfig,
        estimator: ClockRateEstimatorConfig,
    ) -> (result: Result<Self, BridgeBuildError>)
        ensures
            ({
                let config = DirectionBridgeConfig {
                    fifo_capacity_frames,
                    startup_guard_frames,
                    matcher,
                    controller,
                    estimator,
                };
                result == match config.refusal() {
                    Some(error) => Err::<Self, BridgeBuildError>(error),
                    None => Ok::<Self, BridgeBuildError>(config),
                }
            }),
    {
        if fifo_capacity_frames == 0 {
            return Err(BridgeBuildError::ZeroFifoCapacity);
        }
        if matcher.ratio_bounds != controller.ratio_bounds {
            return Err(BridgeBuildError::RatioBoundsDiffer);
        }
        if matcher.ratio_bounds != estimator.ratio_bounds {
            return Err(BridgeBuildError::EstimatorRatioBoundsDiffer);
        }
        let target: usize = controller.target_fill_frames;
        let fits = match target.checked_add(startup_guard_frames) {
            Some(maximum) => maximum <= fifo_capacity_frames,
            None => false,
        };
        if target <= startup_guard_frames || !fits {
            return Err(
                BridgeBuildError::InvalidStartupGuard {
                    target_fill_frames: target,
                    startup_guard_frames,
                    fifo_capacity_frames,
                },
            );
        }
        Ok(
            DirectionBridgeConfig {
                fifo_capacity_frames,
                startup_guard_frames,
                matcher,
                controller,
                estimator,
            },
        )
    }

    pub fn fifo_capacity_frames(self) -> (frames: usize)
        ensures
            frames == self.fifo_capacity_frames,
    {
        self.fifo_capacity_frames
    }

    pub fn startup_guard_frames(self) -> (frames: usize)
        ensures
            frames == self.startup_guard_frames,
    {
        self.startup_guard_frames
    }
}

/// Complete caller-selected policy for the bridge.
#[derive(Clone, Copy, Debug, Eq, PartialEq, Structural)]
pub struct ClockBridgeConfig {
    pub attempt_epoch: ClockAttemptEpoch,
    pub maximum_graph_quantum_frames: usize,
    pub capture: DirectionBridgeConfig,
    pub playback: DirectionBridgeConfig,
}

impl ClockBridgeConfig {
    /// Why the two directions do not fit the graph ceiling, if they do not.
    pub open spec fn refusal(self) -> Option<BridgeBuildError> {
        if self.maximum_graph_quantum_frames == 0 {
            Some(BridgeBuildError::ZeroMaximumGraphQuantum)
        } else if self.capture.matcher.channels != 1 {
            Some(
                BridgeBuildError::MatcherChannels {
                    domain: BridgeClockDomain::WaveCapture,
                    expected: 1,
                    actual: self.capture.matcher.channels,
                },
            )
        } else if self.playback.matcher.channels != 2 {
            Some(
                BridgeBuildError::MatcherChannels {
                    domain: BridgeClockDomain::WavePlayback,
                    expected: 2,
                    actual: self.playback.matcher.channels,
                },
            )
        } else if self.maximum_graph_quantum_frames > self.capture.matcher.max_output_frames {
            Some(
                BridgeBuildError::MatcherOutputCapacity {
                    domain: BridgeClockDomain::WaveCapture,
                    required: self.maximum_graph_quantum_frames,
                    actual: self.capture.matcher.max_output_frames,
                },
            )
        } else {
            None
        }
    }

    /// A policy that both constructors admit.
    pub open spec fn wf(self) -> bool {
        &&& self.capture.refusal() is None
        &&& self.playback.refusal() is None
        &&& self.refusal() is None
    }

    /// Checks the two direction policies against the graph resource ceiling.
    pub fn try_new(
        attempt_epoch: ClockAttemptEpoch,
        maximum_graph_quantum_frames: usize,
        capture: DirectionBridgeConfig,
        playback: DirectionBridgeConfig,
    ) -> (result: Result<Self, BridgeBuildError>)
        ensures
            ({
                let config = ClockBridgeConfig {
                    attempt_epoch,
                    maximum_graph_quantum_frames,
                    capture,
                    playback,
                };
                result == match config.refusal() {
                    Some(error) => Err::<Self, BridgeBuildError>(error),
                    None => Ok::<Self, BridgeBuildError>(config),
                }
            }),
    {
        if maximum_graph_quantum_frames == 0 {
            return Err(BridgeBuildError::ZeroMaximumGraphQuantum);
        }
        if capture.matcher.channels != WAVE3_CAPTURE_CHANNELS {
            return Err(
                BridgeBuildError::MatcherChannels {
                    domain: BridgeClockDomain::WaveCapture,
                    expected: WAVE3_CAPTURE_CHANNELS,
                    actual: capture.matcher.channels,
                },
            );
        }
        if playback.matcher.channels != WAVE3_PLAYBACK_CHANNELS {
            return Err(
                BridgeBuildError::MatcherChannels {
                    domain: BridgeClockDomain::WavePlayback,
                    expected: WAVE3_PLAYBACK_CHANNELS,
                    actual: playback.matcher.channels,
                },
            );
        }
        if maximum_graph_quantum_frames > capture.matcher.max_output_frames {
            return Err(
                BridgeBuildError::MatcherOutputCapacity {
                    domain: BridgeClockDomain::WaveCapture,
                    required: maximum_graph_quantum_frames,
                    actual: capture.matcher.max_output_frames,
                },
            );
        }
        Ok(ClockBridgeConfig { attempt_epoch, maximum_graph_quantum_frames, capture, playback })
    }
}

/// One direction's policy is admitted exactly if its FIFO is not empty, all three
/// engines agree on the ratio bounds, and its startup range lies above zero and
/// within the FIFO.
pub proof fn law_admitted_direction_has_a_range(direction: DirectionBridgeConfig)
    ensures
        direction.refusal() is None <==> {
            &&& direction.fifo_capacity_frames > 0
            &&& direction.controller.ratio_bounds == direction.matcher.ratio_bounds
            &&& direction.estimator.ratio_bounds == direction.matcher.ratio_bounds
            &&& direction.controller.target_fill_frames > direction.startup_guard_frames
            &&& direction.controller.target_fill_frames + direction.startup_guard_frames
                <= direction.fifo_capacity_frames
        },
        direction.fifo_capacity_frames > 0 && direction.controller.ratio_bounds
            != direction.matcher.ratio_bounds ==> direction.refusal() == Some(
            BridgeBuildError::RatioBoundsDiffer,
        ),
        direction.fifo_capacity_frames > 0 && direction.controller.ratio_bounds
            == direction.matcher.ratio_bounds && direction.estimator.ratio_bounds
            != direction.matcher.ratio_bounds ==> direction.refusal() == Some(
            BridgeBuildError::EstimatorRatioBoundsDiffer,
        ),
{
}

/// A policy is admitted exactly if the graph quantum is positive and fits one
/// capture matcher cycle, capture is mono and playback is stereo; a refusal names
/// the direction at fault.
pub proof fn law_admitted_policy_is_mono_in_and_stereo_out(config: ClockBridgeConfig)
    ensures
        config.refusal() is None <==> {
            &&& 0 < config.maximum_graph_quantum_frames <= config.capture.matcher.max_output_frames
            &&& config.capture.matcher.channels == 1
            &&& config.playback.matcher.channels == 2
        },
        match config.refusal() {
            Some(BridgeBuildError::MatcherChannels { domain, expected, actual }) => {
                ||| domain == BridgeClockDomain::WaveCapture && expected == 1 && actual
                    == config.capture.matcher.channels && actual != 1
                ||| domain == BridgeClockDomain::WavePlayback && expected == 2 && actual
                    == config.playback.matcher.channels && actual != 2
            },
            Some(BridgeBuildError::MatcherOutputCapacity { domain, required, actual }) => {
                &&& domain == BridgeClockDomain::WaveCapture
                &&& required == config.maximum_graph_quantum_frames
                &&& actual == config.capture.matcher.max_output_frames
                &&& actual < required
            },
            Some(BridgeBuildError::ZeroMaximumGraphQuantum) => config.maximum_graph_quantum_frames
                == 0,
            Some(_) => false,
            None => true,
        },
{
}

} // verus!
