//! Building one attempt before any worker starts.

use crate::audio_host::clock_bridge::attempt::{ClockBridgeControl, SharedAttempt, SharedBridge};
use crate::audio_host::clock_bridge::capture::CaptureIngress;
use crate::audio_host::clock_bridge::config::{ClockBridgeConfig, DirectionBridgeConfig};
use crate::audio_host::clock_bridge::errors::{
    BridgeBuildError, BridgeClockDomain, BridgeState, MixerProfileError, RateMatchError,
};
use crate::audio_host::clock_bridge::graph::{silence, GraphClockProcessor};
use crate::audio_host::clock_bridge::observation::CopySlot;
use crate::audio_host::clock_bridge::playback::PlaybackEgress;
use crate::audio_host::clock_bridge::spsc::{
    allocate_filled, allocate_silence, FrameRing, RingBuildError,
};
use crate::audio_host::pcm::{audio_bytes, Wave3PhysicalIoConfig};
use vstd::prelude::*;

verus! {

/// Why the mixer engine could not be built.
#[derive(Clone, Copy, Debug, Eq, PartialEq, Structural)]
pub enum MixerBuildFailure {
    Config,
    Profile(MixerProfileError),
    Controls,
}

/// What preparing the matchers and the mixer for one attempt brought.
#[derive(Clone, Copy, Debug)]
pub struct PreparedEngine {
    /// Whether the mixer profile is valid.
    pub profile: Result<(), MixerProfileError>,
    /// The most input frames one capture matcher cycle asks for.
    pub capture_matcher: Result<usize, RateMatchError>,
    /// The most input frames one playback matcher cycle asks for.
    pub playback_matcher: Result<usize, RateMatchError>,
    /// The output delay of the warmed capture matcher in frames.
    pub capture_warm: Result<usize, RateMatchError>,
    /// The output delay of the warmed playback matcher in frames.
    pub playback_warm: Result<usize, RateMatchError>,
    /// Whether the mixer engine could be built.
    pub mixer: Result<(), MixerBuildFailure>,
}

/// Why a producer would not find room above the startup range, if it would not.
pub open spec fn headroom_refusal(
    domain: BridgeClockDomain,
    direction: DirectionBridgeConfig,
    required_free_frames: usize,
) -> Option<BridgeBuildError> {
    let available = direction.fifo_capacity_frames - direction.controller.target_fill_frames
        - direction.startup_guard_frames;
    if available < 0 {
        Some(
            BridgeBuildError::InvalidStartupGuard {
                target_fill_frames: direction.controller.target_fill_frames,
                startup_guard_frames: direction.startup_guard_frames,
                fifo_capacity_frames: direction.fifo_capacity_frames,
            },
        )
    } else if available < required_free_frames {
        Some(
            BridgeBuildError::FifoProducerHeadroom {
                domain,
                required_free_frames,
                available_free_frames: available as usize,
            },
        )
    } else {
        None
    }
}

/// Checks that a producer finds room above the startup range.
pub fn require_producer_headroom(
    domain: BridgeClockDomain,
    direction: DirectionBridgeConfig,
    required_free_frames: usize,
) -> (result: Result<(), BridgeBuildError>)
    ensures
        result == match headroom_refusal(domain, direction, required_free_frames) {
            Some(error) => Err::<(), BridgeBuildError>(error),
            None => Ok::<(), BridgeBuildError>(()),
        },
{
    let invalid = BridgeBuildError::InvalidStartupGuard {
        target_fill_frames: direction.controller.target_fill_frames,
        startup_guard_frames: direction.startup_guard_frames,
        fifo_capacity_frames: direction.fifo_capacity_frames,
    };
    let remaining: usize = match direction.fifo_capacity_frames.checked_sub(
        direction.controller.target_fill_frames,
    ) {
        Some(remaining) => remaining,
        None => {
            return Err(invalid);
        },
    };
    let available_free_frames: usize = match remaining.checked_sub(direction.startup_guard_frames) {
        Some(available) => available,
        None => {
            return Err(invalid);
        },
    };
    if available_free_frames < required_free_frames {
        return Err(
            BridgeBuildError::FifoProducerHeadroom {
                domain,
                required_free_frames,
                available_free_frames,
            },
        );
    }
    Ok(())
}

/// Why the physical geometry does not fit the policy, if it does not.
pub open spec fn geometry_refusal(physical: Wave3PhysicalIoConfig, config: ClockBridgeConfig)
    -> Option<BridgeBuildError> {
    let capture_period = physical.capture.period_frames as usize;
    let playback_period = physical.playback.period_frames as usize;
    let quantum = config.maximum_graph_quantum_frames;
    if audio_bytes(capture_period as int, 1) is Err || audio_bytes(playback_period as int, 2) is Err {
        Some(BridgeBuildError::PhysicalGeometry)
    } else if playback_period > config.playback.matcher.max_output_frames {
        Some(
            BridgeBuildError::MatcherOutputCapacity {
                domain: BridgeClockDomain::WavePlayback,
                required: playback_period,
                actual: config.playback.matcher.max_output_frames,
            },
        )
    } else if capture_period > config.capture.fifo_capacity_frames {
        Some(
            BridgeBuildError::FifoCapacity {
                domain: BridgeClockDomain::WaveCapture,
                required: capture_period,
                actual: config.capture.fifo_capacity_frames,
            },
        )
    } else if quantum > config.playback.fifo_capacity_frames {
        Some(
            BridgeBuildError::FifoCapacity {
                domain: BridgeClockDomain::WavePlayback,
                required: quantum,
                actual: config.playback.fifo_capacity_frames,
            },
        )
    } else if headroom_refusal(
        BridgeClockDomain::WaveCapture,
        config.capture,
        capture_period,
    ) is Some {
        headroom_refusal(BridgeClockDomain::WaveCapture, config.capture, capture_period)
    } else {
        headroom_refusal(BridgeClockDomain::WavePlayback, config.playback, quantum)
    }
}

/// Checks the physical geometry against the policy.
pub fn validate_geometry(physical: Wave3PhysicalIoConfig, config: ClockBridgeConfig) -> (result:
    Result<(), BridgeBuildError>)
    ensures
        result == match geometry_refusal(physical, config) {
            Some(error) => Err::<(), BridgeBuildError>(error),
            None => Ok::<(), BridgeBuildError>(()),
        },
{
    let capture_period: usize = physical.capture().period_frames() as usize;
    let playback_period: usize = physical.playback().period_frames() as usize;
    if physical.capture_period_bytes().is_err() || physical.playback_period_bytes().is_err() {
        return Err(BridgeBuildError::PhysicalGeometry);
    }
    if playback_period > config.playback.matcher.max_output_frames {
        return Err(
            BridgeBuildError::MatcherOutputCapacity {
                domain: BridgeClockDomain::WavePlayback,
                required: playback_period,
                actual: config.playback.matcher.max_output_frames,
            },
        );
    }
    if capture_period > config.capture.fifo_capacity_frames {
        return Err(
            BridgeBuildError::FifoCapacity {
                domain: BridgeClockDomain::WaveCapture,
                required: capture_period,
                actual: config.capture.fifo_capacity_frames,
            },
        );
    }
    if config.maximum_graph_quantum_frames > config.playback.fifo_capacity_frames {
        return Err(
            BridgeBuildError::FifoCapacity {
                domain: BridgeClockDomain::WavePlayback,
                required: config.maximum_graph_quantum_frames,
                actual: config.playback.fifo_capacity_frames,
            },
        );
    }
    require_producer_headroom(BridgeClockDomain::WaveCapture, config.capture, capture_period)?;
    require_producer_headroom(
        BridgeClockDomain::WavePlayback,
        config.playback,
        config.maximum_graph_quantum_frames,
    )
}

/// Why a matcher's largest request does not fit its FIFO's capacity, if it does
/// not.
pub open spec fn request_refusal(
    domain: BridgeClockDomain,
    direction: DirectionBridgeConfig,
    maximum_input_frames: usize,
) -> Option<BridgeBuildError> {
    if maximum_input_frames > direction.fifo_capacity_frames {
        Some(
            BridgeBuildError::FifoCapacity {
                domain,
                required: maximum_input_frames,
                actual: direction.fifo_capacity_frames,
            },
        )
    } else {
        None
    }
}

/// Why the startup range does not cover a matcher's largest request, if it does
/// not.
pub open spec fn range_refusal(
    domain: BridgeClockDomain,
    direction: DirectionBridgeConfig,
    maximum_input_frames: usize,
) -> Option<BridgeBuildError> {
    let target = direction.controller.target_fill_frames;
    let minimum_fill = if target >= direction.startup_guard_frames {
        (target - direction.startup_guard_frames) as usize
    } else {
        0
    };
    if minimum_fill < maximum_input_frames {
        Some(BridgeBuildError::FifoOperatingRange { domain, minimum_fill, maximum_input_frames })
    } else {
        None
    }
}

/// Checks that the startup range covers a matcher's largest request.
pub fn require_operating_range(
    domain: BridgeClockDomain,
    direction: DirectionBridgeConfig,
    maximum_input_frames: usize,
) -> (result: Result<(), BridgeBuildError>)
    ensures
        result == match range_refusal(domain, direction, maximum_input_frames) {
            Some(error) => Err::<(), BridgeBuildError>(error),
            None => Ok::<(), BridgeBuildError>(()),
        },
{
    let minimum_fill: usize = direction.controller.target_fill_frames.saturating_sub(
        direction.startup_guard_frames,
    );
    if minimum_fill < maximum_input_frames {
        return Err(
            BridgeBuildError::FifoOperatingRange { domain, minimum_fill, maximum_input_frames },
        );
    }
    Ok(())
}

fn require_request_capacity(
    domain: BridgeClockDomain,
    direction: DirectionBridgeConfig,
    maximum_input_frames: usize,
) -> (result: Result<(), BridgeBuildError>)
    ensures
        result == match request_refusal(domain, direction, maximum_input_frames) {
            Some(error) => Err::<(), BridgeBuildError>(error),
            None => Ok::<(), BridgeBuildError>(()),
        },
{
    if maximum_input_frames > direction.fifo_capacity_frames {
        return Err(
            BridgeBuildError::FifoCapacity {
                domain,
                required: maximum_input_frames,
                actual: direction.fifo_capacity_frames,
            },
        );
    }
    Ok(())
}

/// Why an attempt is refused before anything is allocated, if it is.
pub open spec fn build_refusal(
    physical: Wave3PhysicalIoConfig,
    prepared: PreparedEngine,
    config: ClockBridgeConfig,
) -> Option<BridgeBuildError> {
    let capture = BridgeClockDomain::WaveCapture;
    let playback = BridgeClockDomain::WavePlayback;
    if prepared.profile is Err {
        Some(BridgeBuildError::Profile(prepared.profile->Err_0))
    } else if geometry_refusal(physical, config) is Some {
        geometry_refusal(physical, config)
    } else if prepared.capture_matcher is Err {
        Some(
            BridgeBuildError::RateMatcher {
                domain: capture,
                error: prepared.capture_matcher->Err_0,
            },
        )
    } else if prepared.playback_matcher is Err {
        Some(
            BridgeBuildError::RateMatcher {
                domain: playback,
                error: prepared.playback_matcher->Err_0,
            },
        )
    } else if request_refusal(capture, config.capture, prepared.capture_matcher->Ok_0) is Some {
        request_refusal(capture, config.capture, prepared.capture_matcher->Ok_0)
    } else if request_refusal(playback, config.playback, prepared.playback_matcher->Ok_0) is Some {
        request_refusal(playback, config.playback, prepared.playback_matcher->Ok_0)
    } else if range_refusal(capture, config.capture, prepared.capture_matcher->Ok_0) is Some {
        range_refusal(capture, config.capture, prepared.capture_matcher->Ok_0)
    } else if range_refusal(playback, config.playback, prepared.playback_matcher->Ok_0) is Some {
        range_refusal(playback, config.playback, prepared.playback_matcher->Ok_0)
    } else if prepared.capture_warm is Err {
        Some(
            BridgeBuildError::RateMatcher { domain: capture, error: prepared.capture_warm->Err_0 },
        )
    } else if prepared.playback_warm is Err {
        Some(
            BridgeBuildError::RateMatcher {
                domain: playback,
                error: prepared.playback_warm->Err_0,
            },
        )
    } else {
        None
    }
}

/// The build failure that a failed mixer build means.
pub open spec fn mixer_failure(failure: MixerBuildFailure) -> BridgeBuildError {
    match failure {
        MixerBuildFailure::Config => BridgeBuildError::EngineConfig,
        MixerBuildFailure::Profile(error) => BridgeBuildError::Profile(error),
        MixerBuildFailure::Controls => BridgeBuildError::ControlMapping,
    }
}

fn run_checks(physical: Wave3PhysicalIoConfig, prepared: PreparedEngine, config: ClockBridgeConfig)
    -> (result: Result<(), BridgeBuildError>)
    ensures
        result == match build_refusal(physical, prepared, config) {
            Some(error) => Err::<(), BridgeBuildError>(error),
            None => Ok::<(), BridgeBuildError>(()),
        },
{
    if let Err(error) = prepared.profile {
        return Err(BridgeBuildError::Profile(error));
    }
    validate_geometry(physical, config)?;
    let capture = BridgeClockDomain::WaveCapture;
    let playback = BridgeClockDomain::WavePlayback;
    let capture_input_frames: usize = match prepared.capture_matcher {
        Ok(frames) => frames,
        Err(error) => {
            return Err(BridgeBuildError::RateMatcher { domain: capture, error });
        },
    };
    let playback_input_frames: usize = match prepared.playback_matcher {
        Ok(frames) => frames,
        Err(error) => {
            return Err(BridgeBuildError::RateMatcher { domain: playback, error });
        },
    };
    require_request_capacity(capture, config.capture, capture_input_frames)?;
    require_request_capacity(playback, config.playback, playback_input_frames)?;
    require_operating_range(capture, config.capture, capture_input_frames)?;
    require_operating_range(playback, config.playback, playback_input_frames)?;
    if let Err(error) = prepared.capture_warm {
        return Err(BridgeBuildError::RateMatcher { domain: capture, error });
    }
    if let Err(error) = prepared.playback_warm {
        return Err(BridgeBuildError::RateMatcher { domain: playback, error });
    }
    Ok(())
}

/// The two FIFOs of one attempt.
#[derive(Debug)]
pub struct BridgeRings {
    pub capture: FrameRing<1>,
    pub playback: FrameRing<2>,
}

impl BridgeRings {
    /// Whether both FIFOs are new and have the capacities of `config`.
    pub open spec fn fit(self, config: ClockBridgeConfig) -> bool {
        &&& self.capture.is_new(config.capture.fifo_capacity_frames)
        &&& self.playback.is_new(config.playback.fifo_capacity_frames)
    }
}

/// The buffers of every role of one attempt.
#[derive(Debug)]
pub struct BridgeBuffers {
    pub decode: Vec<u32>,
    pub capture_input: Vec<u32>,
    pub capture_matched: Vec<u32>,
    pub microphone_input: Vec<u32>,
    pub system_input: Vec<u32>,
    pub microphone_output: Vec<u32>,
    pub monitor_output: Vec<u32>,
    pub stream_output: Vec<u32>,
    pub playback_input: Vec<u32>,
    pub playback_output: Vec<u32>,
    pub encoded: Vec<u8>,
}

impl BridgeBuffers {
    /// Whether every buffer is silent and has the length that an attempt needs.
    pub open spec fn fit(
        self,
        physical: Wave3PhysicalIoConfig,
        prepared: PreparedEngine,
        config: ClockBridgeConfig,
    ) -> bool {
        let quantum = config.maximum_graph_quantum_frames as nat;
        let playback_period = physical.playback.period_frames as nat;
        &&& self.decode@ == silence(physical.capture.period_frames as nat)
        &&& self.capture_input@ == silence(prepared.capture_matcher->Ok_0 as nat)
        &&& self.capture_matched@ == silence(quantum)
        &&& self.microphone_input@ == silence(2 * quantum)
        &&& self.system_input@ == silence(2 * quantum)
        &&& self.microphone_output@ == silence(2 * quantum)
        &&& self.monitor_output@ == silence(2 * quantum)
        &&& self.stream_output@ == silence(2 * quantum)
        &&& self.playback_input@ == silence(2 * prepared.playback_matcher->Ok_0 as nat)
        &&& self.playback_output@ == silence(2 * playback_period)
        &&& self.encoded@ == Seq::new(6 * playback_period, |i: int| 0u8)
    }
}

fn allocate_rings(config: ClockBridgeConfig) -> (result: Result<BridgeRings, RingBuildError>)
    ensures
        result is Ok ==> result->Ok_0.fit(config),
{
    let capture = FrameRing::<1>::try_new(config.capture.fifo_capacity_frames)?;
    let playback = FrameRing::<2>::try_new(config.playback.fifo_capacity_frames)?;
    Ok(BridgeRings { capture, playback })
}

fn allocate_buffers(
    physical: Wave3PhysicalIoConfig,
    prepared: PreparedEngine,
    config: ClockBridgeConfig,
) -> (result: Option<BridgeBuffers>)
    requires
        build_refusal(physical, prepared, config) is None,
    ensures
        result is Some ==> result->Some_0.fit(physical, prepared, config),
{
    let quantum: usize = config.maximum_graph_quantum_frames;
    let graph_samples: usize = quantum.checked_mul(2)?;
    let playback_input_samples: usize = prepared.playback_matcher.unwrap().checked_mul(2)?;
    let playback_period: usize = physical.playback().period_frames() as usize;
    let playback_bytes: usize = physical.playback_period_bytes().unwrap();
    Some(
        BridgeBuffers {
            decode: allocate_silence(physical.capture().period_frames() as usize)?,
            capture_input: allocate_silence(prepared.capture_matcher.unwrap())?,
            capture_matched: allocate_silence(quantum)?,
            microphone_input: allocate_silence(graph_samples)?,
            system_input: allocate_silence(graph_samples)?,
            microphone_output: allocate_silence(graph_samples)?,
            monitor_output: allocate_silence(graph_samples)?,
            stream_output: allocate_silence(graph_samples)?,
            playback_input: allocate_silence(playback_input_samples)?,
            playback_output: allocate_silence(2 * playback_period)?,
            encoded: allocate_filled(playback_bytes, 0u8)?,
        },
    )
}

/// All single-owner roles created for one attempt, and what they share.
#[derive(Debug)]
pub struct ClockBridgeParts {
    pub bridge: SharedBridge,
    pub capture_ingress: CaptureIngress,
    pub graph: GraphClockProcessor,
    pub playback: PlaybackEgress,
    pub control: ClockBridgeControl,
}

/// The lifecycle of a freshly built attempt.
pub open spec fn fresh_attempt(prepared: PreparedEngine, config: ClockBridgeConfig)
    -> SharedAttempt {
    SharedAttempt {
        attempt_epoch: config.attempt_epoch,
        state: BridgeState::Allocated,
        capture_delay_remaining: prepared.capture_warm->Ok_0,
        playback_delay_remaining: prepared.playback_warm->Ok_0,
        capture_in_flight: 0,
        graph_in_flight: 0,
        playback_in_flight: 0,
        capture_target: config.capture.controller.target_fill_frames,
        capture_guard: config.capture.startup_guard_frames,
        playback_target: config.playback.controller.target_fill_frames,
        playback_guard: config.playback.startup_guard_frames,
    }
}

impl ClockBridgeParts {
    /// Every role and everything they share is valid.
    pub open spec fn wf(self) -> bool {
        &&& self.bridge.wf()
        &&& self.capture_ingress.wf()
        &&& self.graph.wf()
        &&& self.playback.wf()
    }

    /// Whether these are the parts of a fresh attempt.
    pub open spec fn fresh(
        self,
        physical: Wave3PhysicalIoConfig,
        prepared: PreparedEngine,
        config: ClockBridgeConfig,
    ) -> bool {
        let capture_period = physical.capture.period_frames as usize;
        let playback_period = physical.playback.period_frames as usize;
        let quantum = config.maximum_graph_quantum_frames;
        &&& self.wf()
        &&& self.bridge.attempt == fresh_attempt(prepared, config)
        &&& self.bridge.capture_ring.is_new(config.capture.fifo_capacity_frames)
        &&& self.bridge.playback_ring.is_new(config.playback.fifo_capacity_frames)
        &&& self.bridge.capture_observation.value is None
        &&& self.bridge.graph_observation.value is None
        &&& self.capture_ingress.maximum_frames == capture_period
        &&& self.capture_ingress.application_position == 0
        &&& self.capture_ingress.last_observation is None
        &&& self.graph.capture_input@ == silence(prepared.capture_matcher->Ok_0 as nat)
        &&& self.graph.maximum_quantum == quantum
        &&& self.graph.last_observation is None
        &&& self.graph.fixed_quantum is None
        &&& self.playback.input@ == silence(2 * prepared.playback_matcher->Ok_0 as nat)
        &&& self.playback.period_frames == playback_period
        &&& self.playback.submitted_position == 0
        &&& self.playback.last_hardware_observation is None
        &&& self.control.attempt_epoch == config.attempt_epoch
    }

    /// Allocates and splits one attempt before any worker starts.
    ///
    /// `prepared` is what preparing the matchers and the mixer brought. Apart
    /// from the stated refusals only a failed allocation refuses an attempt;
    /// [`assemble`](Self::assemble) says what each outcome of it leads to.
    pub fn new(
        physical: Wave3PhysicalIoConfig,
        prepared: PreparedEngine,
        config: ClockBridgeConfig,
    ) -> (result: Result<Self, BridgeBuildError>)
        ensures
            match build_refusal(physical, prepared, config) {
                Some(error) => result == Err::<Self, BridgeBuildError>(error),
                None => match result {
                    Ok(parts) => prepared.mixer is Ok && parts.fresh(physical, prepared, config),
                    Err(error) => error == BridgeBuildError::Allocation || (prepared.mixer is Err
                        && error == mixer_failure(prepared.mixer->Err_0)),
                },
            },
    {
        run_checks(physical, prepared, config)?;
        let rings = allocate_rings(config);
        let buffers = if rings.is_ok() && prepared.mixer.is_ok() {
            allocate_buffers(physical, prepared, config)
        } else {
            None
        };
        Self::assemble(physical, prepared, config, rings, buffers)
    }

    /// Splits an admitted attempt, given what allocating its FIFOs and then its
    /// buffers brought. The FIFOs are judged first, then the mixer, then the
    /// buffers.
    pub fn assemble(
        physical: Wave3PhysicalIoConfig,
        prepared: PreparedEngine,
        config: ClockBridgeConfig,
        rings: Result<BridgeRings, RingBuildError>,
        buffers: Option<BridgeBuffers>,
    ) -> (result: Result<Self, BridgeBuildError>)
        requires
            build_refusal(physical, prepared, config) is None,
            rings is Ok ==> rings->Ok_0.fit(config),
            buffers is Some ==> buffers->Some_0.fit(physical, prepared, config),
        ensures
            if rings is Err {
                result == Err::<Self, BridgeBuildError>(BridgeBuildError::Allocation)
            } else if prepared.mixer is Err {
                result == Err::<Self, BridgeBuildError>(mixer_failure(prepared.mixer->Err_0))
            } else if buffers is None {
                result == Err::<Self, BridgeBuildError>(BridgeBuildError::Allocation)
            } else {
                result is Ok && result->Ok_0.fresh(physical, prepared, config)
            },
    {
        let rings = match rings {
            Ok(rings) => rings,
            Err(error) => {
                return Err(map_ring_build(error));
            },
        };
        match prepared.mixer {
            Ok(()) => {},
            Err(MixerBuildFailure::Config) => {
                return Err(BridgeBuildError::EngineConfig);
            },
            Err(MixerBuildFailure::Profile(error)) => {
                return Err(BridgeBuildError::Profile(error));
            },
            Err(MixerBuildFailure::Controls) => {
                return Err(BridgeBuildError::ControlMapping);
            },
        }
        let buffers = match buffers {
            Some(buffers) => buffers,
            None => {
                return Err(BridgeBuildError::Allocation);
            },
        };
        let attempt = SharedAttempt {
            attempt_epoch: config.attempt_epoch,
            state: BridgeState::Allocated,
            capture_delay_remaining: prepared.capture_warm.unwrap(),
            playback_delay_remaining: prepared.playback_warm.unwrap(),
            capture_in_flight: 0,
            graph_in_flight: 0,
            playback_in_flight: 0,
            capture_target: config.capture.controller.target_fill_frames,
            capture_guard: config.capture.startup_guard_frames,
            playback_target: config.playback.controller.target_fill_frames,
            playback_guard: config.playback.startup_guard_frames,
        };
        proof {
            assert(buffers.microphone_input.len() == 2 * config.maximum_graph_quantum_frames);
        }
        Ok(
            ClockBridgeParts {
                bridge: SharedBridge {
                    attempt,
                    capture_ring: rings.capture,
                    playback_ring: rings.playback,
                    capture_observation: CopySlot::new(),
                    graph_observation: CopySlot::new(),
                },
                capture_ingress: CaptureIngress {
                    decode: buffers.decode,
                    maximum_frames: physical.capture().period_frames() as usize,
                    application_position: 0,
                    last_observation: None,
                },
                graph: GraphClockProcessor {
                    capture_input: buffers.capture_input,
                    capture_matched: buffers.capture_matched,
                    microphone_input: buffers.microphone_input,
                    system_input: buffers.system_input,
                    microphone_output: buffers.microphone_output,
                    monitor_output: buffers.monitor_output,
                    stream_output: buffers.stream_output,
                    maximum_quantum: config.maximum_graph_quantum_frames,
                    last_observation: None,
                    fixed_quantum: None,
                },
                playback: PlaybackEgress {
                    input: buffers.playback_input,
                    output: buffers.playback_output,
                    encoded: buffers.encoded,
                    period_frames: physical.playback().period_frames() as usize,
                    submitted_position: 0,
                    last_hardware_observation: None,
                },
                control: ClockBridgeControl { attempt_epoch: config.attempt_epoch },
            },
        )
    }
}

/// Every failure to build a ring is an allocation failure of the attempt.
pub fn map_ring_build(_error: RingBuildError) -> (failure: BridgeBuildError)
    ensures
        failure == BridgeBuildError::Allocation,
{
    BridgeBuildError::Allocation
}

/// In an admitted attempt every operating point has room: the producer can add
/// its largest block on top of the startup range, and the startup range covers
/// the matcher's largest request.
pub proof fn law_admitted_attempt_has_room(
    physical: Wave3PhysicalIoConfig,
    prepared: PreparedEngine,
    config: ClockBridgeConfig,
    capture_fill: int,
    playback_fill: int,
)
    requires
        build_refusal(physical, prepared, config) is None,
        fresh_attempt(prepared, config).in_startup_guards(capture_fill, playback_fill),
        capture_fill >= 0,
        playback_fill >= 0,
    ensures
        capture_fill + physical.capture.period_frames <= config.capture.fifo_capacity_frames,
        playback_fill + config.maximum_graph_quantum_frames
            <= config.playback.fifo_capacity_frames,
        prepared.capture_matcher->Ok_0 <= capture_fill,
        prepared.playback_matcher->Ok_0 <= playback_fill,
{
}

/// The parts of a fresh attempt take each direction from its own half of the
/// policy and of the geometry: capture delays, targets, guards, FIFO and read size
/// from capture, playback ones from playback. Nothing is queued, observed or in
/// flight, and every position is zero.
pub proof fn law_fresh_parts_keep_the_directions_apart(
    parts: ClockBridgeParts,
    physical: Wave3PhysicalIoConfig,
    prepared: PreparedEngine,
    config: ClockBridgeConfig,
)
    requires
        parts.fresh(physical, prepared, config),
    ensures
        parts.bridge.attempt.state == BridgeState::Allocated,
        parts.bridge.attempt.attempt_epoch == config.attempt_epoch,
        parts.control.attempt_epoch == config.attempt_epoch,
        parts.bridge.attempt.capture_delay_remaining == prepared.capture_warm->Ok_0,
        parts.bridge.attempt.playback_delay_remaining == prepared.playback_warm->Ok_0,
        parts.bridge.attempt.capture_target == config.capture.controller.target_fill_frames,
        parts.bridge.attempt.playback_target == config.playback.controller.target_fill_frames,
        parts.bridge.attempt.capture_guard == config.capture.startup_guard_frames,
        parts.bridge.attempt.playback_guard == config.playback.startup_guard_frames,
        parts.bridge.attempt.capture_in_flight == 0,
        parts.bridge.attempt.graph_in_flight == 0,
        parts.bridge.attempt.playback_in_flight == 0,
        parts.bridge.capture_ring.capacity_frames == config.capture.fifo_capacity_frames,
        parts.bridge.playback_ring.capacity_frames == config.playback.fifo_capacity_frames,
        parts.bridge.capture_ring.queued().len() == 0,
        parts.bridge.playback_ring.queued().len() == 0,
        parts.bridge.capture_ring.pending_frames is None,
        parts.bridge.playback_ring.pending_frames is None,
        parts.bridge.capture_observation.value is None,
        parts.bridge.graph_observation.value is None,
        parts.capture_ingress.maximum_frames == physical.capture.period_frames,
        parts.capture_ingress.decode@.len() == physical.capture.period_frames,
        parts.capture_ingress.application_position == 0,
        parts.capture_ingress.last_observation is None,
        parts.graph.maximum_quantum == config.maximum_graph_quantum_frames,
        parts.graph.capture_input@.len() == prepared.capture_matcher->Ok_0,
        parts.graph.fixed_quantum is None,
        parts.graph.last_observation is None,
        parts.playback.period_frames == physical.playback.period_frames,
        parts.playback.input@.len() == 2 * prepared.playback_matcher->Ok_0,
        parts.playback.output@.len() == 2 * physical.playback.period_frames,
        parts.playback.encoded@.len() == 6 * physical.playback.period_frames,
        parts.playback.submitted_position == 0,
        parts.playback.last_hardware_observation is None,
{
}

/// An attempt is admitted exactly if the profile is valid, both matchers could be
/// built and warmed, and in each direction the device period or the graph quantum,
/// the startup range and the matcher's largest request fit together.
pub proof fn law_admitted_attempt_fits(
    physical: Wave3PhysicalIoConfig,
    prepared: PreparedEngine,
    config: ClockBridgeConfig,
)
    ensures
        build_refusal(physical, prepared, config) is None <==> {
            &&& prepared.profile is Ok
            &&& prepared.capture_matcher is Ok
            &&& prepared.playback_matcher is Ok
            &&& prepared.capture_warm is Ok
            &&& prepared.playback_warm is Ok
            &&& 3 * physical.capture.period_frames <= usize::MAX
            &&& 6 * physical.playback.period_frames <= usize::MAX
            &&& physical.playback.period_frames as usize
                <= config.playback.matcher.max_output_frames
            &&& config.capture.controller.target_fill_frames + config.capture.startup_guard_frames
                + physical.capture.period_frames <= config.capture.fifo_capacity_frames
            &&& config.playback.controller.target_fill_frames
                + config.playback.startup_guard_frames + config.maximum_graph_quantum_frames
                <= config.playback.fifo_capacity_frames
            &&& prepared.capture_matcher->Ok_0 <= config.capture.fifo_capacity_frames
            &&& prepared.playback_matcher->Ok_0 <= config.playback.fifo_capacity_frames
            &&& prepared.capture_matcher->Ok_0 + config.capture.startup_guard_frames
                <= config.capture.controller.target_fill_frames || prepared.capture_matcher->Ok_0
                == 0
            &&& prepared.playback_matcher->Ok_0 + config.playback.startup_guard_frames
                <= config.playback.controller.target_fill_frames || prepared.playback_matcher->Ok_0
                == 0
        },
{
}

/// A refusal for want of room names the direction, what it needs and what there
/// is.
pub proof fn law_room_refusals_name_their_direction(
    domain: BridgeClockDomain,
    direction: DirectionBridgeConfig,
    frames: usize,
)
    ensures
        match headroom_refusal(domain, direction, frames) {
            None => direction.controller.target_fill_frames + direction.startup_guard_frames
                + frames <= direction.fifo_capacity_frames,
            Some(BridgeBuildError::FifoProducerHeadroom {
                domain: named,
                required_free_frames,
                available_free_frames,
            }) => {
                &&& named == domain
                &&& required_free_frames == frames
                &&& available_free_frames + direction.controller.target_fill_frames
                    + direction.startup_guard_frames == direction.fifo_capacity_frames
                &&& available_free_frames < frames
            },
            Some(BridgeBuildError::InvalidStartupGuard {
                target_fill_frames,
                startup_guard_frames,
                fifo_capacity_frames,
            }) => {
                &&& target_fill_frames == direction.controller.target_fill_frames
                &&& startup_guard_frames == direction.startup_guard_frames
                &&& fifo_capacity_frames == direction.fifo_capacity_frames
                &&& target_fill_frames + startup_guard_frames > fifo_capacity_frames
            },
            Some(_) => false,
        },
        match range_refusal(domain, direction, frames) {
            None => frames + direction.startup_guard_frames
                <= direction.controller.target_fill_frames || frames == 0,
            Some(BridgeBuildError::FifoOperatingRange {
                domain: named,
                minimum_fill,
                maximum_input_frames,
            }) => {
                &&& named == domain
                &&& maximum_input_frames == frames
                &&& minimum_fill < frames
                &&& minimum_fill + direction.startup_guard_frames
                    == direction.controller.target_fill_frames || (minimum_fill == 0
                    && direction.startup_guard_frames > direction.controller.target_fill_frames)
            },
            Some(_) => false,
        },
        match request_refusal(domain, direction, frames) {
            None => frames <= direction.fifo_capacity_frames,
            Some(error) => frames > direction.fifo_capacity_frames && error == (
            BridgeBuildError::FifoCapacity {
                domain,
                required: frames,
                actual: direction.fifo_capacity_frames,
            }),
        },
{
}

/// Each kind of mixer build failure is reported as itself.
pub proof fn law_mixer_failures_stay_apart(failure: MixerBuildFailure)
    ensures
        failure is Config <==> mixer_failure(failure) == BridgeBuildError::EngineConfig,
        failure is Controls <==> mixer_failure(failure) == BridgeBuildError::ControlMapping,
        match failure {
            MixerBuildFailure::Profile(error) => mixer_failure(failure)
                == BridgeBuildError::Profile(error),
            _ => !(mixer_failure(failure) is Profile),
        },
{
}

/// A refusal of the geometry names the direction that lacks room, what it needs
/// and what there is: the matcher must hold one playback period, the capture FIFO
/// one capture period, and the playback FIFO one graph quantum.
pub proof fn law_geometry_refusals_name_their_numbers(
    physical: Wave3PhysicalIoConfig,
    config: ClockBridgeConfig,
)
    requires
        physical.wf(),
    ensures
        match geometry_refusal(physical, config) {
            None => {
                &&& physical.playback.period_frames <= config.playback.matcher.max_output_frames
                &&& physical.capture.period_frames <= config.capture.fifo_capacity_frames
                &&& config.maximum_graph_quantum_frames <= config.playback.fifo_capacity_frames
            },
            Some(BridgeBuildError::MatcherOutputCapacity { domain, required, actual }) => {
                &&& domain == BridgeClockDomain::WavePlayback
                &&& required == physical.playback.period_frames
                &&& actual == config.playback.matcher.max_output_frames
                &&& required > actual
            },
            Some(BridgeBuildError::FifoCapacity { domain, required, actual }) => {
                ||| {
                    &&& domain == BridgeClockDomain::WaveCapture
                    &&& required == physical.capture.period_frames
                    &&& actual == config.capture.fifo_capacity_frames
                    &&& required > actual
                }
                ||| {
                    &&& domain == BridgeClockDomain::WavePlayback
                    &&& required == config.maximum_graph_quantum_frames
                    &&& actual == config.playback.fifo_capacity_frames
                    &&& required > actual
                }
            },
            Some(BridgeBuildError::FifoProducerHeadroom {
                domain,
                required_free_frames,
                available_free_frames,
            }) => {
                &&& required_free_frames > available_free_frames
                &&& domain == BridgeClockDomain::WaveCapture ==> required_free_frames
                    == physical.capture.period_frames
                &&& domain == BridgeClockDomain::WavePlayback ==> required_free_frames
                    == config.maximum_graph_quantum_frames
                &&& domain != BridgeClockDomain::PipeWireGraph
            },
            Some(error) => error is InvalidStartupGuard,
        },
{
}

} // verus!
