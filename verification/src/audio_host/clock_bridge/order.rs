//! The order in which one attempt moves through its states.

use crate::audio_host::clock_bridge::attempt::{activated, SharedAttempt, SharedBridge};
use crate::audio_host::clock_bridge::capture::CaptureReadBoundary;
use crate::audio_host::clock_bridge::errors::BridgeState;
use crate::audio_host::clock_bridge::graph::graph_finished;
use crate::audio_host::clock_bridge::playback::{gate_refuses, playback_finished, PlaybackCycle};
use vstd::prelude::*;

verus! {

/// Whether a successful operation may take an attempt from `from` to `to`.
pub open spec fn follows(from: BridgeState, to: BridgeState) -> bool {
    ||| from == to
    ||| from == BridgeState::Allocated && to == BridgeState::CapturePriming
    ||| from == BridgeState::CapturePriming && to == BridgeState::CaptureFilterDelay
    ||| from == BridgeState::CaptureFilterDelay && to == BridgeState::CaptureEstimatorPriming
    ||| from == BridgeState::CaptureFilterDelay && to == BridgeState::PlaybackPriming
    ||| from == BridgeState::CaptureEstimatorPriming && to == BridgeState::PlaybackPriming
    ||| from == BridgeState::PlaybackPriming && to == BridgeState::PlaybackFilterDelay
    ||| from == BridgeState::PlaybackFilterDelay && to == BridgeState::PlaybackEstimatorPriming
    ||| from == BridgeState::PlaybackEstimatorPriming && to == BridgeState::PlaybackStabilizing
    ||| from == BridgeState::PlaybackStabilizing && to == BridgeState::Primed
    ||| from == BridgeState::Primed && to == BridgeState::Active
    ||| from == BridgeState::Primed && to == BridgeState::PlaybackStabilizing
}

/// Publishing a capture block moves only from capture priming to the filter
/// delay, and only once the target is queued.
pub proof fn law_capture_advances_in_order(attempt: SharedAttempt, fill: int)
    ensures
        follows(attempt.state, CaptureReadBoundary::published_attempt(attempt, fill).state),
        attempt.state == BridgeState::CapturePriming ==> (
        CaptureReadBoundary::published_attempt(attempt, fill).state
            == BridgeState::CaptureFilterDelay <==> fill >= attempt.capture_target),
{
}

/// A finished graph boundary moves an attempt only along the startup order.
pub proof fn law_graph_advances_in_order(
    attempt: SharedAttempt,
    starting_state: BridgeState,
    quantum_frames: usize,
    playback_fill: int,
    measured: bool,
)
    ensures
        follows(
            attempt.state,
            graph_finished(
                attempt,
                starting_state,
                quantum_frames,
                playback_fill,
                measured,
            ).state,
        ),
{
}

/// A delivered playback boundary moves an attempt only along the startup order,
/// and calls it primed only with both fills in their startup ranges.
pub proof fn law_playback_advances_in_order(
    bridge: SharedBridge,
    cycle: PlaybackCycle,
    period_frames: usize,
    measured: bool,
)
    requires
        !gate_refuses(bridge, cycle),
    ensures
        follows(
            bridge.attempt.state,
            playback_finished(bridge, cycle, period_frames, measured).state,
        ),
        bridge.attempt.state != BridgeState::Primed && playback_finished(
            bridge,
            cycle,
            period_frames,
            measured,
        ).state == BridgeState::Primed ==> bridge.attempt.in_startup_guards(
            bridge.capture_ring.fill(),
            cycle.rate.fill - bridge.playback_ring.pending(),
        ),
{
}

/// Activation moves an attempt only along the startup order.
pub proof fn law_activation_advances_in_order(bridge: SharedBridge)
    ensures
        follows(bridge.attempt.state, activated(bridge).1.state),
{
}

} // verus!
