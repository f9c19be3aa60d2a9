//! The order of one boundary around the rate engine, the mixer and the device.
//!
//! The rate engine previews everything it does. A boundary tells it to keep that
//! only once every handover of the boundary is committed, and to drop it in every
//! other case.

use crate::audio_host::clock_bridge::attempt::SharedBridge;
use crate::audio_host::clock_bridge::errors::{
    peek_failure, BridgeClockDomain, BridgeError, BridgeState, PlaybackWriteError, ProcessError,
    RateMatchError,
};
use crate::audio_host::clock_bridge::graph::{
    graph_abandoned, graph_state_refusal, interleaved, law_interleaving_alternates_the_channels,
    output_after, system_samples, GraphClockProcessor, GraphCycle, GraphOutputBuffers,
    GraphProcessReport, GraphSystemInput,
};
use crate::audio_host::clock_bridge::observation::{
    GraphClockObservation, PlaybackClockObservation,
};
use crate::audio_host::clock_bridge::playback::{
    playback_state_refusal, PlaybackCycle, PlaybackEgress, PlaybackProcessReport,
    PlaybackSubmissionProgress,
};
use crate::audio_host::clock_bridge::rate::{
    rate_failure, EstimatorReading, RateFailure, RateRequest,
};
use crate::audio_host::clock_bridge::spsc::law_refused_reads_say_why;
use crate::audio_host::pcm::{encode_refusal, encoded_s24};
use vstd::prelude::*;

verus! {

/// What a graph boundary is waiting for.
#[derive(Clone, Copy, Debug, Eq, PartialEq, Structural)]
pub enum GraphStage {
    /// Preview the handed-over sample or read what was measured before, then call
    /// [`GraphBoundary::on_estimate`].
    Estimating,
    /// Run the controller and prepare the matcher for one quantum, then call
    /// [`GraphBoundary::on_prepared`].
    Preparing { request: RateRequest },
    /// Convert the capture input to the matched samples, then call
    /// [`GraphBoundary::on_converted`].
    Converting { request: RateRequest, input_frames: usize },
    /// Mix the microphone and System inputs, then call
    /// [`GraphBoundary::on_mixed`].
    Mixing { request: RateRequest },
    /// Keep what the engine previewed and publish the meters.
    Committed { report: GraphProcessReport },
    /// Drop what the engine previewed.
    Abandoned { error: BridgeError },
}

/// Everything a graph boundary works on, between two of its steps: the processor,
/// the bridge, and both channels of the three public outputs.
pub struct GraphMoment {
    pub processor: GraphClockProcessor,
    pub bridge: SharedBridge,
    pub microphone: (Seq<u32>, Seq<u32>),
    pub monitor: (Seq<u32>, Seq<u32>),
    pub stream: (Seq<u32>, Seq<u32>),
}

impl GraphMoment {
    /// The processor and the bridge of this moment.
    pub open spec fn owned(self) -> (GraphClockProcessor, SharedBridge) {
        (self.processor, self.bridge)
    }

    /// Whether the six public outputs are those of `other`.
    pub open spec fn same_outputs(self, other: Self) -> bool {
        self.microphone == other.microphone && self.monitor == other.monitor && self.stream
            == other.stream
    }

    /// This moment with the buffers that the engine fills as they are in `other`.
    pub open spec fn unfilled(self, other: Self) -> Self {
        GraphMoment {
            processor: GraphClockProcessor {
                capture_matched: other.processor.capture_matched,
                microphone_output: other.processor.microphone_output,
                monitor_output: other.processor.monitor_output,
                stream_output: other.processor.stream_output,
                ..self.processor
            },
            ..self
        }
    }
}

/// What the engine told an admitted graph boundary.
pub enum GraphEvent {
    Estimated(EstimatorReading),
    Prepared(Result<usize, RateFailure>),
    Converted(Result<(), RateMatchError>),
    Mixed(Result<bool, ProcessError>),
}

/// An admitted graph boundary and what it works on.
pub struct GraphPoint {
    pub boundary: GraphBoundary,
    pub moment: GraphMoment,
}

impl GraphPoint {
    /// Whether `event` leads from here to `after`, where the engine may have
    /// filled its buffers for the next step. No other owner of the bridge acts in
    /// between.
    pub open spec fn leads_to(self, event: GraphEvent, after: Self) -> bool {
        let then = after.moment.unfilled(self.moment);
        match (self.boundary.stage, event) {
            (GraphStage::Estimating, GraphEvent::Estimated(reading)) => {
                &&& self.boundary.estimated(
                    after.boundary,
                    self.moment.bridge,
                    then.bridge,
                    reading,
                )
                &&& then.processor == self.moment.processor
                &&& then.same_outputs(self.moment)
            },
            (GraphStage::Preparing { .. }, GraphEvent::Prepared(prepared)) => {
                &&& self.boundary.prepared_to(
                    after.boundary,
                    self.moment.owned(),
                    then.owned(),
                    prepared,
                )
                &&& then.same_outputs(self.moment)
            },
            (GraphStage::Converting { .. }, GraphEvent::Converted(converted)) => {
                &&& self.boundary.converted_to(
                    after.boundary,
                    self.moment.owned(),
                    then.owned(),
                    converted,
                )
                &&& then.same_outputs(self.moment)
            },
            (GraphStage::Mixing { .. }, GraphEvent::Mixed(mixed)) => {
                self.boundary.mixed_to(after.boundary, self.moment, then, mixed)
            },
            _ => false,
        }
    }
}

/// One graph boundary.
#[derive(Clone, Copy, Debug, Eq, PartialEq, Structural)]
pub struct GraphBoundary {
    pub cycle: GraphCycle,
    pub stage: GraphStage,
}

impl GraphBoundary {
    /// Whether the processor and the bridge are as this stage needs them.
    pub open spec fn wf(self, processor: GraphClockProcessor, bridge: SharedBridge) -> bool {
        &&& processor.wf()
        &&& bridge.wf()
        &&& match self.stage {
            GraphStage::Converting { request, input_frames } => {
                &&& bridge.capture_ring.pending_frames == Some(input_frames)
                &&& input_frames <= processor.capture_input@.len()
            },
            GraphStage::Mixing { request } => bridge.capture_ring.pending_frames is Some,
            _ => true,
        }
        &&& self.stage is Committed || self.stage is Abandoned || processor.holds(self.cycle)
    }

    /// Whether asking for admission made `after` of `before`, with `result`.
    pub open spec fn begun(
        before: (GraphClockProcessor, SharedBridge),
        after: (GraphClockProcessor, SharedBridge),
        observation: GraphClockObservation,
        system: GraphSystemInput<'_>,
        output_lengths: Seq<usize>,
        result: Result<Self, BridgeError>,
    ) -> bool {
        &&& after.0 == (GraphClockProcessor { system_input: after.0.system_input, ..before.0 })
        &&& after.1.same_handover(before.1)
        &&& match graph_state_refusal(before.1.attempt.state) {
            Some(error) => {
                &&& result == Err::<Self, BridgeError>(error)
                &&& after.1.attempt == before.1.attempt
            },
            None => match before.0.begin_failure(
                before.1.attempt,
                observation,
                system,
                output_lengths,
            ) {
                Some(error) => {
                    &&& result == Err::<Self, BridgeError>(error)
                    &&& after.1.attempt == before.1.attempt.faulted()
                },
                None => {
                    &&& result == Ok::<Self, BridgeError>(
                        (GraphBoundary {
                            cycle: GraphClockProcessor::cycle(before.1, observation),
                            stage: GraphStage::Estimating,
                        }),
                    )
                    &&& after.1.attempt == before.1.attempt.entered(
                        BridgeClockDomain::PipeWireGraph,
                    )
                    &&& after.0.system_input@.take(2 * observation.quantum_frames as int)
                        == system_samples(system, observation.quantum_frames)
                },
            },
        }
    }

    /// Admits a boundary; a refused one has asked nothing of the engine.
    pub fn begin(
        processor: &mut GraphClockProcessor,
        bridge: &mut SharedBridge,
        observation: GraphClockObservation,
        system: GraphSystemInput<'_>,
        output_lengths: &[usize],
    ) -> (result: Result<Self, BridgeError>)
        requires
            old(processor).wf(),
            old(bridge).wf(),
        ensures
            final(processor).wf(),
            Self::begun(
                (*old(processor), *old(bridge)),
                (*final(processor), *final(bridge)),
                observation,
                system,
                output_lengths@,
                result,
            ),
            result is Ok ==> result->Ok_0.wf(*final(processor), *final(bridge)),
    {
        let cycle = processor.begin(bridge, observation, system, output_lengths)?;
        Ok(GraphBoundary { cycle, stage: GraphStage::Estimating })
    }

    /// Whether what the estimator knows led from `self` to `after`.
    pub open spec fn estimated(
        self,
        after: Self,
        bridge: SharedBridge,
        bridge_after: SharedBridge,
        reading: EstimatorReading,
    ) -> bool {
        &&& after.cycle == self.cycle
        &&& bridge_after.same_handover(bridge)
        &&& match self.cycle.rate.ratio_decision(reading) {
            Ok(request) => {
                &&& after.stage == (GraphStage::Preparing { request })
                &&& bridge_after.attempt == bridge.attempt
            },
            Err(error) => {
                &&& after.stage == (GraphStage::Abandoned { error })
                &&& bridge_after.attempt == bridge.attempt.faulted().left(
                    BridgeClockDomain::PipeWireGraph,
                )
            },
        }
    }

    /// Takes what the estimator knows.
    pub fn on_estimate(
        &mut self,
        processor: &GraphClockProcessor,
        bridge: &mut SharedBridge,
        reading: EstimatorReading,
    ) -> (stage: GraphStage)
        requires
            old(self).wf(*processor, *old(bridge)),
            old(self).stage is Estimating,
            (reading is Previewed) == (old(self).cycle.rate.input_clock is Some),
        ensures
            final(self).wf(*processor, *final(bridge)),
            stage == final(self).stage,
            old(self).estimated(*final(self), *old(bridge), *final(bridge), reading),
    {
        self.stage = match self.cycle.rate.estimate(bridge, reading) {
            Ok(request) => GraphStage::Preparing { request },
            Err(error) => GraphStage::Abandoned { error },
        };
        self.stage
    }

    /// Whether the prepared matcher's answer led from `self` to `after`.
    pub open spec fn prepared_to(
        self,
        after: Self,
        before: (GraphClockProcessor, SharedBridge),
        then: (GraphClockProcessor, SharedBridge),
        prepared: Result<usize, RateFailure>,
    ) -> bool {
        &&& after.cycle == self.cycle
        &&& then.0 == (GraphClockProcessor { capture_input: then.0.capture_input, ..before.0 })
        &&& match GraphClockProcessor::input_failure(before.1, prepared) {
            Some(error) => {
                &&& after.stage == (GraphStage::Abandoned { error })
                &&& then.1.attempt == before.1.attempt.faulted().left(
                    BridgeClockDomain::PipeWireGraph,
                )
                &&& then.1.same_handover(before.1)
            },
            None => {
                let input_frames = prepared->Ok_0;
                &&& after.stage == (GraphStage::Converting {
                    request: self.stage->Preparing_request,
                    input_frames,
                })
                &&& then.0.capture_input@.take(input_frames as int)
                    == before.1.capture_ring.queued().take(input_frames as int)
                &&& then.1 == (SharedBridge {
                    capture_ring: before.1.capture_ring.reading_ahead(input_frames),
                    ..before.1
                })
                &&& then.1.capture_ring.queued() == before.1.capture_ring.queued()
            },
        }
    }

    /// Takes how many input frames the prepared matcher asks for, and reads them
    /// ahead.
    pub fn on_prepared(
        &mut self,
        processor: &mut GraphClockProcessor,
        bridge: &mut SharedBridge,
        prepared: Result<usize, RateFailure>,
    ) -> (stage: GraphStage)
        requires
            old(self).wf(*old(processor), *old(bridge)),
            old(self).stage is Preparing,
            prepared is Ok ==> prepared->Ok_0 <= old(processor).capture_input@.len(),
        ensures
            final(self).wf(*final(processor), *final(bridge)),
            stage == final(self).stage,
            old(self).prepared_to(
                *final(self),
                (*old(processor), *old(bridge)),
                (*final(processor), *final(bridge)),
                prepared,
            ),
    {
        self.stage = match self.stage {
            GraphStage::Preparing { request } => match processor.take_input(
                bridge,
                self.cycle,
                prepared,
            ) {
                Ok(input_frames) => GraphStage::Converting { request, input_frames },
                Err(error) => GraphStage::Abandoned { error },
            },
            other => other,
        };
        self.stage
    }

    /// Whether the matcher's outcome led from `self` to `after`.
    pub open spec fn converted_to(
        self,
        after: Self,
        before: (GraphClockProcessor, SharedBridge),
        then: (GraphClockProcessor, SharedBridge),
        converted: Result<(), RateMatchError>,
    ) -> bool {
        &&& after.cycle == self.cycle
        &&& then.0 == (GraphClockProcessor { microphone_input: then.0.microphone_input, ..before.0 })
        &&& match converted {
            Ok(()) => {
                let frames = self.cycle.observation.quantum_frames as int;
                let matched = before.0.capture_matched@.take(frames);
                &&& after.stage == (GraphStage::Mixing { request: self.stage->Converting_request })
                &&& then.0.microphone_input@.take(2 * frames) == interleaved(matched, matched)
                &&& then.1 == before.1
            },
            Err(error) => {
                &&& after.stage == (GraphStage::Abandoned {
                    error: BridgeError::Asrc { domain: BridgeClockDomain::WaveCapture, error },
                })
                &&& then.0 == before.0
                &&& graph_abandoned(before.1, then.1)
            },
        }
    }

    /// Takes the outcome of the matcher, which has filled the matched samples; a
    /// failed one leaves the queued frames as they were.
    pub fn on_converted(
        &mut self,
        processor: &mut GraphClockProcessor,
        bridge: &mut SharedBridge,
        converted: Result<(), RateMatchError>,
    ) -> (stage: GraphStage)
        requires
            old(self).wf(*old(processor), *old(bridge)),
            old(self).stage is Converting,
        ensures
            final(self).wf(*final(processor), *final(bridge)),
            stage == final(self).stage,
            old(self).converted_to(
                *final(self),
                (*old(processor), *old(bridge)),
                (*final(processor), *final(bridge)),
                converted,
            ),
    {
        self.stage = match (self.stage, converted) {
            (GraphStage::Converting { request, .. }, Ok(())) => {
                processor.spread_microphone(self.cycle);
                GraphStage::Mixing { request }
            },
            (_, Err(error)) => {
                GraphStage::Abandoned { error: processor.abandon(bridge, self.cycle, error) }
            },
            (other, Ok(())) => other,
        };
        self.stage
    }

    /// Whether the mixer's outcome led from `self` to `after`.
    pub open spec fn mixed_to(
        self,
        after: Self,
        before: GraphMoment,
        then: GraphMoment,
        mixed: Result<bool, ProcessError>,
    ) -> bool {
        let committed = after.stage is Committed;
        &&& after.cycle == self.cycle
        &&& committed || after.stage is Abandoned
        &&& before.processor.finished(
            then.processor,
            before.bridge,
            then.bridge,
            self.cycle,
            self.stage->Mixing_request.measured,
            mixed,
            match after.stage {
                GraphStage::Committed { report } => Ok::<GraphProcessReport, BridgeError>(report),
                _ => Err::<GraphProcessReport, BridgeError>(after.stage->Abandoned_error),
            },
        )
        &&& output_after(
            self.cycle,
            committed,
            before.processor.microphone_output@,
            before.microphone,
            then.microphone,
        )
        &&& output_after(
            self.cycle,
            committed,
            before.processor.monitor_output@,
            before.monitor,
            then.monitor,
        )
        &&& output_after(
            self.cycle,
            committed,
            before.processor.stream_output@,
            before.stream,
            then.stream,
        )
    }

    /// Takes the outcome of the mixer, which has filled the mixed outputs, and
    /// delivers and commits the boundary or nothing of it.
    pub fn on_mixed(
        &mut self,
        processor: &mut GraphClockProcessor,
        bridge: &mut SharedBridge,
        mixed: Result<bool, ProcessError>,
        outputs: GraphOutputBuffers<'_>,
    ) -> (stage: GraphStage)
        requires
            old(self).wf(*old(processor), *old(bridge)),
            old(self).stage is Mixing,
            old(outputs.microphone_left)@.len() == old(self).cycle.observation.quantum_frames,
            old(outputs.microphone_right)@.len() == old(self).cycle.observation.quantum_frames,
            old(outputs.monitor_left)@.len() == old(self).cycle.observation.quantum_frames,
            old(outputs.monitor_right)@.len() == old(self).cycle.observation.quantum_frames,
            old(outputs.stream_left)@.len() == old(self).cycle.observation.quantum_frames,
            old(outputs.stream_right)@.len() == old(self).cycle.observation.quantum_frames,
        ensures
            final(self).wf(*final(processor), *final(bridge)),
            stage == final(self).stage,
            stage is Committed <==> old(processor).finish_failure(
                *old(bridge),
                old(self).cycle,
                mixed,
            ) is None,
            old(self).mixed_to(
                *final(self),
                (GraphMoment {
                    processor: *old(processor),
                    bridge: *old(bridge),
                    microphone: (old(outputs.microphone_left)@, old(outputs.microphone_right)@),
                    monitor: (old(outputs.monitor_left)@, old(outputs.monitor_right)@),
                    stream: (old(outputs.stream_left)@, old(outputs.stream_right)@),
                }),
                (GraphMoment {
                    processor: *final(processor),
                    bridge: *final(bridge),
                    microphone: (final(outputs.microphone_left)@, final(outputs.microphone_right)@),
                    monitor: (final(outputs.monitor_left)@, final(outputs.monitor_right)@),
                    stream: (final(outputs.stream_left)@, final(outputs.stream_right)@),
                }),
                mixed,
            ),
    {
        let request = match self.stage {
            GraphStage::Mixing { request } => request,
            _ => RateRequest { measured: false, feed_forward: None },
        };
        self.stage = match processor.finish(bridge, self.cycle, request, mixed, outputs) {
            Ok(report) => GraphStage::Committed { report },
            Err(error) => GraphStage::Abandoned { error },
        };
        self.stage
    }
}

/// What a playback boundary is waiting for.
#[derive(Clone, Copy, Debug, Eq, PartialEq, Structural)]
pub enum PlaybackBoundaryStage {
    /// Preview the handed-over sample or read what was measured before, then call
    /// [`PlaybackBoundary::on_estimate`].
    Estimating,
    /// Run the controller and prepare the matcher for one period, then call
    /// [`PlaybackBoundary::on_prepared`].
    Preparing { request: RateRequest },
    /// Convert the input to the output period, then call
    /// [`PlaybackBoundary::on_converted`].
    Converting { request: RateRequest, input_frames: usize },
    /// Hand the packed period to the device, then call
    /// [`PlaybackBoundary::on_submitted`].
    Submitting { request: RateRequest },
    /// Keep what the engine previewed.
    Committed { report: PlaybackProcessReport },
    /// Drop what the engine previewed.
    Abandoned { error: BridgeError },
}

impl PlaybackBoundaryStage {
    /// The outcome that an ended boundary stands for.
    pub open spec fn outcome(self) -> Result<PlaybackProcessReport, BridgeError> {
        match self {
            PlaybackBoundaryStage::Committed { report } => Ok(report),
            _ => Err(self->Abandoned_error),
        }
    }
}

/// One playback boundary.
#[derive(Clone, Copy, Debug, Eq, PartialEq, Structural)]
pub struct PlaybackBoundary {
    pub cycle: PlaybackCycle,
    pub stage: PlaybackBoundaryStage,
}

impl PlaybackBoundary {
    /// Whether the egress and the bridge are as this stage needs them.
    pub open spec fn wf(self, egress: PlaybackEgress, bridge: SharedBridge) -> bool {
        &&& egress.wf()
        &&& bridge.wf()
        &&& match self.stage {
            PlaybackBoundaryStage::Converting { request, input_frames } => {
                &&& bridge.playback_ring.pending_frames == Some(input_frames)
                &&& input_frames <= self.cycle.rate.fill
                &&& 2 * input_frames <= egress.input@.len()
            },
            PlaybackBoundaryStage::Submitting { request } => {
                &&& bridge.playback_ring.pending_frames is Some
                &&& bridge.playback_ring.pending() <= self.cycle.rate.fill
                &&& self.cycle.submits()
            },
            _ => true,
        }
        &&& self.stage is Committed || self.stage is Abandoned || egress.holds(self.cycle)
    }

    /// Admits a boundary; a refused one has asked nothing of the engine.
    pub fn begin(
        egress: &PlaybackEgress,
        bridge: &mut SharedBridge,
        observation: PlaybackClockObservation,
    ) -> (result: Result<Self, BridgeError>)
        requires
            egress.wf(),
            old(bridge).wf(),
        ensures
            final(bridge).same_handover(*old(bridge)),
            match playback_state_refusal(old(bridge).attempt.state) {
                Some(error) => {
                    &&& result == Err::<Self, BridgeError>(error)
                    &&& final(bridge).attempt == old(bridge).attempt
                },
                None => match egress.begin_failure(old(bridge).attempt, observation) {
                    Some(error) => {
                        &&& result == Err::<Self, BridgeError>(error)
                        &&& final(bridge).attempt == old(bridge).attempt.faulted()
                    },
                    None => {
                        &&& result == Ok::<Self, BridgeError>(
                            (PlaybackBoundary {
                                cycle: egress.cycle(*old(bridge), observation),
                                stage: PlaybackBoundaryStage::Estimating,
                            }),
                        )
                        &&& result->Ok_0.wf(*egress, *final(bridge))
                        &&& final(bridge).attempt == old(bridge).attempt.entered(
                            BridgeClockDomain::WavePlayback,
                        )
                    },
                },
            },
    {
        let cycle = egress.begin(bridge, observation)?;
        Ok(PlaybackBoundary { cycle, stage: PlaybackBoundaryStage::Estimating })
    }

    /// Takes what the estimator knows.
    pub fn on_estimate(
        &mut self,
        egress: &PlaybackEgress,
        bridge: &mut SharedBridge,
        reading: EstimatorReading,
    ) -> (stage: PlaybackBoundaryStage)
        requires
            old(self).wf(*egress, *old(bridge)),
            old(self).stage is Estimating,
            (reading is Previewed) == (old(self).cycle.rate.input_clock is Some),
        ensures
            final(self).wf(*egress, *final(bridge)),
            stage == final(self).stage,
            final(self).cycle == old(self).cycle,
            final(bridge).same_handover(*old(bridge)),
            match old(self).cycle.rate.ratio_decision(reading) {
                Ok(request) => {
                    &&& stage == (PlaybackBoundaryStage::Preparing { request })
                    &&& final(bridge).attempt == old(bridge).attempt
                },
                Err(error) => {
                    &&& stage == (PlaybackBoundaryStage::Abandoned { error })
                    &&& final(bridge).attempt == old(bridge).attempt.faulted().left(
                        BridgeClockDomain::WavePlayback,
                    )
                },
            },
    {
        self.stage = match self.cycle.rate.estimate(bridge, reading) {
            Ok(request) => PlaybackBoundaryStage::Preparing { request },
            Err(error) => PlaybackBoundaryStage::Abandoned { error },
        };
        self.stage
    }

    /// Takes how many input frames the prepared matcher asks for, and reads them
    /// ahead.
    pub fn on_prepared(
        &mut self,
        egress: &mut PlaybackEgress,
        bridge: &mut SharedBridge,
        prepared: Result<usize, RateFailure>,
    ) -> (stage: PlaybackBoundaryStage)
        requires
            old(self).wf(*old(egress), *old(bridge)),
            old(self).stage is Preparing,
            prepared is Ok && prepared->Ok_0 <= old(self).cycle.rate.fill ==> 2 * prepared->Ok_0
                <= old(egress).input@.len(),
        ensures
            final(self).wf(*final(egress), *final(bridge)),
            stage == final(self).stage,
            final(self).cycle == old(self).cycle,
            *final(egress) == (PlaybackEgress { input: final(egress).input, ..*old(egress) }),
            match old(egress).input_failure(*old(bridge), old(self).cycle, prepared) {
                Some(error) => {
                    &&& stage == (PlaybackBoundaryStage::Abandoned { error })
                    &&& final(bridge).attempt == old(bridge).attempt.faulted().left(
                        BridgeClockDomain::WavePlayback,
                    )
                    &&& final(bridge).same_handover(*old(bridge))
                },
                None => {
                    let input_frames = prepared->Ok_0;
                    &&& stage == (PlaybackBoundaryStage::Converting {
                        request: old(self).stage->Preparing_request,
                        input_frames,
                    })
                    &&& final(egress).input@.take(2 * input_frames as int) == old(
                        bridge,
                    ).playback_ring.queued().take(2 * input_frames as int)
                    &&& *final(bridge) == (SharedBridge {
                        playback_ring: old(bridge).playback_ring.reading_ahead(input_frames),
                        ..*old(bridge)
                    })
                    &&& final(bridge).playback_ring.queued() == old(bridge).playback_ring.queued()
                },
            },
    {
        self.stage = match self.stage {
            PlaybackBoundaryStage::Preparing { request } => match egress.take_input(
                bridge,
                self.cycle,
                prepared,
            ) {
                Ok(input_frames) => PlaybackBoundaryStage::Converting { request, input_frames },
                Err(error) => PlaybackBoundaryStage::Abandoned { error },
            },
            other => other,
        };
        self.stage
    }

    /// Takes the outcome of the matcher, which has filled the output period, and
    /// packs the period. A boundary inside the filter delay submits nothing and
    /// ends here.
    pub fn on_converted(
        &mut self,
        egress: &mut PlaybackEgress,
        bridge: &mut SharedBridge,
        converted: Result<(), RateMatchError>,
    ) -> (stage: PlaybackBoundaryStage)
        requires
            old(self).wf(*old(egress), *old(bridge)),
            old(self).stage is Converting,
        ensures
            final(self).wf(*final(egress), *final(bridge)),
            stage == final(self).stage,
            final(self).cycle == old(self).cycle,
            match old(egress).encode_failure(converted) {
                Some(error) => {
                    &&& stage == (PlaybackBoundaryStage::Abandoned { error })
                    &&& *final(egress) == (PlaybackEgress {
                        encoded: final(egress).encoded,
                        ..*old(egress)
                    })
                    &&& PlaybackEgress::undelivered(*old(bridge), *final(bridge), true)
                },
                None => {
                    let packed = PlaybackEgress { encoded: final(egress).encoded, ..*old(egress) };
                    &&& final(egress).encoded@ == encoded_s24(old(egress).output@)
                    &&& if old(self).cycle.submits() {
                        &&& stage == (PlaybackBoundaryStage::Submitting {
                            request: old(self).stage->Converting_request,
                        })
                        &&& *final(egress) == packed
                        &&& *final(bridge) == *old(bridge)
                    } else {
                        &&& stage is Committed || stage is Abandoned
                        &&& packed.finished(
                            *final(egress),
                            *old(bridge),
                            *final(bridge),
                            old(self).cycle,
                            old(self).stage->Converting_request.measured,
                            None,
                            stage.outcome(),
                        )
                    }
                },
            },
    {
        let request = match self.stage {
            PlaybackBoundaryStage::Converting { request, .. } => request,
            _ => RateRequest { measured: false, feed_forward: None },
        };
        self.stage = match egress.encode_period(bridge, converted) {
            Err(error) => PlaybackBoundaryStage::Abandoned { error },
            Ok(()) => {
                if self.cycle.submits_period() {
                    PlaybackBoundaryStage::Submitting { request }
                } else {
                    match egress.finish(bridge, self.cycle, request, None) {
                        Ok(report) => PlaybackBoundaryStage::Committed { report },
                        Err(error) => PlaybackBoundaryStage::Abandoned { error },
                    }
                }
            },
        };
        self.stage
    }

    /// Takes the device's answer to the packed period, and commits the boundary
    /// or nothing of it but the device's position.
    pub fn on_submitted(
        &mut self,
        egress: &mut PlaybackEgress,
        bridge: &mut SharedBridge,
        answer: Result<PlaybackSubmissionProgress, PlaybackWriteError>,
    ) -> (stage: PlaybackBoundaryStage)
        requires
            old(self).wf(*old(egress), *old(bridge)),
            old(self).stage is Submitting,
        ensures
            final(self).wf(*final(egress), *final(bridge)),
            stage == final(self).stage,
            final(self).cycle == old(self).cycle,
            stage is Committed || stage is Abandoned,
            old(egress).finished(
                *final(egress),
                *old(bridge),
                *final(bridge),
                old(self).cycle,
                old(self).stage->Submitting_request.measured,
                Some(answer),
                stage.outcome(),
            ),
    {
        let request = match self.stage {
            PlaybackBoundaryStage::Submitting { request } => request,
            _ => RateRequest { measured: false, feed_forward: None },
        };
        self.stage = match egress.finish(bridge, self.cycle, request, Some(answer)) {
            Ok(report) => PlaybackBoundaryStage::Committed { report },
            Err(error) => PlaybackBoundaryStage::Abandoned { error },
        };
        self.stage
    }
}

/// A playback boundary is committed only with the whole period taken by the
/// device, or with none due inside the filter delay.
pub proof fn law_commit_needs_the_whole_period(
    egress: PlaybackEgress,
    after: PlaybackEgress,
    before_bridge: SharedBridge,
    after_bridge: SharedBridge,
    cycle: PlaybackCycle,
    measured: bool,
    submission: Option<Result<PlaybackSubmissionProgress, PlaybackWriteError>>,
    report: PlaybackProcessReport,
)
    requires
        egress.finished(
            after,
            before_bridge,
            after_bridge,
            cycle,
            measured,
            submission,
            Ok(report),
        ),
    ensures
        submission is None || submission == Some(
            Ok::<PlaybackSubmissionProgress, PlaybackWriteError>(
                PlaybackSubmissionProgress { frames_submitted: egress.period_frames },
            ),
        ),
        after_bridge.playback_ring.released_from(before_bridge.playback_ring),
{
}

/// Whether `points` are the stages of one graph boundary: the first was admitted
/// in `start`, and each of `events` leads to the next.
pub open spec fn graph_run(
    start: GraphMoment,
    observation: GraphClockObservation,
    system: GraphSystemInput<'_>,
    output_lengths: Seq<usize>,
    events: Seq<GraphEvent>,
    points: Seq<GraphPoint>,
) -> bool {
    &&& points.len() == events.len() + 1
    &&& GraphBoundary::begun(
        start.owned(),
        points[0].moment.unfilled(start).owned(),
        observation,
        system,
        output_lengths,
        Ok(points[0].boundary),
    )
    &&& points[0].moment.same_outputs(start)
    &&& forall|i: int|
        0 <= i < events.len() ==> (#[trigger] points[i]).leads_to(events[i], points[i + 1])
}

/// Whether a whole graph boundary that started in `start` ended in `end` with
/// `error`: it was refused, or one of its steps abandoned it.
pub open spec fn graph_failed(
    start: GraphMoment,
    end: GraphMoment,
    observation: GraphClockObservation,
    system: GraphSystemInput<'_>,
    output_lengths: Seq<usize>,
    events: Seq<GraphEvent>,
    points: Seq<GraphPoint>,
    error: BridgeError,
) -> bool {
    ||| {
        &&& GraphBoundary::begun(
            start.owned(),
            end.owned(),
            observation,
            system,
            output_lengths,
            Err(error),
        )
        &&& end.same_outputs(start)
    }
    ||| {
        &&& graph_run(start, observation, system, output_lengths, events, points)
        &&& points.last().boundary.stage == (GraphStage::Abandoned { error })
        &&& end == points.last().moment
    }
}

/// A graph boundary that fails, at whatever step, delivers nothing and consumes
/// nothing: the six outputs, the frames queued on both sides and every handed-over
/// sample are as before it, and so are both FIFOs but for a mark of what is read
/// ahead. A refusal by the lifecycle's state changes no state;
/// every other failure faults the attempt, and from then on every boundary is
/// refused as faulted. Only a teardown that is under way is not overtaken.
pub proof fn law_failed_graph_boundary_changes_nothing(
    start: GraphMoment,
    end: GraphMoment,
    observation: GraphClockObservation,
    system: GraphSystemInput<'_>,
    output_lengths: Seq<usize>,
    events: Seq<GraphEvent>,
    points: Seq<GraphPoint>,
    error: BridgeError,
)
    requires
        start.bridge.attempt.state != BridgeState::Quiescing,
        start.bridge.attempt.state != BridgeState::Stopped,
        graph_failed(
            start,
            end,
            observation,
            system,
            output_lengths,
            events,
            points,
            error,
        ),
    ensures
        end.same_outputs(start),
        end.bridge.capture_ring.queued() == start.bridge.capture_ring.queued(),
        end.bridge.capture_ring.settled() == start.bridge.capture_ring.settled(),
        end.bridge.capture_ring.fill() == start.bridge.capture_ring.fill(),
        end.bridge.playback_ring == start.bridge.playback_ring,
        end.bridge.capture_observation == start.bridge.capture_observation,
        end.bridge.graph_observation == start.bridge.graph_observation,
        error is State ==> end.bridge.attempt.state == start.bridge.attempt.state,
        !(error is State) ==> {
            &&& end.bridge.attempt.state == BridgeState::Faulted
            &&& graph_state_refusal(end.bridge.attempt.state) == Some(BridgeError::AttemptFaulted)
        },
{
    if graph_run(start, observation, system, output_lengths, events, points) {
        lemma_graph_run_keeps(start, observation, system, output_lengths, events, points);
    }
}

/// A faulted attempt refuses every graph boundary as faulted and stays as it is,
/// so that the next one is refused in the same way.
pub proof fn law_faulted_attempt_admits_no_graph_boundary(
    before: (GraphClockProcessor, SharedBridge),
    after: (GraphClockProcessor, SharedBridge),
    observation: GraphClockObservation,
    system: GraphSystemInput<'_>,
    output_lengths: Seq<usize>,
    result: Result<GraphBoundary, BridgeError>,
)
    requires
        before.1.attempt.state == BridgeState::Faulted,
        GraphBoundary::begun(before, after, observation, system, output_lengths, result),
    ensures
        result == Err::<GraphBoundary, BridgeError>(BridgeError::AttemptFaulted),
        after.1 == before.1,
{
}

/// What holds at the last point of a run that is not committed.
proof fn lemma_graph_run_keeps(
    start: GraphMoment,
    observation: GraphClockObservation,
    system: GraphSystemInput<'_>,
    output_lengths: Seq<usize>,
    events: Seq<GraphEvent>,
    points: Seq<GraphPoint>,
)
    requires
        start.bridge.attempt.state != BridgeState::Quiescing,
        start.bridge.attempt.state != BridgeState::Stopped,
        graph_run(start, observation, system, output_lengths, events, points),
    ensures
        ({
            let last = points.last();
            &&& !(last.boundary.stage is Committed) ==> {
                &&& last.moment.same_outputs(start)
                &&& last.moment.bridge.capture_ring.queued() == start.bridge.capture_ring.queued()
                &&& last.moment.bridge.capture_ring.settled()
                    == start.bridge.capture_ring.settled()
                &&& last.moment.bridge.playback_ring == start.bridge.playback_ring
                &&& last.moment.bridge.capture_observation == start.bridge.capture_observation
                &&& last.moment.bridge.graph_observation == start.bridge.graph_observation
            }
            &&& last.boundary.stage is Abandoned ==> last.moment.bridge.attempt.state
                == BridgeState::Faulted && !(last.boundary.stage->Abandoned_error is State)
            &&& !(last.boundary.stage is Abandoned || last.boundary.stage is Committed)
                ==> last.moment.bridge.attempt.state == start.bridge.attempt.state
        }),
    decreases events.len(),
{
    if events.len() > 0 {
        let earlier = points.drop_last();
        assert forall|i: int| 0 <= i < events.drop_last().len() implies (
        #[trigger] earlier[i]).leads_to(events.drop_last()[i], earlier[i + 1]) by {
            assert(points[i].leads_to(events[i], points[i + 1]));
        }
        assert(earlier[0] == points[0]);
        lemma_graph_run_keeps(
            start,
            observation,
            system,
            output_lengths,
            events.drop_last(),
            earlier,
        );
        let position = events.len() - 1;
        assert(points[position].leads_to(events[position], points[position + 1]));
        assert(earlier.last() == points[position]);
    }
}

/// A boundary that is not committed leaves both FIFOs, but for the mark of what is
/// read ahead, and every handed-over sample as they were, so that neither side
/// loses or repeats a frame.
pub proof fn law_abandoned_boundary_keeps_the_handovers(
    processor: GraphClockProcessor,
    processor_after: GraphClockProcessor,
    egress: PlaybackEgress,
    egress_after: PlaybackEgress,
    before: SharedBridge,
    after: SharedBridge,
    graph_cycle: GraphCycle,
    playback_cycle: PlaybackCycle,
    measured: bool,
    mixed: Result<bool, ProcessError>,
    submission: Option<Result<PlaybackSubmissionProgress, PlaybackWriteError>>,
    error: BridgeError,
)
    requires
        processor.finished(
            processor_after,
            before,
            after,
            graph_cycle,
            measured,
            mixed,
            Err(error),
        ) || egress.finished(
            egress_after,
            before,
            after,
            playback_cycle,
            measured,
            submission,
            Err(error),
        ),
    ensures
        after.capture_ring.queued() == before.capture_ring.queued(),
        after.capture_ring.settled() == before.capture_ring.settled(),
        after.playback_ring.queued() == before.playback_ring.queued(),
        after.playback_ring.settled() == before.playback_ring.settled(),
        after.capture_observation == before.capture_observation,
        after.graph_observation == before.graph_observation,
{
}

/// A graph boundary goes step by step: each answer of the engine leads to the next
/// stage, with the cycle and the rate request unchanged, or abandons the boundary
/// with the failure of that answer.
pub proof fn law_graph_boundary_goes_step_by_step(
    point: GraphPoint,
    event: GraphEvent,
    after: GraphPoint,
)
    requires
        point.leads_to(event, after),
    ensures
        after.boundary.cycle == point.boundary.cycle,
        match event {
            GraphEvent::Estimated(reading) => {
                &&& point.boundary.stage is Estimating
                &&& match point.boundary.cycle.rate.ratio_decision(reading) {
                    Ok(request) => after.boundary.stage == (GraphStage::Preparing { request }),
                    Err(error) => after.boundary.stage == (GraphStage::Abandoned { error }),
                }
            },
            GraphEvent::Prepared(Ok(input_frames)) => {
                &&& point.boundary.stage is Preparing
                &&& match point.moment.bridge.capture_ring.peek_refusal(input_frames as nat) {
                    None => after.boundary.stage == (GraphStage::Converting {
                        request: point.boundary.stage->Preparing_request,
                        input_frames,
                    }),
                    Some(error) => after.boundary.stage == (GraphStage::Abandoned {
                        error: peek_failure(error, BridgeClockDomain::WaveCapture),
                    }),
                }
            },
            GraphEvent::Prepared(Err(failure)) => {
                &&& point.boundary.stage is Preparing
                &&& after.boundary.stage == (GraphStage::Abandoned {
                    error: rate_failure(failure, BridgeClockDomain::WaveCapture),
                })
            },
            GraphEvent::Converted(Ok(())) => {
                &&& point.boundary.stage is Converting
                &&& after.boundary.stage == (GraphStage::Mixing {
                    request: point.boundary.stage->Converting_request,
                })
            },
            GraphEvent::Converted(Err(error)) => {
                &&& point.boundary.stage is Converting
                &&& after.boundary.stage == (GraphStage::Abandoned {
                    error: BridgeError::Asrc { domain: BridgeClockDomain::WaveCapture, error },
                })
            },
            GraphEvent::Mixed(_) => {
                &&& point.boundary.stage is Mixing
                &&& after.boundary.stage is Committed || after.boundary.stage is Abandoned
            },
        },
{
}

/// The matcher reads exactly the oldest queued capture frames that it asked for,
/// and they stay queued until the boundary is committed.
pub proof fn law_matcher_reads_the_oldest_capture_frames(
    boundary: GraphBoundary,
    after: GraphBoundary,
    before: (GraphClockProcessor, SharedBridge),
    then: (GraphClockProcessor, SharedBridge),
    input_frames: usize,
    index: int,
)
    requires
        before.1.wf(),
        boundary.prepared_to(after, before, then, Ok(input_frames)),
        after.stage is Converting,
        input_frames <= then.0.capture_input@.len(),
        0 <= index < input_frames,
    ensures
        input_frames <= before.1.capture_ring.queued().len(),
        then.0.capture_input@[index] == before.1.capture_ring.queued()[index],
        then.1.capture_ring.queued() == before.1.capture_ring.queued(),
        then.1.capture_ring.pending_frames == Some(input_frames),
        then.1.playback_ring == before.1.playback_ring,
        then.1.attempt == before.1.attempt,
        then.0.system_input == before.0.system_input,
{
    law_refused_reads_say_why(before.1.capture_ring, input_frames);
    assert(then.0.capture_input@.take(input_frames as int)[index] == then.0.capture_input@[index]);
    assert(before.1.capture_ring.queued().take(input_frames as int)[index]
        == before.1.capture_ring.queued()[index]);
}

/// The mono microphone reaches both channels of the mixer alike, and nothing else
/// of the processor or the bridge changes with it.
pub proof fn law_microphone_reaches_both_channels(
    boundary: GraphBoundary,
    after: GraphBoundary,
    before: (GraphClockProcessor, SharedBridge),
    then: (GraphClockProcessor, SharedBridge),
    index: int,
)
    requires
        before.0.wf(),
        then.0.wf(),
        before.0.holds(boundary.cycle),
        boundary.converted_to(after, before, then, Ok(())),
        0 <= index < boundary.cycle.observation.quantum_frames,
    ensures
        then.0.microphone_input@[2 * index] == before.0.capture_matched@[index],
        then.0.microphone_input@[2 * index + 1] == before.0.capture_matched@[index],
        then.0.system_input == before.0.system_input,
        then.1 == before.1,
{
    let frames = boundary.cycle.observation.quantum_frames as int;
    let matched = before.0.capture_matched@.take(frames);
    law_interleaving_alternates_the_channels(matched, matched);
    assert(matched[index] == before.0.capture_matched@[index]);
    assert(then.0.microphone_input@.take(2 * frames)[2 * index]
        == then.0.microphone_input@[2 * index]);
    assert(then.0.microphone_input@.take(2 * frames)[2 * index + 1]
        == then.0.microphone_input@[2 * index + 1]);
}

/// Each public output hears its own mix: behind a committed boundary of an active
/// attempt the microphone, monitor and stream outputs hold the samples that the
/// mixer made for each, the left channel from the even and the right one from the
/// odd ones. Before the attempt is active they are silent, and an abandoned
/// boundary leaves them as they were.
pub proof fn law_each_output_hears_its_own_mix(
    boundary: GraphBoundary,
    after: GraphBoundary,
    before: GraphMoment,
    then: GraphMoment,
    mixed: Result<bool, ProcessError>,
    index: int,
)
    requires
        before.processor.wf(),
        before.processor.holds(boundary.cycle),
        boundary.mixed_to(after, before, then, mixed),
        0 <= index < boundary.cycle.observation.quantum_frames,
    ensures
        after.stage is Abandoned ==> then.same_outputs(before),
        after.stage is Committed && boundary.cycle.rate.state == BridgeState::Active ==> {
            &&& then.microphone.0[index] == before.processor.microphone_output@[2 * index]
            &&& then.microphone.1[index] == before.processor.microphone_output@[2 * index + 1]
            &&& then.monitor.0[index] == before.processor.monitor_output@[2 * index]
            &&& then.monitor.1[index] == before.processor.monitor_output@[2 * index + 1]
            &&& then.stream.0[index] == before.processor.stream_output@[2 * index]
            &&& then.stream.1[index] == before.processor.stream_output@[2 * index + 1]
        },
        after.stage is Committed && boundary.cycle.rate.state != BridgeState::Active ==> {
            &&& then.microphone.0[index] == 0 && then.microphone.1[index] == 0
            &&& then.monitor.0[index] == 0 && then.monitor.1[index] == 0
            &&& then.stream.0[index] == 0 && then.stream.1[index] == 0
        },
{
}

/// A playback boundary asks the queue for exactly the frames that the matcher
/// needs, and names the playback direction in every failure.
pub proof fn law_playback_input_failures_say_why(
    egress: PlaybackEgress,
    bridge: SharedBridge,
    cycle: PlaybackCycle,
    prepared: Result<usize, RateFailure>,
)
    requires
        bridge.wf(),
    ensures
        match prepared {
            Err(failure) => egress.input_failure(bridge, cycle, prepared) == Some(
                rate_failure(failure, BridgeClockDomain::WavePlayback),
            ),
            Ok(input_frames) => match egress.input_failure(bridge, cycle, prepared) {
                None => {
                    &&& input_frames <= cycle.rate.fill
                    &&& 2 * input_frames <= bridge.playback_ring.queued().len()
                    &&& bridge.playback_ring.pending_frames is None
                },
                Some(BridgeError::InvalidPeriod { actual, expected }) => actual == input_frames
                    && expected == egress.period_frames && 2 * input_frames > usize::MAX,
                Some(BridgeError::Shortage { domain, required, available }) => {
                    &&& domain == BridgeClockDomain::WavePlayback
                    &&& required == input_frames
                    &&& required > available
                    &&& available == cycle.rate.fill || available == bridge.playback_ring.fill()
                },
                Some(BridgeError::FifoSequence { domain }) => {
                    &&& domain == BridgeClockDomain::WavePlayback
                    &&& bridge.playback_ring.pending_frames is Some
                },
                Some(_) => false,
            },
        },
{
    if let Ok(input_frames) = prepared {
        if 2 * input_frames <= usize::MAX {
            law_refused_reads_say_why(bridge.playback_ring, (2 * input_frames) as usize);
            assert((2 * input_frames) as nat / 2 == input_frames);
        }
    }
}

/// A failed conversion or packing ends a playback boundary with its own failure.
pub proof fn law_playback_period_failures_say_why(
    egress: PlaybackEgress,
    matched: Result<(), RateMatchError>,
)
    ensures
        match matched {
            Err(error) => egress.encode_failure(matched) == Some(
                BridgeError::Asrc { domain: BridgeClockDomain::WavePlayback, error },
            ),
            Ok(()) => match encode_refusal(egress.output@, 2, egress.encoded@.len()) {
                Some(error) => egress.encode_failure(matched) == Some(BridgeError::Packed(error)),
                None => egress.encode_failure(matched) is None,
            },
        },
{
}

} // verus!
