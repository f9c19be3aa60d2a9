//! The order of one capture block around the mixer, the meters and the device.

use crate::audio_host::clock_bridge::errors::ProcessError;
use crate::audio_host::transport::{
    encoded_s32, CaptureClockTransport, ProcessedCapture, SystemRing, TransportBlock,
    TransportError, TransportPlayback, TransportPlaybackError,
};
use vstd::prelude::*;

verus! {

/// What a capture block is waiting for.
#[derive(Clone, Copy, Debug, Eq, PartialEq, Structural)]
pub enum TransportStage {
    /// Mix both inputs into the three outputs, then call
    /// [`TransportBoundary::on_mixed`].
    Mixing,
    /// Offer the meters, then call [`TransportBoundary::on_metered`].
    Metering,
    /// The block is accepted.
    Accepted { capture: ProcessedCapture },
    /// The block failed, and the transport with it.
    Failed { error: TransportError },
}

impl TransportStage {
    /// The outcome that an ended block stands for.
    pub open spec fn outcome(self) -> Result<ProcessedCapture, TransportError> {
        match self {
            TransportStage::Accepted { capture } => Ok(capture),
            _ => Err(self->Failed_error),
        }
    }
}

/// One admitted capture block on its way through the transport.
#[derive(Debug)]
pub struct TransportBoundary {
    pub block: TransportBlock,
    pub stage: TransportStage,
}

impl TransportBoundary {
    /// Whether the transport is as this stage needs it: a block that has not
    /// ended fits a transport that has not failed, and the block to be metered is
    /// the last one that was mixed.
    pub open spec fn wf(self, transport: CaptureClockTransport) -> bool {
        &&& transport.wf()
        &&& self.block.frames <= transport.max_frames
        &&& transport.failed == (self.stage is Failed)
        &&& self.stage is Metering ==> transport.last_frames == self.block.frames
            && transport.counters.processed_blocks > 0
    }

    /// Admits one complete capture block and prepares both mixer inputs.
    pub fn begin(
        transport: &mut CaptureClockTransport,
        ring: &mut SystemRing,
        capture_bytes: &[u8],
    ) -> (result: Result<Self, TransportError>)
        requires
            old(transport).wf(),
            old(ring).wf(),
        ensures
            final(transport).wf(),
            final(ring).wf(),
            match result {
                Ok(boundary) => {
                    &&& boundary.stage == TransportStage::Mixing
                    &&& boundary.wf(*final(transport))
                    &&& old(transport).begun(
                        *final(transport),
                        *old(ring),
                        *final(ring),
                        capture_bytes@,
                        Ok(boundary.block),
                    )
                },
                Err(error) => old(transport).begun(
                    *final(transport),
                    *old(ring),
                    *final(ring),
                    capture_bytes@,
                    Err(error),
                ),
            },
    {
        let block = transport.begin(ring, capture_bytes)?;
        Ok(TransportBoundary { block, stage: TransportStage::Mixing })
    }

    /// Takes the outcome of the mixer, which has filled the three outputs.
    pub fn on_mixed(
        &mut self,
        transport: &mut CaptureClockTransport,
        ring: &SystemRing,
        engine: Result<(), ProcessError>,
    ) -> (stage: TransportStage)
        requires
            old(self).wf(*old(transport)),
            old(self).stage is Mixing,
        ensures
            final(self).wf(*final(transport)),
            stage == final(self).stage,
            final(self).block == old(self).block,
            stage is Metering || stage is Failed,
            old(transport).processed(
                *final(transport),
                *ring,
                old(self).block,
                engine,
                match stage {
                    TransportStage::Failed { error } => Err::<(), TransportError>(error),
                    _ => Ok::<(), TransportError>(()),
                },
            ),
    {
        self.stage = match transport.mixed(ring, self.block, engine) {
            Ok(()) => TransportStage::Metering,
            Err(error) => TransportStage::Failed { error },
        };
        self.stage
    }

    /// Takes whether a control update was applied and whether the meters were
    /// published, and delivers the block; the answer of a playback device that is
    /// handed the block decides.
    pub fn on_metered<P: TransportPlayback>(
        &mut self,
        transport: &mut CaptureClockTransport,
        control_update_applied: bool,
        meters_published: bool,
        playback: Option<&mut P>,
    ) -> (stage: TransportStage)
        requires
            old(self).wf(*old(transport)),
            old(self).stage is Metering,
        ensures
            final(self).wf(*final(transport)),
            stage == final(self).stage,
            final(self).block == old(self).block,
            stage is Accepted || stage is Failed,
            old(transport).delivery(
                *final(transport),
                old(self).block,
                control_update_applied,
                meters_published,
                match playback {
                    Some(device) => Some(final(device).offered_blocks().last().2),
                    None => None,
                },
                stage.outcome(),
            ),
            playback is Some ==> ({
                let before = old(playback->Some_0).offered_blocks();
                let after = final(playback->Some_0).offered_blocks();
                let block = old(self).block;
                let monitor = old(transport).monitor_block(block);
                if old(transport).offers(block) {
                    after == before.push((block.frames, encoded_s32(monitor), after.last().2))
                } else {
                    after == before
                }
            }),
    {
        let delivered = transport.deliver(
            self.block,
            control_update_applied,
            meters_published,
            playback,
        );
        self.stage = match delivered {
            Ok(capture) => TransportStage::Accepted { capture },
            Err(error) => TransportStage::Failed { error },
        };
        self.stage
    }
}

/// A block counts as played only where the playback device took all of it, and a
/// device that did not take it fails the transport for good.
pub proof fn law_playback_answer_decides(
    transport: CaptureClockTransport,
    after: CaptureClockTransport,
    block: TransportBlock,
    control_update_applied: bool,
    meters_published: bool,
    answer: Result<(), TransportPlaybackError>,
    result: Result<ProcessedCapture, TransportError>,
    byte_length: nat,
)
    requires
        transport.offers(block),
        transport.delivery(
            after,
            block,
            control_update_applied,
            meters_published,
            Some(answer),
            result,
        ),
    ensures
        result is Ok <==> answer is Ok,
        answer is Err ==> {
            &&& result == Err::<ProcessedCapture, TransportError>(
                TransportError::Playback(answer->Err_0),
            )
            &&& after.failed
            &&& after.block_refusal(byte_length) == Some(TransportError::Failed)
        },
{
}

} // verus!
