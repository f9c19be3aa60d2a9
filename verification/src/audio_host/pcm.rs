//! Exact Wave:3 PCM geometry and packed signed 24-bit conversion.

use crate::audio_host::sample::{
    all_finite, dequantize, find_nonfinite, finite_prefix,
    law_finite_prefix_ends_at_the_first_bad_sample, law_s24_round_trip, lemma_all_finite, quantize,
    quantized, sample_of,
};
use crate::text::{decimal, decimal_text};
use vstd::arithmetic::power2::lemma2_to64;
use vstd::prelude::*;
use vstd::string::*;

verus! {

pub const WAVE3_PCM_RATE_HZ: u32 = 48_000;

pub const WAVE3_CAPTURE_CHANNELS: usize = 1;

pub const WAVE3_PLAYBACK_CHANNELS: usize = 2;

pub const PACKED_S24_SAMPLE_BYTES: usize = 3;

/// One physical Wave:3 PCM direction.
#[derive(Clone, Copy, Debug, Eq, PartialEq, Structural)]
pub enum PcmDirection {
    Capture,
    Playback,
}

impl PcmDirection {
    /// The fixed channel count of this direction.
    pub open spec fn spec_channels(self) -> u32 {
        match self {
            PcmDirection::Capture => 1,
            PcmDirection::Playback => 2,
        }
    }

    pub fn channels(self) -> (channels: u32)
        ensures
            channels == self.spec_channels(),
    {
        match self {
            PcmDirection::Capture => 1,
            PcmDirection::Playback => 2,
        }
    }
}

/// Independent period and buffer geometry for one PCM direction.
#[derive(Clone, Copy, Debug, Eq, PartialEq, Structural)]
pub struct PcmBufferConfig {
    pub period_frames: u32,
    pub buffer_frames: u32,
}

/// Why one period and buffer pair is refused, if it is.
pub open spec fn buffer_refusal(period_frames: u32, buffer_frames: u32) -> Option<PcmConfigError> {
    if period_frames == 0 {
        Some(PcmConfigError::ZeroPeriod)
    } else if buffer_frames == 0 {
        Some(PcmConfigError::ZeroBuffer)
    } else if period_frames > buffer_frames {
        Some(PcmConfigError::PeriodExceedsBuffer { period_frames, buffer_frames })
    } else {
        None
    }
}

impl PcmBufferConfig {
    /// Nonzero geometry whose period fits in its buffer.
    pub open spec fn wf(self) -> bool {
        0 < self.period_frames <= self.buffer_frames
    }

    /// Constructs nonzero geometry whose period fits in its buffer.
    pub fn try_new(period_frames: u32, buffer_frames: u32) -> (result: Result<Self, PcmConfigError>)
        ensures
            match buffer_refusal(period_frames, buffer_frames) {
                Some(error) => result == Err::<Self, PcmConfigError>(error),
                None => result == Ok::<Self, PcmConfigError>(
                    (PcmBufferConfig { period_frames, buffer_frames }),
                ) && result->Ok_0.wf(),
            },
    {
        if period_frames == 0 {
            return Err(PcmConfigError::ZeroPeriod);
        }
        if buffer_frames == 0 {
            return Err(PcmConfigError::ZeroBuffer);
        }
        if period_frames > buffer_frames {
            return Err(PcmConfigError::PeriodExceedsBuffer { period_frames, buffer_frames });
        }
        Ok(PcmBufferConfig { period_frames, buffer_frames })
    }

    pub fn period_frames(self) -> (frames: u32)
        ensures
            frames == self.period_frames,
    {
        self.period_frames
    }

    pub fn buffer_frames(self) -> (frames: u32)
        ensures
            frames == self.buffer_frames,
    {
        self.buffer_frames
    }
}

/// The packed byte count of `frames` frames, or overflow.
pub open spec fn audio_bytes(frames: int, channels: int) -> Result<usize, PcmConfigError> {
    if frames * channels * 3 <= usize::MAX {
        Ok((frames * channels * 3) as usize)
    } else {
        Err(PcmConfigError::GeometryOverflow)
    }
}

/// The only admitted Wave:3 physical PCM mode.
#[derive(Clone, Copy, Debug, Eq, PartialEq, Structural)]
pub struct Wave3PhysicalIoConfig {
    pub capture: PcmBufferConfig,
    pub playback: PcmBufferConfig,
}

/// Why a complete physical geometry is refused, if it is.
pub open spec fn physical_refusal(
    capture_period_frames: u32,
    capture_buffer_frames: u32,
    playback_period_frames: u32,
    playback_buffer_frames: u32,
) -> Option<PcmConfigError> {
    if buffer_refusal(capture_period_frames, capture_buffer_frames) is Some {
        buffer_refusal(capture_period_frames, capture_buffer_frames)
    } else if buffer_refusal(playback_period_frames, playback_buffer_frames) is Some {
        buffer_refusal(playback_period_frames, playback_buffer_frames)
    } else if audio_bytes(capture_buffer_frames as int, 1) is Err || audio_bytes(
        playback_buffer_frames as int,
        2,
    ) is Err {
        Some(PcmConfigError::GeometryOverflow)
    } else {
        None
    }
}

impl Wave3PhysicalIoConfig {
    /// Both directions are valid and every byte count fits the machine.
    pub open spec fn wf(self) -> bool {
        &&& self.capture.wf()
        &&& self.playback.wf()
        &&& audio_bytes(self.capture.buffer_frames as int, 1) is Ok
        &&& audio_bytes(self.playback.buffer_frames as int, 2) is Ok
    }

    /// Constructs independent capture and playback geometry.
    ///
    /// Both directions use packed signed `S24_3LE` at exactly 48 kHz. Capture
    /// is mono and playback is stereo. Those properties are not configurable.
    pub fn try_new(
        capture_period_frames: u32,
        capture_buffer_frames: u32,
        playback_period_frames: u32,
        playback_buffer_frames: u32,
    ) -> (result: Result<Self, PcmConfigError>)
        ensures
            match physical_refusal(
                capture_period_frames,
                capture_buffer_frames,
                playback_period_frames,
                playback_buffer_frames,
            ) {
                Some(error) => result == Err::<Self, PcmConfigError>(error),
                None => result == Ok::<Self, PcmConfigError>(
                    (Wave3PhysicalIoConfig {
                        capture: PcmBufferConfig {
                            period_frames: capture_period_frames,
                            buffer_frames: capture_buffer_frames,
                        },
                        playback: PcmBufferConfig {
                            period_frames: playback_period_frames,
                            buffer_frames: playback_buffer_frames,
                        },
                    }),
                ) && result->Ok_0.wf(),
            },
    {
        let capture = PcmBufferConfig::try_new(capture_period_frames, capture_buffer_frames)?;
        let playback = PcmBufferConfig::try_new(playback_period_frames, playback_buffer_frames)?;
        let config = Wave3PhysicalIoConfig { capture, playback };
        config.capture_period_bytes()?;
        config.capture_buffer_bytes()?;
        config.playback_period_bytes()?;
        config.playback_buffer_bytes()?;
        Ok(config)
    }

    pub fn capture(self) -> (config: PcmBufferConfig)
        ensures
            config == self.capture,
    {
        self.capture
    }

    pub fn playback(self) -> (config: PcmBufferConfig)
        ensures
            config == self.playback,
    {
        self.playback
    }

    /// Returns the checked byte count for one capture period.
    pub fn capture_period_bytes(self) -> (result: Result<usize, PcmConfigError>)
        ensures
            result == audio_bytes(self.capture.period_frames as int, 1),
    {
        checked_audio_bytes(self.capture.period_frames as usize, WAVE3_CAPTURE_CHANNELS)
    }

    /// Returns the checked byte count for the capture buffer.
    pub fn capture_buffer_bytes(self) -> (result: Result<usize, PcmConfigError>)
        ensures
            result == audio_bytes(self.capture.buffer_frames as int, 1),
    {
        checked_audio_bytes(self.capture.buffer_frames as usize, WAVE3_CAPTURE_CHANNELS)
    }

    /// Returns the checked byte count for one playback period.
    pub fn playback_period_bytes(self) -> (result: Result<usize, PcmConfigError>)
        ensures
            result == audio_bytes(self.playback.period_frames as int, 2),
    {
        checked_audio_bytes(self.playback.period_frames as usize, WAVE3_PLAYBACK_CHANNELS)
    }

    /// Returns the checked byte count for the playback buffer.
    pub fn playback_buffer_bytes(self) -> (result: Result<usize, PcmConfigError>)
        ensures
            result == audio_bytes(self.playback.buffer_frames as int, 2),
    {
        checked_audio_bytes(self.playback.buffer_frames as usize, WAVE3_PLAYBACK_CHANNELS)
    }

    /// The exact hardware parameters of one direction.
    pub open spec fn spec_parameters(self, direction: PcmDirection) -> PhysicalPcmParameters {
        let geometry = match direction {
            PcmDirection::Capture => self.capture,
            PcmDirection::Playback => self.playback,
        };
        PhysicalPcmParameters {
            direction,
            rate: 48_000,
            channels: direction.spec_channels(),
            period_frames: geometry.period_frames,
            buffer_frames: geometry.buffer_frames,
        }
    }

    pub fn parameters(self, direction: PcmDirection) -> (parameters: PhysicalPcmParameters)
        ensures
            parameters == self.spec_parameters(direction),
    {
        let geometry = match direction {
            PcmDirection::Capture => self.capture,
            PcmDirection::Playback => self.playback,
        };
        PhysicalPcmParameters {
            direction,
            rate: WAVE3_PCM_RATE_HZ,
            channels: direction.channels(),
            period_frames: geometry.period_frames,
            buffer_frames: geometry.buffer_frames,
        }
    }
}

/// The parameters one direction asks of its PCM device.
#[derive(Clone, Copy, Debug, Eq, PartialEq, Structural)]
pub struct PhysicalPcmParameters {
    pub direction: PcmDirection,
    pub rate: u32,
    pub channels: u32,
    pub period_frames: u32,
    pub buffer_frames: u32,
}

/// Why physical PCM geometry is invalid.
#[derive(Clone, Copy, Debug, Eq, PartialEq, Structural)]
pub enum PcmConfigError {
    ZeroPeriod,
    ZeroBuffer,
    PeriodExceedsBuffer { period_frames: u32, buffer_frames: u32 },
    GeometryOverflow,
}

impl PcmConfigError {
    /// The text of this error.
    pub open spec fn text(self) -> Seq<char> {
        match self {
            PcmConfigError::ZeroPeriod => "PCM period frames must be nonzero"@,
            PcmConfigError::ZeroBuffer => "PCM buffer frames must be nonzero"@,
            PcmConfigError::PeriodExceedsBuffer { period_frames, buffer_frames } => "PCM period "@
                + decimal(period_frames as nat) + " exceeds buffer "@ + decimal(
                buffer_frames as nat,
            ),
            PcmConfigError::GeometryOverflow => "PCM frame, sample, or byte geometry overflows"@,
        }
    }

    /// Describes this error to a person.
    pub fn message(&self) -> (message: String)
        ensures
            message@ == self.text(),
    {
        match *self {
            PcmConfigError::ZeroPeriod => String::from_str("PCM period frames must be nonzero"),
            PcmConfigError::ZeroBuffer => String::from_str("PCM buffer frames must be nonzero"),
            PcmConfigError::PeriodExceedsBuffer { period_frames, buffer_frames } => {
                let mut message = String::from_str("PCM period ");
                message.append(decimal_text(period_frames as u64).as_str());
                message.append(" exceeds buffer ");
                message.append(decimal_text(buffer_frames as u64).as_str());
                message
            },
            PcmConfigError::GeometryOverflow => String::from_str(
                "PCM frame, sample, or byte geometry overflows",
            ),
        }
    }
}

/// Multiplies a frame count out to packed bytes.
pub fn checked_audio_bytes(frames: usize, channels: usize) -> (result: Result<
    usize,
    PcmConfigError,
>)
    ensures
        result == audio_bytes(frames as int, channels as int),
{
    match frames.checked_mul(channels) {
        Some(samples) => match samples.checked_mul(PACKED_S24_SAMPLE_BYTES) {
            Some(bytes) => Ok(bytes),
            None => Err(PcmConfigError::GeometryOverflow),
        },
        None => Err(PcmConfigError::GeometryOverflow),
    }
}

/// Why one packed audio block is invalid.
#[derive(Clone, Copy, Debug, Eq, PartialEq, Structural)]
pub enum PackedS24Error {
    InvalidChannels { actual: usize },
    PartialSample { bytes: usize },
    PartialFrame { samples: usize, channels: usize },
    OutputLength { expected: usize, actual: usize },
    NonFinite { sample_index: usize },
    GeometryOverflow,
}

impl PackedS24Error {
    /// The text of this error.
    pub open spec fn text(self) -> Seq<char> {
        match self {
            PackedS24Error::InvalidChannels { actual } =>
                "packed audio channel count must be nonzero: "@ + decimal(actual as nat),
            PackedS24Error::PartialSample { bytes } => "packed audio has "@ + decimal(bytes as nat)
                + " bytes, not complete 3-byte samples"@,
            PackedS24Error::PartialFrame { samples, channels } => "packed audio has "@ + decimal(
                samples as nat,
            ) + " samples, not complete "@ + decimal(channels as nat) + "-channel frames"@,
            PackedS24Error::OutputLength { expected, actual } =>
                "packed conversion output has length "@ + decimal(actual as nat) + "; expected "@
                + decimal(expected as nat),
            PackedS24Error::NonFinite { sample_index } => "audio sample "@ + decimal(
                sample_index as nat,
            ) + " is not finite"@,
            PackedS24Error::GeometryOverflow => "packed audio geometry overflows"@,
        }
    }

    /// Describes this error to a person.
    pub fn message(&self) -> (message: String)
        ensures
            message@ == self.text(),
    {
        match *self {
            PackedS24Error::InvalidChannels { actual } => {
                let mut message = String::from_str("packed audio channel count must be nonzero: ");
                message.append(decimal_text(actual as u64).as_str());
                message
            },
            PackedS24Error::PartialSample { bytes } => {
                let mut message = String::from_str("packed audio has ");
                message.append(decimal_text(bytes as u64).as_str());
                message.append(" bytes, not complete 3-byte samples");
                message
            },
            PackedS24Error::PartialFrame { samples, channels } => {
                let mut message = String::from_str("packed audio has ");
                message.append(decimal_text(samples as u64).as_str());
                message.append(" samples, not complete ");
                message.append(decimal_text(channels as u64).as_str());
                message.append("-channel frames");
                message
            },
            PackedS24Error::OutputLength { expected, actual } => {
                let mut message = String::from_str("packed conversion output has length ");
                message.append(decimal_text(actual as u64).as_str());
                message.append("; expected ");
                message.append(decimal_text(expected as u64).as_str());
                message
            },
            PackedS24Error::NonFinite { sample_index } => {
                let mut message = String::from_str("audio sample ");
                message.append(decimal_text(sample_index as u64).as_str());
                message.append(" is not finite");
                message
            },
            PackedS24Error::GeometryOverflow => String::from_str("packed audio geometry overflows"),
        }
    }
}

/// The complete frames of a packed block, or why it holds a partial one.
pub open spec fn packed_frames(byte_length: nat, channels: nat) -> Result<usize, PackedS24Error> {
    if channels == 0 {
        Err(PackedS24Error::InvalidChannels { actual: 0 })
    } else if byte_length % 3 != 0 {
        Err(PackedS24Error::PartialSample { bytes: byte_length as usize })
    } else if (byte_length / 3) % channels != 0 {
        Err(
            PackedS24Error::PartialFrame {
                samples: (byte_length / 3) as usize,
                channels: channels as usize,
            },
        )
    } else {
        Ok((byte_length / 3 / channels) as usize)
    }
}

/// Counts the complete frames of a packed block.
pub fn packed_frame_count(byte_length: usize, channels: usize) -> (result: Result<
    usize,
    PackedS24Error,
>)
    ensures
        result == packed_frames(byte_length as nat, channels as nat),
{
    if channels == 0 {
        return Err(PackedS24Error::InvalidChannels { actual: channels });
    }
    if byte_length % PACKED_S24_SAMPLE_BYTES != 0 {
        return Err(PackedS24Error::PartialSample { bytes: byte_length });
    }
    let samples: usize = byte_length / PACKED_S24_SAMPLE_BYTES;
    if samples % channels != 0 {
        return Err(PackedS24Error::PartialFrame { samples, channels });
    }
    Ok(samples / channels)
}

/// The signed number that three little-endian bytes hold.
pub open spec fn s24_of_bytes(low: u8, middle: u8, high: u8) -> int {
    low + 256 * middle + 65536 * high - if high >= 0x80 {
        0x100_0000int
    } else {
        0
    }
}

/// The byte at `position` of the three-byte two's complement form of `raw`.
pub open spec fn s24_byte(raw: int, position: int) -> u8 {
    if position == 0 {
        (raw % 0x100) as u8
    } else if position == 1 {
        (raw / 0x100 % 0x100) as u8
    } else {
        (raw / 0x1_0000 % 0x100) as u8
    }
}

/// The samples of a whole packed block.
pub open spec fn decoded_s24(bytes: Seq<u8>) -> Seq<u32> {
    Seq::new(
        bytes.len() / 3,
        |i: int|
            sample_of(s24_of_bytes(bytes[3 * i], bytes[3 * i + 1], bytes[3 * i + 2]), 23) as u32,
    )
}

/// The packed bytes of a block of finite samples.
pub open spec fn encoded_s24(samples: Seq<u32>) -> Seq<u8> {
    Seq::new(3 * samples.len(), |j: int| s24_byte(quantized(samples[j / 3], 23), j % 3))
}

/// Why a packed block cannot be decoded into `output_length` samples, if it
/// cannot.
pub open spec fn decode_refusal(byte_length: nat, channels: nat, output_length: nat) -> Option<
    PackedS24Error,
> {
    match packed_frames(byte_length, channels) {
        Err(error) => Some(error),
        Ok(_) => if output_length != byte_length / 3 {
            Some(
                PackedS24Error::OutputLength {
                    expected: (byte_length / 3) as usize,
                    actual: output_length as usize,
                },
            )
        } else {
            None
        },
    }
}

/// Unpacks a block of complete frames into samples.
pub fn decode_s24_3le(bytes: &[u8], channels: usize, output: &mut [u32]) -> (result: Result<
    usize,
    PackedS24Error,
>)
    ensures
        match decode_refusal(bytes@.len(), channels as nat, old(output)@.len()) {
            Some(error) => result == Err::<usize, PackedS24Error>(error) && final(output)@ == old(
                output,
            )@,
            None => result == packed_frames(bytes@.len(), channels as nat) && final(output)@
                == decoded_s24(bytes@),
        },
{
    let frames: usize = packed_frame_count(bytes.len(), channels)?;
    proof {
        let samples = bytes@.len() / 3;
        vstd::arithmetic::div_mod::lemma_fundamental_div_mod(samples as int, channels as int);
        assert(frames * channels == samples) by (nonlinear_arith)
            requires
                samples == channels * frames + 0,
        ;
    }
    let samples: usize = match frames.checked_mul(channels) {
        Some(samples) => samples,
        None => {
            return Err(PackedS24Error::GeometryOverflow);
        },
    };
    if output.len() != samples {
        return Err(PackedS24Error::OutputLength { expected: samples, actual: output.len() });
    }
    let length: usize = bytes.len();
    for index in 0..samples
        invariant
            length == bytes@.len(),
            length == 3 * samples,
            output@.len() == samples,
            forall|i: int| 0 <= i < index ==> #[trigger] output@[i] == decoded_s24(bytes@)[i],
    {
        let low: u8 = bytes[3 * index];
        let middle: u8 = bytes[3 * index + 1];
        let high: u8 = bytes[3 * index + 2];
        let raw: i32 = low as i32 + 256 * (middle as i32) + 65536 * (high as i32) - if high >= 0x80 {
            0x100_0000
        } else {
            0
        };
        proof {
            lemma2_to64();
        }
        output[index] = dequantize(raw, 23);
    }
    proof {
        assert(output@ =~= decoded_s24(bytes@));
    }
    Ok(frames)
}

/// Why a block of samples cannot be packed into `output_length` bytes, if it
/// cannot.
pub open spec fn encode_refusal(samples: Seq<u32>, channels: nat, output_length: nat) -> Option<
    PackedS24Error,
> {
    if channels == 0 {
        Some(PackedS24Error::InvalidChannels { actual: 0 })
    } else if samples.len() % channels != 0 {
        Some(
            PackedS24Error::PartialFrame {
                samples: samples.len() as usize,
                channels: channels as usize,
            },
        )
    } else if samples.len() * 3 > usize::MAX {
        Some(PackedS24Error::GeometryOverflow)
    } else if output_length != samples.len() * 3 {
        Some(
            PackedS24Error::OutputLength {
                expected: (samples.len() * 3) as usize,
                actual: output_length as usize,
            },
        )
    } else if !all_finite(samples) {
        Some(PackedS24Error::NonFinite { sample_index: finite_prefix(samples) as usize })
    } else {
        None
    }
}

/// Packs a block of complete, finite frames.
pub fn encode_s24_3le(samples: &[u32], channels: usize, output: &mut [u8]) -> (result: Result<
    usize,
    PackedS24Error,
>)
    ensures
        match encode_refusal(samples@, channels as nat, old(output)@.len()) {
            Some(error) => result == Err::<usize, PackedS24Error>(error) && final(output)@ == old(
                output,
            )@,
            None => result == Ok::<usize, PackedS24Error>(
                (samples@.len() / channels as nat) as usize,
            ) && final(output)@ == encoded_s24(samples@),
        },
{
    if channels == 0 {
        return Err(PackedS24Error::InvalidChannels { actual: channels });
    }
    if samples.len() % channels != 0 {
        return Err(PackedS24Error::PartialFrame { samples: samples.len(), channels });
    }
    let expected: usize = match samples.len().checked_mul(PACKED_S24_SAMPLE_BYTES) {
        Some(expected) => expected,
        None => {
            return Err(PackedS24Error::GeometryOverflow);
        },
    };
    if output.len() != expected {
        return Err(PackedS24Error::OutputLength { expected, actual: output.len() });
    }
    if let Some(sample_index) = find_nonfinite(samples) {
        proof {
            lemma_all_finite(samples@);
        }
        return Err(PackedS24Error::NonFinite { sample_index });
    }
    for index in 0..samples.len()
        invariant
            all_finite(samples@),
            output@.len() == 3 * samples@.len(),
            samples@.len() * 3 <= usize::MAX,
            forall|j: int| 0 <= j < 3 * index ==> #[trigger] output@[j] == encoded_s24(samples@)[j],
    {
        proof {
            lemma2_to64();
        }
        let raw: i64 = quantize(samples[index], 23);
        let wrapped: u32 = if raw < 0 {
            (raw + 0x100_0000) as u32
        } else {
            raw as u32
        };
        proof {
            lemma_s24_wrapped(raw as int);
        }
        let ghost before = output@;
        output[3 * index] = (wrapped % 0x100) as u8;
        output[3 * index + 1] = (wrapped / 0x100 % 0x100) as u8;
        output[3 * index + 2] = (wrapped / 0x1_0000 % 0x100) as u8;
        proof {
            assert forall|j: int| 0 <= j < 3 * (index + 1) implies #[trigger] output@[j]
                == encoded_s24(samples@)[j] by {
                if j < 3 * index {
                    assert(output@[j] == before[j]);
                } else {
                    assert(j / 3 == index);
                    assert(j % 3 == j - 3 * index);
                }
            }
        }
    }
    proof {
        assert(output@ =~= encoded_s24(samples@));
    }
    Ok(samples.len() / channels)
}

/// Adding `2^24` to a negative number keeps its three low bytes.
proof fn lemma_s24_wrapped(raw: int)
    requires
        -0x80_0000 <= raw < 0x80_0000,
    ensures
        raw < 0 ==> raw % 0x100 == (raw + 0x100_0000) % 0x100,
        raw < 0 ==> raw / 0x100 % 0x100 == (raw + 0x100_0000) / 0x100 % 0x100,
        raw < 0 ==> raw / 0x1_0000 % 0x100 == (raw + 0x100_0000) / 0x1_0000 % 0x100,
{
    assert((raw + 0x100_0000) / 0x100 == raw / 0x100 + 0x1_0000);
    assert((raw + 0x100_0000) / 0x1_0000 == raw / 0x1_0000 + 0x100);
}

/// Three bytes are the three-byte form of the number they hold.
proof fn lemma_s24_bytes(low: u8, middle: u8, high: u8)
    ensures
        -0x80_0000 <= s24_of_bytes(low, middle, high) < 0x80_0000,
        s24_byte(s24_of_bytes(low, middle, high), 0) == low,
        s24_byte(s24_of_bytes(low, middle, high), 1) == middle,
        s24_byte(s24_of_bytes(low, middle, high), 2) == high,
{
    let raw = s24_of_bytes(low, middle, high);
    let top: int = if high >= 0x80 { high - 0x100 } else { high as int };
    assert(raw == low + 0x100 * middle + 0x1_0000 * top);
    assert(raw / 0x100 == middle + 0x100 * top);
    assert(raw / 0x1_0000 == top);
}

/// Packing what was unpacked from complete samples gives the same bytes back.
pub proof fn law_packed_round_trip(bytes: Seq<u8>)
    requires
        bytes.len() % 3 == 0,
    ensures
        all_finite(decoded_s24(bytes)),
        encoded_s24(decoded_s24(bytes)) == bytes,
{
    let samples = decoded_s24(bytes);
    assert forall|i: int| 0 <= i < samples.len() implies crate::audio_host::sample::finite(
        #[trigger] samples[i],
    ) && quantized(samples[i], 23) == s24_of_bytes(
        bytes[3 * i],
        bytes[3 * i + 1],
        bytes[3 * i + 2],
    ) by {
        lemma_s24_bytes(bytes[3 * i], bytes[3 * i + 1], bytes[3 * i + 2]);
        law_s24_round_trip(s24_of_bytes(bytes[3 * i], bytes[3 * i + 1], bytes[3 * i + 2]));
    }
    let packed = encoded_s24(samples);
    assert forall|j: int| 0 <= j < bytes.len() implies #[trigger] packed[j] == bytes[j] by {
        let i = j / 3;
        assert(0 <= i < samples.len());
        assert(j == 3 * i + j % 3);
        lemma_s24_bytes(bytes[3 * i], bytes[3 * i + 1], bytes[3 * i + 2]);
        assert(quantized(samples[i], 23) == s24_of_bytes(
            bytes[3 * i],
            bytes[3 * i + 1],
            bytes[3 * i + 2],
        ));
    }
    assert(packed =~= bytes);
}

/// A packed block has complete frames exactly if its bytes are three for each
/// channel of each frame; otherwise the refusal says how many whole samples, or
/// bytes, it has.
pub proof fn law_packed_frames_take_three_bytes_per_channel(
    byte_length: usize,
    channels: usize,
    frames: usize,
)
    ensures
        channels > 0 && byte_length == 3 * (channels * frames) ==> packed_frames(
            byte_length as nat,
            channels as nat,
        ) == Ok::<usize, PackedS24Error>(frames),
        match packed_frames(byte_length as nat, channels as nat) {
            Ok(counted) => channels > 0 && byte_length == 3 * (channels * counted),
            Err(PackedS24Error::InvalidChannels { actual }) => channels == 0 && actual == 0,
            Err(PackedS24Error::PartialSample { bytes }) => channels > 0 && bytes == byte_length
                && byte_length % 3 != 0,
            Err(PackedS24Error::PartialFrame { samples, channels: counted }) => counted == channels
                && channels > 0 && byte_length == 3 * samples && samples % channels != 0,
            Err(_) => false,
        },
{
    if channels > 0 {
        let samples = byte_length as nat / 3;
        if byte_length % 3 == 0 {
            vstd::arithmetic::div_mod::lemma_fundamental_div_mod(samples as int, channels as int);
            assert(samples / channels as nat <= samples) by (nonlinear_arith)
                requires
                    channels > 0,
            ;
        }
        if byte_length == 3 * (channels * frames) {
            assert(samples == channels * frames);
            vstd::arithmetic::div_mod::lemma_div_multiples_vanish(frames as int, channels as int);
            vstd::arithmetic::div_mod::lemma_mod_multiples_basic(frames as int, channels as int);
            assert(channels * frames == frames * channels) by (nonlinear_arith);
        }
    }
}

/// Geometry is refused exactly if a count is zero or the period exceeds its
/// buffer, and the refusal names the first of these.
pub proof fn law_refused_geometry_says_why(period_frames: u32, buffer_frames: u32)
    ensures
        buffer_refusal(period_frames, buffer_frames) is None <==> 0 < period_frames
            <= buffer_frames,
        match buffer_refusal(period_frames, buffer_frames) {
            None => true,
            Some(PcmConfigError::ZeroPeriod) => period_frames == 0,
            Some(PcmConfigError::ZeroBuffer) => period_frames > 0 && buffer_frames == 0,
            Some(PcmConfigError::PeriodExceedsBuffer { period_frames: period, buffer_frames: buffer })
                => period == period_frames && buffer == buffer_frames && period > buffer > 0,
            Some(PcmConfigError::GeometryOverflow) => false,
        },
{
}

/// Physical geometry is admitted exactly if both directions fit and both buffers
/// have a byte count; capture is judged before playback.
pub proof fn law_admitted_geometry_fits_both_directions(
    capture: PcmBufferConfig,
    playback: PcmBufferConfig,
)
    ensures
        physical_refusal(
            capture.period_frames,
            capture.buffer_frames,
            playback.period_frames,
            playback.buffer_frames,
        ) is None <==> {
            &&& 0 < capture.period_frames <= capture.buffer_frames
            &&& 0 < playback.period_frames <= playback.buffer_frames
            &&& 3 * capture.buffer_frames <= usize::MAX
            &&& 6 * playback.buffer_frames <= usize::MAX
        },
        !capture.wf() ==> physical_refusal(
            capture.period_frames,
            capture.buffer_frames,
            playback.period_frames,
            playback.buffer_frames,
        ) == buffer_refusal(capture.period_frames, capture.buffer_frames),
        capture.wf() && !playback.wf() ==> physical_refusal(
            capture.period_frames,
            capture.buffer_frames,
            playback.period_frames,
            playback.buffer_frames,
        ) == buffer_refusal(playback.period_frames, playback.buffer_frames),
{
}

/// Each direction asks its device for its own geometry at the one fixed rate:
/// mono for capture and stereo for playback.
pub proof fn law_each_direction_asks_for_its_own_geometry(config: Wave3PhysicalIoConfig)
    ensures
        ({
            let capture = config.spec_parameters(PcmDirection::Capture);
            let playback = config.spec_parameters(PcmDirection::Playback);
            &&& capture.direction == PcmDirection::Capture
            &&& capture.channels == 1
            &&& capture.rate == 48_000
            &&& capture.period_frames == config.capture.period_frames
            &&& capture.buffer_frames == config.capture.buffer_frames
            &&& playback.direction == PcmDirection::Playback
            &&& playback.channels == 2
            &&& playback.rate == 48_000
            &&& playback.period_frames == config.playback.period_frames
            &&& playback.buffer_frames == config.playback.buffer_frames
        }),
{
}

/// Three bytes hold a number with its least significant byte first: one more in a
/// byte is one, 256 or 65536 more in the number, which turns negative where the
/// last byte reaches its upper half.
pub proof fn law_packed_bytes_are_little_endian(low: u8, middle: u8, high: u8)
    ensures
        s24_of_bytes(0, 0, 0) == 0,
        low < 255 ==> s24_of_bytes((low + 1) as u8, middle, high) == s24_of_bytes(low, middle, high)
            + 1,
        middle < 255 ==> s24_of_bytes(low, (middle + 1) as u8, high) == s24_of_bytes(
            low,
            middle,
            high,
        ) + 256,
        high < 255 && high != 127 ==> s24_of_bytes(low, middle, (high + 1) as u8) == s24_of_bytes(
            low,
            middle,
            high,
        ) + 65536,
        s24_of_bytes(low, middle, high) < 0 <==> high >= 128,
        s24_of_bytes(255, 255, 255) == -1,
{
}

/// The three-byte form of a number is read back as that number.
pub proof fn law_packed_numbers_are_read_back(raw: int)
    requires
        -0x80_0000 <= raw < 0x80_0000,
    ensures
        s24_of_bytes(s24_byte(raw, 0), s24_byte(raw, 1), s24_byte(raw, 2)) == raw,
{
    lemma_s24_wrapped(raw);
    let wrapped = if raw < 0 {
        raw + 0x100_0000
    } else {
        raw
    };
    assert(wrapped == wrapped % 0x100 + 0x100 * (wrapped / 0x100 % 0x100) + 0x1_0000 * (wrapped
        / 0x1_0000 % 0x100));
}

/// Every sample of a packed block stands at its own three bytes, in both
/// directions.
pub proof fn law_packed_samples_stand_in_order(bytes: Seq<u8>, samples: Seq<u32>, index: int)
    requires
        0 <= index,
    ensures
        decoded_s24(bytes).len() == bytes.len() / 3,
        encoded_s24(samples).len() == 3 * samples.len(),
        3 * index + 2 < bytes.len() ==> quantized(decoded_s24(bytes)[index], 23) == s24_of_bytes(
            bytes[3 * index],
            bytes[3 * index + 1],
            bytes[3 * index + 2],
        ),
        index < samples.len() ==> {
            &&& encoded_s24(samples)[3 * index] == s24_byte(quantized(samples[index], 23), 0)
            &&& encoded_s24(samples)[3 * index + 1] == s24_byte(quantized(samples[index], 23), 1)
            &&& encoded_s24(samples)[3 * index + 2] == s24_byte(quantized(samples[index], 23), 2)
        },
{
    if 3 * index + 2 < bytes.len() {
        lemma_s24_bytes(bytes[3 * index], bytes[3 * index + 1], bytes[3 * index + 2]);
        law_s24_round_trip(
            s24_of_bytes(bytes[3 * index], bytes[3 * index + 1], bytes[3 * index + 2]),
        );
    }
    if index < samples.len() {
        assert((3 * index) / 3 == index && (3 * index) % 3 == 0);
        assert((3 * index + 1) / 3 == index && (3 * index + 1) % 3 == 1);
        assert((3 * index + 2) / 3 == index && (3 * index + 2) % 3 == 2);
    }
}

/// A block is decoded exactly if its frames are complete and the output has one
/// place for each sample.
pub proof fn law_refused_decoding_says_why(
    byte_length: usize,
    channels: usize,
    output_length: usize,
)
    ensures
        decode_refusal(byte_length as nat, channels as nat, output_length as nat) is None
            <==> packed_frames(byte_length as nat, channels as nat) is Ok && 3 * output_length
            == byte_length,
        packed_frames(byte_length as nat, channels as nat) is Ok && 3 * output_length
            != byte_length ==> match decode_refusal(
            byte_length as nat,
            channels as nat,
            output_length as nat,
        ) {
            Some(PackedS24Error::OutputLength { expected, actual }) => 3 * expected == byte_length
                && actual == output_length,
            _ => false,
        },
{
}

/// A block is packed exactly if its frames are complete, the output has three
/// bytes for each sample, and every sample is finite; the refusal says which of
/// these fails first.
pub proof fn law_refused_packing_says_why(
    samples: Seq<u32>,
    channels: usize,
    output_length: usize,
)
    requires
        samples.len() <= usize::MAX,
    ensures
        match encode_refusal(samples, channels as nat, output_length as nat) {
            None => {
                &&& channels > 0
                &&& samples.len() % (channels as nat) == 0
                &&& output_length == 3 * samples.len()
                &&& all_finite(samples)
            },
            Some(PackedS24Error::InvalidChannels { actual }) => channels == 0 && actual == 0,
            Some(PackedS24Error::PartialSample { bytes }) => false,
            Some(PackedS24Error::PartialFrame { samples: counted, channels: asked }) => {
                &&& channels > 0
                &&& asked == channels
                &&& counted == samples.len()
                &&& samples.len() % (channels as nat) != 0
            },
            Some(PackedS24Error::GeometryOverflow) => 3 * samples.len() > usize::MAX,
            Some(PackedS24Error::OutputLength { expected, actual }) => {
                &&& expected == 3 * samples.len()
                &&& actual == output_length
                &&& expected != actual
            },
            Some(PackedS24Error::NonFinite { sample_index }) => {
                &&& output_length == 3 * samples.len()
                &&& sample_index < samples.len()
                &&& !crate::audio_host::sample::finite(samples[sample_index as int])
                &&& forall|i: int|
                    0 <= i < sample_index ==> crate::audio_host::sample::finite(
                        #[trigger] samples[i],
                    )
            },
        },
{
    law_finite_prefix_ends_at_the_first_bad_sample(samples);
    lemma_all_finite(samples);
}

} // verus!
