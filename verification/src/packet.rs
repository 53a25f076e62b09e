use vstd::prelude::*;

use crate::devices::{CameraConfig, DeviceInformation};
use crate::error::CaptureError;
use crate::time::Timestamp;

verus! {

/// What travels with a frame: its source device, when it was sent and received,
/// and the shape of the frame.
#[derive(Debug, Clone, PartialEq)]
pub struct FramePacketInformation {
    pub device_info: DeviceInformation,
    pub rx_timestamp: Option<Timestamp>,
    pub tx_timestamp: Option<Timestamp>,
    pub frame_shape: Vec<u32>,
}

/// A captured frame: its information and its raw bytes.
#[derive(Debug, Clone, PartialEq)]
pub struct FramePacket {
    pub frame_info: FramePacketInformation,
    pub data: Vec<u8>,
}

/// The signed 16-bit sample whose little-endian bytes are `lo`, `hi`.
pub open spec fn i16_from_le(lo: u8, hi: u8) -> i16 {
    let v = lo + 256 * hi;
    if v >= 32768 {
        (v - 65536) as i16
    } else {
        v as i16
    }
}

/// The samples of a little-endian signed 16-bit byte stream, one per byte pair.
pub open spec fn i16_le_samples(bytes: Seq<u8>) -> Seq<i16> {
    Seq::new(bytes.len() / 2, |i: int| i16_from_le(bytes[2 * i], bytes[2 * i + 1]))
}

/// The sum of the squares of the samples: the numerator of the mean power of an
/// audio frame, whose root is the frame's root-mean-square level.
pub open spec fn power_sum(samples: Seq<i16>) -> int
    decreases samples.len(),
{
    if samples.len() == 0 {
        0
    } else {
        let x = samples.last() as int;
        power_sum(samples.drop_last()) + x * x
    }
}

impl FramePacketInformation {
    /// Information for a frame stamped at `timestamp` by the side that produced it,
    /// and not received yet.
    pub fn new(timestamp: Timestamp, device_info: DeviceInformation, frame_shape: Vec<u32>) -> (info:
        FramePacketInformation)
        ensures
            info.device_info == device_info,
            info.rx_timestamp is None,
            info.tx_timestamp == Some(timestamp),
            info.frame_shape@ == frame_shape@,
    {
        FramePacketInformation {
            device_info,
            rx_timestamp: None,
            tx_timestamp: Some(timestamp),
            frame_shape,
        }
    }

    /// A copy of this information, equal to it field by field.
    pub fn duplicate(&self) -> (copy: FramePacketInformation)
        ensures
            copy.device_info == self.device_info,
            copy.rx_timestamp == self.rx_timestamp,
            copy.tx_timestamp == self.tx_timestamp,
            copy.frame_shape@ == self.frame_shape@,
    {
        FramePacketInformation {
            device_info: self.device_info.duplicate(),
            rx_timestamp: self.rx_timestamp,
            tx_timestamp: self.tx_timestamp,
            frame_shape: self.frame_shape.clone(),
        }
    }
}

impl FramePacket {
    /// A packet of the given information and bytes.
    pub fn new(frame_info: FramePacketInformation, data: Vec<u8>) -> (packet: FramePacket)
        ensures
            packet.frame_info == frame_info,
            packet.data@ == data@,
    {
        FramePacket { frame_info, data }
    }

    /// The packet for a frame just captured by a camera running `config`: the frame
    /// shape is width then height, and the packet carries no timestamps.
    pub fn from_capture(device_info: &DeviceInformation, config: &CameraConfig, frame: &[u8]) -> (packet:
        FramePacket)
        ensures
            packet.frame_info.device_info == *device_info,
            packet.frame_info.rx_timestamp is None,
            packet.frame_info.tx_timestamp is None,
            packet.frame_info.frame_shape@ == seq![config.width, config.height],
            packet.data@ == frame@,
    {
        let mut shape: Vec<u32> = Vec::new();
        shape.push(config.width);
        shape.push(config.height);
        let info = FramePacketInformation {
            device_info: device_info.duplicate(),
            rx_timestamp: None,
            tx_timestamp: None,
            frame_shape: shape,
        };
        FramePacket::new(info, vstd::slice::slice_to_vec(frame))
    }

    /// Decodes little-endian signed 16-bit samples; the byte count must be even.
    pub fn decode_to_i16_le(bytes: &[u8]) -> (res: Result<Vec<i16>, CaptureError>)
        requires
            bytes@.len() % 2 == 0,
        ensures
            res matches Ok(samples) && samples@ == i16_le_samples(bytes@),
    {
        let len = bytes.len();
        let count = len / 2;
        assert(2 * count == len);
        let mut samples: Vec<i16> = Vec::new();
        let mut i: usize = 0;
        while i < count
            invariant
                count == bytes@.len() / 2,
                2 * count == len,
                len == bytes@.len(),
                i <= count,
                samples@.len() == i,
                forall|j: int| 0 <= j < i ==> samples@[j] == i16_from_le(bytes@[2 * j], bytes@[2 * j + 1]),
            decreases count - i,
        {
            let lo = bytes[2 * i];
            let hi = bytes[2 * i + 1];
            let v: i32 = lo as i32 + 256 * (hi as i32);
            let sample: i16 = if v >= 32768 {
                (v - 65536) as i16
            } else {
                v as i16
            };
            samples.push(sample);
            i = i + 1;
        }
        assert(samples@ =~= i16_le_samples(bytes@));
        Ok(samples)
    }
}

/// The sum of the squares of the samples: the numerator of the mean power of an
/// audio frame, from which its root-mean-square level is taken.
pub fn sum_of_squares(samples: &[i16]) -> (sum: u128)
    ensures
        sum == power_sum(samples@),
{
    let mut sum: u128 = 0;
    let mut i: usize = 0;
    while i < samples.len()
        invariant
            i <= samples@.len(),
            sum == power_sum(samples@.take(i as int)),
            sum <= i * 1073741824,
        decreases samples@.len() - i,
    {
        let x = samples[i];
        let w: i64 = x as i64;
        assert(0 <= w * w <= 1073741824) by (nonlinear_arith)
            requires
                -32768 <= w <= 32767,
        ;
        let sq: i64 = w * w;
        assert(samples@.take(i + 1).drop_last() =~= samples@.take(i as int));
        sum = sum + sq as u128;
        i = i + 1;
    }
    assert(samples@.take(samples@.len() as int) =~= samples@);
    sum
}

/// The little-endian bytes of a signed 16-bit sample: low byte, then high byte of its
/// two's-complement form.
pub open spec fn i16_le_pair(v: i16) -> (u8, u8) {
    let u: int = if v < 0 {
        v + 65536
    } else {
        v as int
    };
    ((u % 256) as u8, (u / 256) as u8)
}

/// The little-endian byte stream of a sequence of samples, two bytes per sample.
pub open spec fn i16_le_encoding(samples: Seq<i16>) -> Seq<u8> {
    Seq::new(
        2 * samples.len(),
        |i: int|
            if i % 2 == 0 {
                i16_le_pair(samples[i / 2]).0
            } else {
                i16_le_pair(samples[i / 2]).1
            },
    )
}

proof fn lemma_pair_decodes(v: i16)
    ensures
        i16_from_le(i16_le_pair(v).0, i16_le_pair(v).1) == v,
{
    let u: int = if v < 0 {
        v + 65536
    } else {
        v as int
    };
    assert((u % 256) + 256 * (u / 256) == u && 0 <= u % 256 < 256 && 0 <= u / 256 < 256) by (nonlinear_arith)
        requires
            0 <= u < 65536,
    ;
}

proof fn lemma_decoded_pair(lo: u8, hi: u8)
    ensures
        i16_le_pair(i16_from_le(lo, hi)) == (lo, hi),
{
    let u: int = lo + 256 * hi;
    assert(u % 256 == lo && u / 256 == hi) by (nonlinear_arith)
        requires
            u == lo + 256 * hi,
            0 <= lo < 256,
            0 <= hi < 256,
    ;
}

/// Decoding undoes little-endian encoding: the samples encoded two bytes each decode
/// back to the same samples.
pub proof fn lemma_decode_undoes_encode(samples: Seq<i16>)
    ensures
        i16_le_samples(i16_le_encoding(samples)) == samples,
{
    let bytes = i16_le_encoding(samples);
    assert forall|i: int| 0 <= i < samples.len() implies #[trigger] i16_le_samples(bytes)[i] == samples[i] by {
        assert((2 * i) / 2 == i && (2 * i) % 2 == 0 && (2 * i + 1) / 2 == i && (2 * i + 1) % 2 == 1);
        lemma_pair_decodes(samples[i]);
    }
    assert(i16_le_samples(bytes) =~= samples);
}

/// Encoding undoes decoding: a byte stream of even length decodes to samples whose
/// little-endian encoding is the same stream.
pub proof fn lemma_encode_undoes_decode(bytes: Seq<u8>)
    requires
        bytes.len() % 2 == 0,
    ensures
        i16_le_encoding(i16_le_samples(bytes)) == bytes,
{
    let samples = i16_le_samples(bytes);
    assert forall|i: int| 0 <= i < bytes.len() implies #[trigger] i16_le_encoding(samples)[i] == bytes[i] by {
        let k = i / 2;
        assert(0 <= k < samples.len());
        assert(2 * k == i || 2 * k + 1 == i);
        lemma_decoded_pair(bytes[2 * k], bytes[2 * k + 1]);
    }
    assert(i16_le_encoding(samples) =~= bytes);
}

/// The sum of squares is additive and never wraps: the empty sum is 0, and one more
/// sample adds exactly its square, so the sum never goes down.
pub proof fn lemma_power_sum_adds_squares(samples: Seq<i16>, x: i16)
    ensures
        power_sum(Seq::<i16>::empty()) == 0,
        power_sum(samples.push(x)) == power_sum(samples) + (x as int) * (x as int),
        power_sum(samples.push(x)) >= power_sum(samples),
{
    assert(samples.push(x).drop_last() =~= samples);
    assert((x as int) * (x as int) >= 0) by (nonlinear_arith);
}

/// Samples that all have amplitude `a` have the sum of squares `len * a * a`.
pub proof fn lemma_power_sum_of_constant(samples: Seq<i16>, a: i16)
    requires
        forall|i: int| 0 <= i < samples.len() ==> samples[i] == a,
    ensures
        power_sum(samples) == samples.len() * ((a as int) * (a as int)),
    decreases samples.len(),
{
    if samples.len() > 0 {
        let prev = samples.drop_last();
        lemma_power_sum_of_constant(prev, a);
        let q = (a as int) * (a as int);
        let n = samples.len() as int;
        assert(samples.last() == a);
        assert(power_sum(samples) == power_sum(prev) + q);
        assert((n - 1) * q + q == n * q) by (nonlinear_arith);
    }
}

} // verus!
