//! The device session's side of the native tracking SDK: its status codes and
//! the decoding of the orientation payloads it delivers.

use crate::euler::EulerData;
use vstd::prelude::*;

verus! {

/// Status codes returned by the native SDK.
#[allow(non_camel_case_types)]
#[derive(Clone, Copy, Debug, PartialEq, Eq, Structural)]
pub enum VitureResult {
    ERR_TIMEOUT,
    ERR_RSP_ERROR,
    ERR_WRITE_FAIL,
    ERR_SUCCESS,
    ERR_FAILURE,
    ERR_INVALID_ARGUMENT,
    ERR_NOT_ENOUGH_MEMORY,
    ERR_UNSUPPORTED_CMD,
    ERR_CRC_MISMATCH,
    ERR_VER_MISMATCH,
    ERR_MSG_ID_MISMATCH,
    ERR_MSG_STX_MISMATCH,
    ERR_CODE_NOT_WRITTEN,
}

/// The integer by which the native SDK reports each status.
pub open spec fn result_code(r: VitureResult) -> int {
    match r {
        VitureResult::ERR_TIMEOUT => -3,
        VitureResult::ERR_RSP_ERROR => -2,
        VitureResult::ERR_WRITE_FAIL => -1,
        VitureResult::ERR_SUCCESS => 0,
        VitureResult::ERR_FAILURE => 1,
        VitureResult::ERR_INVALID_ARGUMENT => 2,
        VitureResult::ERR_NOT_ENOUGH_MEMORY => 3,
        VitureResult::ERR_UNSUPPORTED_CMD => 4,
        VitureResult::ERR_CRC_MISMATCH => 5,
        VitureResult::ERR_VER_MISMATCH => 6,
        VitureResult::ERR_MSG_ID_MISMATCH => 7,
        VitureResult::ERR_MSG_STX_MISMATCH => 8,
        VitureResult::ERR_CODE_NOT_WRITTEN => 9,
    }
}

impl VitureResult {
    /// The integer the native SDK uses for this status.
    pub fn code(&self) -> (r: i32)
        ensures
            r == result_code(*self),
    {
        match self {
            VitureResult::ERR_TIMEOUT => -3,
            VitureResult::ERR_RSP_ERROR => -2,
            VitureResult::ERR_WRITE_FAIL => -1,
            VitureResult::ERR_SUCCESS => 0,
            VitureResult::ERR_FAILURE => 1,
            VitureResult::ERR_INVALID_ARGUMENT => 2,
            VitureResult::ERR_NOT_ENOUGH_MEMORY => 3,
            VitureResult::ERR_UNSUPPORTED_CMD => 4,
            VitureResult::ERR_CRC_MISMATCH => 5,
            VitureResult::ERR_VER_MISMATCH => 6,
            VitureResult::ERR_MSG_ID_MISMATCH => 7,
            VitureResult::ERR_MSG_STX_MISMATCH => 8,
            VitureResult::ERR_CODE_NOT_WRITTEN => 9,
        }
    }

    /// The status that the native SDK reports by `code`; `None` for an
    /// integer that is no known status.
    pub fn from_code(code: i32) -> (r: Option<VitureResult>)
        ensures
            -3 <= code <= 9 <==> r is Some,
            r matches Some(s) ==> result_code(s) == code,
    {
        match code {
            -3 => Some(VitureResult::ERR_TIMEOUT),
            -2 => Some(VitureResult::ERR_RSP_ERROR),
            -1 => Some(VitureResult::ERR_WRITE_FAIL),
            0 => Some(VitureResult::ERR_SUCCESS),
            1 => Some(VitureResult::ERR_FAILURE),
            2 => Some(VitureResult::ERR_INVALID_ARGUMENT),
            3 => Some(VitureResult::ERR_NOT_ENOUGH_MEMORY),
            4 => Some(VitureResult::ERR_UNSUPPORTED_CMD),
            5 => Some(VitureResult::ERR_CRC_MISMATCH),
            6 => Some(VitureResult::ERR_VER_MISMATCH),
            7 => Some(VitureResult::ERR_MSG_ID_MISMATCH),
            8 => Some(VitureResult::ERR_MSG_STX_MISMATCH),
            9 => Some(VitureResult::ERR_CODE_NOT_WRITTEN),
            _ => None,
        }
    }

    /// Whether the status reports success.
    pub fn is_success(&self) -> (r: bool)
        ensures
            r == (*self == VitureResult::ERR_SUCCESS),
    {
        match self {
            VitureResult::ERR_SUCCESS => true,
            _ => false,
        }
    }
}

/// On/off state of a device feature, as the native SDK reports it.
#[derive(Clone, Copy, Debug, PartialEq, Eq, Structural)]
pub enum VitureState {
    Off,
    On,
}

impl VitureState {
    /// The integer the native SDK uses for this state.
    pub fn code(&self) -> (r: i32)
        ensures
            r == (if *self == VitureState::On { 1i32 } else { 0i32 }),
    {
        match self {
            VitureState::Off => 0,
            VitureState::On => 1,
        }
    }

    /// The state that the native SDK reports by `code`; `None` for an integer
    /// that is no known state.
    pub fn from_code(code: i32) -> (r: Option<VitureState>)
        ensures
            r == (if code == 0 {
                Some(VitureState::Off)
            } else if code == 1 {
                Some(VitureState::On)
            } else {
                None
            }),
    {
        match code {
            0 => Some(VitureState::Off),
            1 => Some(VitureState::On),
            _ => None,
        }
    }
}

/// Sample rate of the device's orientation stream.
#[derive(Clone, Copy, Debug, PartialEq, Eq, Structural)]
pub enum VitureImuFrequency {
    Frequency60,
    Frequency90,
    Frequency120,
    Frequency240,
}

/// The integer by which the native SDK designates each sample rate.
pub open spec fn frequency_code(f: VitureImuFrequency) -> int {
    match f {
        VitureImuFrequency::Frequency60 => 0,
        VitureImuFrequency::Frequency90 => 1,
        VitureImuFrequency::Frequency120 => 2,
        VitureImuFrequency::Frequency240 => 3,
    }
}

impl VitureImuFrequency {
    /// The integer the native SDK uses for this sample rate.
    pub fn code(&self) -> (r: i32)
        ensures
            r == frequency_code(*self),
    {
        match self {
            VitureImuFrequency::Frequency60 => 0,
            VitureImuFrequency::Frequency90 => 1,
            VitureImuFrequency::Frequency120 => 2,
            VitureImuFrequency::Frequency240 => 3,
        }
    }

    /// The sample rate that the native SDK reports by `code`; `None` for an
    /// integer that is no known rate.
    pub fn from_code(code: i32) -> (r: Option<VitureImuFrequency>)
        ensures
            0 <= code <= 3 <==> r is Some,
            r matches Some(f) ==> frequency_code(f) == code,
    {
        match code {
            0 => Some(VitureImuFrequency::Frequency60),
            1 => Some(VitureImuFrequency::Frequency90),
            2 => Some(VitureImuFrequency::Frequency120),
            3 => Some(VitureImuFrequency::Frequency240),
            _ => None,
        }
    }

    /// Samples per second at this rate.
    pub fn hertz(&self) -> (r: u32)
        ensures
            r == (match *self {
                VitureImuFrequency::Frequency60 => 60u32,
                VitureImuFrequency::Frequency90 => 90u32,
                VitureImuFrequency::Frequency120 => 120u32,
                VitureImuFrequency::Frequency240 => 240u32,
            }),
    {
        match self {
            VitureImuFrequency::Frequency60 => 60,
            VitureImuFrequency::Frequency90 => 90,
            VitureImuFrequency::Frequency120 => 120,
            VitureImuFrequency::Frequency240 => 240,
        }
    }
}

/// Bytes that an orientation payload needs: three 4-byte values.
pub const IMU_PAYLOAD_LEN: usize = 12;

/// The unsigned 32-bit integer held big-endian in `s[at..at + 4]`.
pub open spec fn be_u32_at(s: Seq<u8>, at: int) -> u32 {
    (s[at] as int * 0x100_0000 + s[at + 1] as int * 0x1_0000 + s[at + 2] as int * 0x100
        + s[at + 3] as int) as u32
}

/// The sample an orientation payload carries: roll, pitch and yaw as
/// big-endian binary32 values, in that order; none for a payload shorter than
/// twelve bytes, which is malformed or partial.
pub open spec fn payload_sample(s: Seq<u8>) -> Option<EulerData> {
    if s.len() < IMU_PAYLOAD_LEN {
        None
    } else {
        Some(EulerData { roll: be_u32_at(s, 0), pitch: be_u32_at(s, 4), yaw: be_u32_at(s, 8) })
    }
}

fn read_be_u32(data: &[u8], at: usize) -> (r: u32)
    requires
        at + 4 <= data@.len(),
    ensures
        r == be_u32_at(data@, at as int),
{
    (data[at] as u32) * 0x100_0000 + (data[at + 1] as u32) * 0x1_0000 + (data[at + 2] as u32)
        * 0x100 + (data[at + 3] as u32)
}

/// Decodes the payload of one orientation callback. A payload shorter than
/// twelve bytes yields no sample; bytes past the twelfth are ignored.
pub fn decode_imu_payload(data: &[u8]) -> (r: Option<EulerData>)
    ensures
        r == payload_sample(data@),
{
    if data.len() < IMU_PAYLOAD_LEN {
        None
    } else {
        Some(
            EulerData {
                roll: read_be_u32(data, 0),
                pitch: read_be_u32(data, 4),
                yaw: read_be_u32(data, 8),
            },
        )
    }
}

} // verus!
