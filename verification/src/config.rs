//! Audio stream configuration types shared by devices and streams.

use vstd::prelude::*;

verus! {

/// The format in which audio samples are stored.
#[derive(Clone, Copy, Debug, PartialEq, Eq, Structural)]
pub enum SampleFormat {
    I8,
    I16,
    I24,
    I32,
    I64,
    U8,
    U16,
    U24,
    U32,
    U64,
    F32,
    F64,
}

/// The buffer sizes that a device supports.
#[derive(Clone, Copy, Debug, PartialEq, Eq, Structural)]
pub enum SupportedBufferSize {
    Range { min: u32, max: u32 },
    Unknown,
}

/// The buffer size that a stream asks for.
#[derive(Clone, Copy, Debug, PartialEq, Eq, Structural)]
pub enum BufferSize {
    Default,
    Fixed(u32),
}

/// A range of stream configurations that a device supports.
#[derive(Clone, Copy, Debug, PartialEq, Eq, Structural)]
pub struct SupportedStreamConfigRange {
    pub channels: u16,
    pub min_sample_rate: u32,
    pub max_sample_rate: u32,
    pub buffer_size: SupportedBufferSize,
    pub sample_format: SampleFormat,
}

/// One stream configuration that a device supports.
#[derive(Clone, Copy, Debug, PartialEq, Eq, Structural)]
pub struct SupportedStreamConfig {
    pub channels: u16,
    pub sample_rate: u32,
    pub buffer_size: SupportedBufferSize,
    pub sample_format: SampleFormat,
}

/// The configuration a stream is opened with.
#[derive(Clone, Copy, Debug, PartialEq, Eq, Structural)]
pub struct StreamConfig {
    pub channels: u16,
    pub sample_rate: u32,
    pub buffer_size: BufferSize,
}

/// Whether a device captures or plays back audio.
#[derive(Clone, Copy, Debug, PartialEq, Eq, Structural)]
pub enum DeviceDirection {
    Input,
    Output,
}

/// The audio host a device belongs to.
#[derive(Clone, Copy, Debug, PartialEq, Eq, Structural)]
pub enum HostId {
    PipeWire,
}

/// A stable identifier of a device: its host and a name unique within that host.
#[derive(Clone, Debug)]
pub struct DeviceId(pub HostId, pub String);

/// A human-readable description of a device.
#[derive(Clone, Debug)]
pub struct DeviceDescription {
    pub name: String,
    pub direction: DeviceDirection,
}

/// An error that only this backend produces, described in words.
#[derive(Clone, Debug)]
pub struct BackendSpecificError {
    pub description: String,
}

/// Why the stream configurations of a device could not be listed.
#[derive(Clone, Debug)]
pub enum SupportedStreamConfigsError {
    DeviceNotAvailable,
    BackendSpecific { err: BackendSpecificError },
}

/// Why the default stream configuration of a device could not be given.
#[derive(Clone, Debug)]
pub enum DefaultStreamConfigError {
    DeviceNotAvailable,
    BackendSpecific { err: BackendSpecificError },
}

/// Why a stream could not be built.
#[derive(Clone, Debug)]
pub enum BuildStreamError {
    DeviceNotAvailable,
    StreamConfigNotSupported,
    BackendSpecific { err: BackendSpecificError },
}

/// Why a stream could not be started.
#[derive(Clone, Debug)]
pub enum PlayStreamError {
    DeviceNotAvailable,
    BackendSpecific { err: BackendSpecificError },
}

/// Why a stream could not be paused.
#[derive(Clone, Debug)]
pub enum PauseStreamError {
    DeviceNotAvailable,
    BackendSpecific { err: BackendSpecificError },
}

/// An error reported while a stream runs.
#[derive(Clone, Debug)]
pub enum StreamError {
    DeviceNotAvailable,
    BackendSpecific { err: BackendSpecificError },
}

/// Why the name of a device could not be given.
#[derive(Clone, Debug)]
pub enum DeviceNameError {
    BackendSpecific { err: BackendSpecificError },
}

/// Why the identifier of a device could not be given.
#[derive(Clone, Debug)]
pub enum DeviceIdError {
    BackendSpecific { err: BackendSpecificError },
}

} // verus!
