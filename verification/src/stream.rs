//! What a PipeWire stream is opened with: its name, its properties, its audio
//! format, and how buffers and errors are interpreted while it runs.

use vstd::prelude::*;

use crate::config::{
    BackendSpecificError, BuildStreamError, DeviceDirection, PauseStreamError, PlayStreamError,
    SampleFormat, StreamConfig, StreamError,
};
use crate::decimal::{decimal, to_decimal};

verus! {

/// The PipeWire sample formats this backend opens streams with.
#[derive(Clone, Copy, Debug, PartialEq, Eq, Structural)]
pub enum AudioFormat {
    S8,
    S16LE,
    S32LE,
    U8,
    U16LE,
    U32LE,
    F32LE,
    F64LE,
}

/// The raw audio parameters a stream is connected with.
#[derive(Clone, Copy, Debug, PartialEq, Eq, Structural)]
pub struct AudioInfo {
    pub format: AudioFormat,
    pub rate: u32,
    pub channels: u32,
}

/// The PipeWire format that stores samples of `format`, if there is one.
pub open spec fn pw_format_of(format: SampleFormat) -> Option<AudioFormat> {
    match format {
        SampleFormat::I8 => Some(AudioFormat::S8),
        SampleFormat::I16 => Some(AudioFormat::S16LE),
        SampleFormat::I32 => Some(AudioFormat::S32LE),
        SampleFormat::U8 => Some(AudioFormat::U8),
        SampleFormat::U16 => Some(AudioFormat::U16LE),
        SampleFormat::U32 => Some(AudioFormat::U32LE),
        SampleFormat::F32 => Some(AudioFormat::F32LE),
        SampleFormat::F64 => Some(AudioFormat::F64LE),
        _ => None,
    }
}

/// Whether `r` is the audio parameters for `config` and `format`: the
/// matching PipeWire format with the configuration's rate and channel count,
/// or, when no PipeWire format matches, the error that the configuration is
/// not supported.
pub open spec fn audio_param_result(
    r: Result<AudioInfo, BuildStreamError>,
    config: StreamConfig,
    format: SampleFormat,
) -> bool {
    match pw_format_of(format) {
        Some(f) => r == Ok::<AudioInfo, BuildStreamError>(
            AudioInfo { format: f, rate: config.sample_rate, channels: config.channels as u32 },
        ),
        None => r matches Err(BuildStreamError::StreamConfigNotSupported),
    }
}

/// Converts a sample format into the PipeWire format that stores it.
pub fn sample_format_to_pw_format(format: SampleFormat) -> (r: Result<AudioFormat, BuildStreamError>)
    ensures
        match pw_format_of(format) {
            Some(f) => r == Ok::<AudioFormat, BuildStreamError>(f),
            None => r matches Err(BuildStreamError::StreamConfigNotSupported),
        },
{
    match format {
        SampleFormat::I8 => Ok(AudioFormat::S8),
        SampleFormat::I16 => Ok(AudioFormat::S16LE),
        SampleFormat::I32 => Ok(AudioFormat::S32LE),
        SampleFormat::I64 => Err(BuildStreamError::StreamConfigNotSupported),
        SampleFormat::U8 => Ok(AudioFormat::U8),
        SampleFormat::U16 => Ok(AudioFormat::U16LE),
        SampleFormat::U32 => Ok(AudioFormat::U32LE),
        SampleFormat::U64 => Err(BuildStreamError::StreamConfigNotSupported),
        SampleFormat::F32 => Ok(AudioFormat::F32LE),
        SampleFormat::F64 => Ok(AudioFormat::F64LE),
        _ => Err(BuildStreamError::StreamConfigNotSupported),
    }
}

/// The raw audio parameters a stream with `config` and `sample_format` is connected with.
pub fn build_audio_param(config: &StreamConfig, sample_format: SampleFormat) -> (r: Result<
    AudioInfo,
    BuildStreamError,
>)
    ensures
        audio_param_result(r, *config, sample_format),
{
    let format = match sample_format_to_pw_format(sample_format) {
        Ok(f) => f,
        Err(e) => {
            return Err(e);
        },
    };
    Ok(AudioInfo { format, rate: config.sample_rate, channels: config.channels as u32 })
}

/// Whether a playback stream carries DSD over PCM: DoP uses 176.4 kHz (DSD64)
/// or 352.8 kHz (DSD128) with 24- or 32-bit samples.
pub open spec fn is_dop(sample_rate: u32, format: SampleFormat) -> bool {
    (sample_rate == 176400 || sample_rate == 352800) && (format == SampleFormat::I24 || format
        == SampleFormat::I32)
}

/// Decides whether a playback stream carries DSD over PCM.
pub fn detect_dop(sample_rate: u32, format: SampleFormat) -> (r: bool)
    ensures
        r == is_dop(sample_rate, format),
{
    let rate_matches = sample_rate == 176400 || sample_rate == 352800;
    let format_matches = match format {
        SampleFormat::I24 | SampleFormat::I32 => true,
        _ => false,
    };
    rate_matches && format_matches
}

/// The key of a stream property: one of PipeWire's well-known media keys, or a key given by name.
#[derive(Clone, Debug)]
pub enum PropertyKey {
    MediaType,
    MediaCategory,
    MediaRole,
    Named(String),
}

/// The mathematical content of a [`PropertyKey`].
pub ghost enum PropertyKeyView {
    MediaType,
    MediaCategory,
    MediaRole,
    Named(Seq<char>),
}

impl View for PropertyKey {
    type V = PropertyKeyView;

    open spec fn view(&self) -> PropertyKeyView {
        match self {
            PropertyKey::MediaType => PropertyKeyView::MediaType,
            PropertyKey::MediaCategory => PropertyKeyView::MediaCategory,
            PropertyKey::MediaRole => PropertyKeyView::MediaRole,
            PropertyKey::Named(s) => PropertyKeyView::Named(s@),
        }
    }
}

/// One property of a stream.
#[derive(Clone, Debug)]
pub struct StreamProperty {
    pub key: PropertyKey,
    pub value: String,
}

/// The content of a list of stream properties.
pub open spec fn properties_view(ps: Seq<StreamProperty>) -> Seq<(PropertyKeyView, Seq<char>)> {
    ps.map_values(|p: StreamProperty| (p.key@, p.value@))
}

/// The media properties every stream has; `category` is `Capture` or `Playback`.
pub open spec fn media_properties(category: Seq<char>) -> Seq<(PropertyKeyView, Seq<char>)> {
    seq![
        (PropertyKeyView::MediaType, "Audio"@),
        (PropertyKeyView::MediaCategory, category),
        (PropertyKeyView::MediaRole, "Music"@),
    ]
}

/// The properties that keep PipeWire from resampling or remixing a DoP stream at `sample_rate`.
pub open spec fn dop_properties(sample_rate: u32) -> Seq<(PropertyKeyView, Seq<char>)> {
    seq![
        (PropertyKeyView::Named("node.rate"@), decimal(sample_rate as nat)),
        (PropertyKeyView::Named("resample.disable"@), "true"@),
        (PropertyKeyView::Named("node.dont-remix"@), "true"@),
        (PropertyKeyView::Named("stream.dont-remix"@), "true"@),
        (PropertyKeyView::Named("node.want-driver"@), "true"@),
    ]
}

/// The properties of a playback stream.
pub open spec fn output_properties(sample_rate: u32, format: SampleFormat) -> Seq<
    (PropertyKeyView, Seq<char>),
> {
    if is_dop(sample_rate, format) {
        media_properties("Playback"@) + dop_properties(sample_rate)
    } else {
        media_properties("Playback"@)
    }
}

/// The name of a playback stream.
pub open spec fn output_stream_name(sample_rate: u32, format: SampleFormat) -> Seq<char> {
    if is_dop(sample_rate, format) {
        "cpal-dop-output"@
    } else {
        "cpal-output"@
    }
}

/// Everything a stream is created and connected with: the node it targets,
/// its direction, name and properties, the sample format its callback sees,
/// and its audio parameters (or why there are none).
#[derive(Debug)]
pub struct StreamPlan {
    pub node_id: u32,
    pub direction: DeviceDirection,
    pub name: String,
    pub properties: Vec<StreamProperty>,
    pub sample_format: SampleFormat,
    pub audio: Result<AudioInfo, BuildStreamError>,
}

/// Whether `plan` captures from node `node_id` with `config` and `format`.
pub open spec fn is_input_plan(plan: StreamPlan, node_id: u32, config: StreamConfig, format: SampleFormat) -> bool {
    &&& plan.node_id == node_id
    &&& plan.direction == DeviceDirection::Input
    &&& plan.name@ == "cpal-input"@
    &&& properties_view(plan.properties@) == media_properties("Capture"@)
    &&& plan.sample_format == format
    &&& audio_param_result(plan.audio, config, format)
}

/// Whether `plan` plays back to node `node_id` with `config` and `format`.
pub open spec fn is_output_plan(plan: StreamPlan, node_id: u32, config: StreamConfig, format: SampleFormat) -> bool {
    &&& plan.node_id == node_id
    &&& plan.direction == DeviceDirection::Output
    &&& plan.name@ == output_stream_name(config.sample_rate, format)
    &&& properties_view(plan.properties@) == output_properties(config.sample_rate, format)
    &&& plan.sample_format == format
    &&& audio_param_result(plan.audio, config, format)
}

fn property(key: PropertyKey, value: &str) -> (p: StreamProperty)
    ensures
        p.key@ == key@,
        p.value@ == value@,
{
    StreamProperty { key, value: String::from_str(value) }
}

fn named(key: &str, value: &str) -> (p: StreamProperty)
    ensures
        p.key@ == PropertyKeyView::Named(key@),
        p.value@ == value@,
{
    StreamProperty { key: PropertyKey::Named(String::from_str(key)), value: String::from_str(value) }
}

fn push_media_properties(ps: &mut Vec<StreamProperty>, category: &str)
    ensures
        properties_view(final(ps)@) == properties_view(old(ps)@) + media_properties(category@),
{
    let ghost before = properties_view(ps@);
    ps.push(property(PropertyKey::MediaType, "Audio"));
    ps.push(property(PropertyKey::MediaCategory, category));
    ps.push(property(PropertyKey::MediaRole, "Music"));
    assert(properties_view(ps@) =~= before + media_properties(category@));
}

/// The stream that captures from node `node_id` with `config` and `sample_format`.
pub fn new_input_plan(node_id: u32, config: &StreamConfig, sample_format: SampleFormat) -> (plan:
    StreamPlan)
    ensures
        is_input_plan(plan, node_id, *config, sample_format),
{
    let mut properties: Vec<StreamProperty> = Vec::new();
    push_media_properties(&mut properties, "Capture");
    assert(properties_view(Seq::<StreamProperty>::empty()) =~= Seq::<(PropertyKeyView, Seq<char>)>::empty());
    assert(properties_view(properties@) =~= media_properties("Capture"@));
    StreamPlan {
        node_id,
        direction: DeviceDirection::Input,
        name: String::from_str("cpal-input"),
        properties,
        sample_format,
        audio: build_audio_param(config, sample_format),
    }
}

/// The stream that plays back to node `node_id` with `config` and
/// `sample_format`; a DoP stream gets its own name and properties that keep
/// PipeWire from touching its samples.
pub fn new_output_plan(node_id: u32, config: &StreamConfig, sample_format: SampleFormat) -> (plan:
    StreamPlan)
    ensures
        is_output_plan(plan, node_id, *config, sample_format),
{
    let sample_rate_hz = config.sample_rate;
    let dop = detect_dop(sample_rate_hz, sample_format);
    let mut properties: Vec<StreamProperty> = Vec::new();
    assert(properties_view(properties@) =~= Seq::<(PropertyKeyView, Seq<char>)>::empty());
    push_media_properties(&mut properties, "Playback");
    assert(properties_view(properties@) =~= media_properties("Playback"@));
    if dop {
        let ghost base = properties_view(properties@);
        properties.push(StreamProperty {
            key: PropertyKey::Named(String::from_str("node.rate")),
            value: to_decimal(sample_rate_hz),
        });
        properties.push(named("resample.disable", "true"));
        properties.push(named("node.dont-remix", "true"));
        properties.push(named("stream.dont-remix", "true"));
        properties.push(named("node.want-driver", "true"));
        assert(properties_view(properties@) =~= base + dop_properties(sample_rate_hz));
    }
    let name = if dop {
        String::from_str("cpal-dop-output")
    } else {
        String::from_str("cpal-output")
    };
    StreamPlan {
        node_id,
        direction: DeviceDirection::Output,
        name,
        properties,
        sample_format,
        audio: build_audio_param(config, sample_format),
    }
}


/// The number of bytes one sample of `format` occupies in a buffer; 24-bit
/// samples are held in 4 bytes.
pub open spec fn sample_size(format: SampleFormat) -> nat {
    match format {
        SampleFormat::I8 | SampleFormat::U8 => 1,
        SampleFormat::I16 | SampleFormat::U16 => 2,
        SampleFormat::I64 | SampleFormat::U64 | SampleFormat::F64 => 8,
        _ => 4,
    }
}

/// The number of whole samples of `format` that a buffer of `byte_len` bytes holds.
pub open spec fn samples_in(byte_len: nat, format: SampleFormat) -> nat {
    byte_len / sample_size(format)
}

/// The number of samples of `format` that a buffer of `byte_len` bytes is
/// handed to a stream's callback as: the whole samples it holds.
pub fn sample_count(byte_len: usize, format: SampleFormat) -> (n: usize)
    ensures
        n == samples_in(byte_len as nat, format),
{
    let size: usize = match format {
        SampleFormat::I8 | SampleFormat::U8 => 1,
        SampleFormat::I16 | SampleFormat::U16 => 2,
        SampleFormat::I64 | SampleFormat::U64 | SampleFormat::F64 => 8,
        _ => 4,
    };
    byte_len / size
}

/// The samples handed to a callback lie within the buffer, and only a
/// partial sample at its end is left out.
pub proof fn lemma_samples_fit_buffer(byte_len: nat, format: SampleFormat)
    ensures
        samples_in(byte_len, format) * sample_size(format) <= byte_len,
        byte_len < (samples_in(byte_len, format) + 1) * sample_size(format),
{
    let d = sample_size(format);
    assert(d > 0);
    assert((byte_len / d) * d <= byte_len && byte_len < (byte_len / d + 1) * d) by (nonlinear_arith)
        requires
            d > 0,
    ;
}

/// The number of bytes of a dequeued buffer that a stream's callback gets:
/// none when the buffer has no data planes, its first chunk is empty, or the
/// plane is not mapped; otherwise the chunk's size.
pub open spec fn buffer_bytes(n_datas: nat, chunk_size: u32, mapped_len: Option<usize>) -> Option<
    nat,
> {
    if n_datas == 0 || chunk_size == 0 || mapped_len is None {
        None
    } else {
        Some(chunk_size as nat)
    }
}

/// Decides how many bytes of a dequeued buffer a stream's callback is run
/// on, from the number of data planes, the size of the first plane's chunk and
/// the length of its mapped memory, if it is mapped. The chunk must fit in the
/// mapped memory.
pub fn mapped_bytes(n_datas: usize, chunk_size: u32, mapped_len: Option<usize>) -> (r: Option<usize>)
    requires
        n_datas > 0 && chunk_size > 0 && mapped_len is Some ==> chunk_size <= mapped_len->0,
    ensures
        match r {
            Some(n) => buffer_bytes(n_datas as nat, chunk_size, mapped_len) == Some(n as nat),
            None => buffer_bytes(n_datas as nat, chunk_size, mapped_len) is None,
        },
        r matches Some(n) ==> n <= mapped_len->0,
{
    if n_datas == 0 {
        return None;
    }
    let size = chunk_size as usize;
    if size == 0 {
        return None;
    }
    match mapped_len {
        Some(_) => Some(size),
        None => None,
    }
}

/// What a stream does when PipeWire asks it to process a cycle.
#[derive(Clone, Copy, Debug, PartialEq, Eq, Structural)]
pub enum ProcessAction {
    /// Leave the cycle alone: the stream is paused or was never started.
    Skip,
    /// Take a buffer from PipeWire's queue.
    Dequeue,
}

/// The action of a process cycle of a stream that is playing (or not).
pub open spec fn process_action_of(playing: bool) -> ProcessAction {
    if playing {
        ProcessAction::Dequeue
    } else {
        ProcessAction::Skip
    }
}

/// Decides what a process cycle does: only a playing stream takes a buffer.
pub fn process_action(playing: bool) -> (a: ProcessAction)
    ensures
        a == process_action_of(playing),
{
    if playing {
        ProcessAction::Dequeue
    } else {
        ProcessAction::Skip
    }
}

/// A buffer PipeWire hands out: its number of data planes, the size of the
/// first plane's chunk, and the length of that plane's mapped memory, if mapped.
pub ghost struct BufferShape {
    pub n_datas: nat,
    pub chunk_size: u32,
    pub mapped_len: Option<usize>,
}

/// The number of bytes a stream's callback is run on in a process cycle, if
/// it runs at all: the stream must be playing, a buffer must be dequeued, and
/// that buffer must have data for the callback.
pub open spec fn callback_bytes(playing: bool, dequeued: Option<BufferShape>) -> Option<nat> {
    match process_action_of(playing) {
        ProcessAction::Skip => None,
        ProcessAction::Dequeue => match dequeued {
            None => None,
            Some(b) => buffer_bytes(b.n_datas, b.chunk_size, b.mapped_len),
        },
    }
}

/// A stream's callback runs only while the stream plays, on a dequeued buffer
/// with a data plane, a non-empty chunk and mapped memory, and then on exactly
/// the chunk's bytes.
pub proof fn lemma_callback_only_when_playing_with_data(playing: bool, dequeued: Option<BufferShape>)
    ensures
        callback_bytes(playing, dequeued) matches Some(n) ==> {
            &&& playing
            &&& dequeued matches Some(b)
            &&& b.n_datas > 0
            &&& b.chunk_size > 0
            &&& b.mapped_len is Some
            &&& n == b.chunk_size as nat
        },
        !playing ==> callback_bytes(playing, dequeued) is None,
{
}

/// The chunk size and offset a playback stream writes back after its
/// callback filled `bytes` bytes: the bytes written, from the start.
pub fn output_chunk(bytes: usize) -> (r: (u32, u32))
    requires
        bytes <= u32::MAX,
    ensures
        r.0 == bytes,
        r.1 == 0,
{
    (bytes as u32, 0)
}

/// The error a stream reports when PipeWire moves it to a new state: that the
/// device is not available, when the new state is an error state; nothing otherwise.
pub fn state_changed_error(new_state_is_error: bool) -> (r: Option<StreamError>)
    ensures
        new_state_is_error ==> r matches Some(StreamError::DeviceNotAvailable),
        !new_state_is_error ==> r is None,
{
    if new_state_is_error {
        Some(StreamError::DeviceNotAvailable)
    } else {
        None
    }
}

/// The step of stream setup or control that PipeWire refused.
#[derive(Clone, Copy, Debug, PartialEq, Eq, Structural)]
pub enum StreamFailure {
    Create,
    RegisterListener,
    SerializeFormat,
    Connect,
    Activate,
    Deactivate,
}

/// The words that begin the description of a failure at `step`.
pub open spec fn failure_prefix(step: StreamFailure) -> Seq<char> {
    match step {
        StreamFailure::Create => "Failed to create PipeWire stream: "@,
        StreamFailure::RegisterListener => "Failed to register stream listener: "@,
        StreamFailure::SerializeFormat => "Failed to serialize audio format: "@,
        StreamFailure::Connect => "Failed to connect stream: "@,
        StreamFailure::Activate => "Failed to activate PipeWire stream: "@,
        StreamFailure::Deactivate => "Failed to deactivate PipeWire stream: "@,
    }
}

/// The error that describes a failure at `step`, with PipeWire's own words `detail`.
pub fn backend_error(step: StreamFailure, detail: &str) -> (e: BackendSpecificError)
    ensures
        e.description@ == failure_prefix(step) + detail@,
{
    let prefix = match step {
        StreamFailure::Create => "Failed to create PipeWire stream: ",
        StreamFailure::RegisterListener => "Failed to register stream listener: ",
        StreamFailure::SerializeFormat => "Failed to serialize audio format: ",
        StreamFailure::Connect => "Failed to connect stream: ",
        StreamFailure::Activate => "Failed to activate PipeWire stream: ",
        StreamFailure::Deactivate => "Failed to deactivate PipeWire stream: ",
    };
    let mut description = String::from_str(prefix);
    description.append(detail);
    BackendSpecificError { description }
}

/// The error of building a stream that failed at `step`.
pub fn build_stream_error(step: StreamFailure, detail: &str) -> (e: BuildStreamError)
    ensures
        e matches BuildStreamError::BackendSpecific { err } && err.description@ == failure_prefix(
            step,
        ) + detail@,
{
    BuildStreamError::BackendSpecific { err: backend_error(step, detail) }
}

/// The error of starting a stream that PipeWire would not activate.
pub fn play_error(detail: &str) -> (e: PlayStreamError)
    ensures
        e matches PlayStreamError::BackendSpecific { err } && err.description@ == failure_prefix(
            StreamFailure::Activate,
        ) + detail@,
{
    PlayStreamError::BackendSpecific { err: backend_error(StreamFailure::Activate, detail) }
}

/// The error of pausing a stream that PipeWire would not deactivate.
pub fn pause_error(detail: &str) -> (e: PauseStreamError)
    ensures
        e matches PauseStreamError::BackendSpecific { err } && err.description@ == failure_prefix(
            StreamFailure::Deactivate,
        ) + detail@,
{
    PauseStreamError::BackendSpecific { err: backend_error(StreamFailure::Deactivate, detail) }
}

/// A playback stream is DSD over PCM only at 176.4 kHz or 352.8 kHz with 24-
/// or 32-bit integer samples. Such a stream is named `cpal-dop-output` and has,
/// after the three media properties, `node.rate` set to its rate and
/// `resample.disable`, `node.dont-remix`, `stream.dont-remix` and
/// `node.want-driver` set to `true`. Any other playback stream is named
/// `cpal-output` and has exactly the three media properties.
pub proof fn lemma_dop_streams(sample_rate: u32, format: SampleFormat)
    ensures
        ({
            let plain = seq![
                (PropertyKeyView::MediaType, "Audio"@),
                (PropertyKeyView::MediaCategory, "Playback"@),
                (PropertyKeyView::MediaRole, "Music"@),
            ];
            &&& (sample_rate == 176400 || sample_rate == 352800) && (format == SampleFormat::I24
                || format == SampleFormat::I32) ==> {
                &&& output_stream_name(sample_rate, format) == "cpal-dop-output"@
                &&& output_properties(sample_rate, format) == plain + seq![
                    (PropertyKeyView::Named("node.rate"@), decimal(sample_rate as nat)),
                    (PropertyKeyView::Named("resample.disable"@), "true"@),
                    (PropertyKeyView::Named("node.dont-remix"@), "true"@),
                    (PropertyKeyView::Named("stream.dont-remix"@), "true"@),
                    (PropertyKeyView::Named("node.want-driver"@), "true"@),
                ]
            }
            &&& !((sample_rate == 176400 || sample_rate == 352800) && (format == SampleFormat::I24
                || format == SampleFormat::I32)) ==> {
                &&& output_stream_name(sample_rate, format) == "cpal-output"@
                &&& output_properties(sample_rate, format) == plain
            }
        }),
{
}

/// Capture streams are named `cpal-input` and have the media properties
/// `Audio`, `Capture` and `Music`, whatever their configuration.
pub proof fn lemma_input_stream_properties()
    ensures
        media_properties("Capture"@) == seq![
            (PropertyKeyView::MediaType, "Audio"@),
            (PropertyKeyView::MediaCategory, "Capture"@),
            (PropertyKeyView::MediaRole, "Music"@),
        ],
{
}

/// Whether samples of `format` are floating point.
pub open spec fn is_float_format(format: SampleFormat) -> bool {
    format == SampleFormat::F32 || format == SampleFormat::F64
}

/// Whether samples of `format` are signed integers.
pub open spec fn is_signed_format(format: SampleFormat) -> bool {
    format == SampleFormat::I8 || format == SampleFormat::I16 || format == SampleFormat::I24
        || format == SampleFormat::I32 || format == SampleFormat::I64
}

/// The number of bytes a sample of the PipeWire format `f` occupies.
pub open spec fn pw_sample_bytes(f: AudioFormat) -> nat {
    match f {
        AudioFormat::S8 | AudioFormat::U8 => 1,
        AudioFormat::S16LE | AudioFormat::U16LE => 2,
        AudioFormat::S32LE | AudioFormat::U32LE | AudioFormat::F32LE => 4,
        AudioFormat::F64LE => 8,
    }
}

/// Whether the PipeWire format `f` holds floating-point samples.
pub open spec fn pw_is_float(f: AudioFormat) -> bool {
    f == AudioFormat::F32LE || f == AudioFormat::F64LE
}

/// Whether the PipeWire format `f` holds signed integer samples.
pub open spec fn pw_is_signed(f: AudioFormat) -> bool {
    f == AudioFormat::S8 || f == AudioFormat::S16LE || f == AudioFormat::S32LE
}

/// The audio parameters of a stream carry the configuration's own rate and
/// channel count, whatever they are, and a PipeWire format of the same
/// sample width, signedness and kind (integer or float) as the requested
/// format. They exist for every format but the 64-bit integer and 24-bit
/// formats; for those the configuration is not supported.
pub proof fn lemma_audio_param_faithful(
    r: Result<AudioInfo, BuildStreamError>,
    config: StreamConfig,
    format: SampleFormat,
)
    requires
        audio_param_result(r, config, format),
    ensures
        r matches Ok(info) ==> {
            &&& info.rate == config.sample_rate
            &&& info.channels == config.channels
            &&& pw_sample_bytes(info.format) == sample_size(format)
            &&& pw_is_float(info.format) == is_float_format(format)
            &&& pw_is_signed(info.format) == is_signed_format(format)
        },
        r is Ok <==> (format != SampleFormat::I64 && format != SampleFormat::U64 && format
            != SampleFormat::I24 && format != SampleFormat::U24),
        r is Err ==> r matches Err(BuildStreamError::StreamConfigNotSupported),
{
}

/// The number of samples a buffer is handed over as is its byte length
/// divided by the width of a sample: 1 byte for `I8` and `U8`, 2 for `I16`
/// and `U16`, 4 for `I24`, `U24`, `I32`, `U32` and `F32`, 8 for `I64`,
/// `U64` and `F64`.
pub proof fn lemma_sample_count_by_width(byte_len: nat, format: SampleFormat)
    ensures
        format == SampleFormat::I8 || format == SampleFormat::U8 ==> samples_in(byte_len, format)
            == byte_len,
        format == SampleFormat::I16 || format == SampleFormat::U16 ==> samples_in(byte_len, format)
            == byte_len / 2,
        format == SampleFormat::I24 || format == SampleFormat::U24 || format == SampleFormat::I32
            || format == SampleFormat::U32 || format == SampleFormat::F32 ==> samples_in(
            byte_len,
            format,
        ) == byte_len / 4,
        format == SampleFormat::I64 || format == SampleFormat::U64 || format == SampleFormat::F64
            ==> samples_in(byte_len, format) == byte_len / 8,
{
}

} // verus!
