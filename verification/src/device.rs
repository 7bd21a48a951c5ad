//! A PipeWire audio device: its identity, the configurations it supports,
//! and the streams that can be opened on it.

use vstd::prelude::*;

use crate::config::{
    BuildStreamError, DefaultStreamConfigError, DeviceDescription, DeviceDirection, DeviceId,
    DeviceIdError, DeviceNameError, HostId, SampleFormat, StreamConfig, SupportedBufferSize,
    SupportedStreamConfig, SupportedStreamConfigRange, SupportedStreamConfigsError,
};
use crate::decimal::{decimal, lemma_decimal_injective, push_decimal};
use crate::registry::{NodeInfo, NodeView};
use crate::stream::{is_input_plan, is_output_plan, new_input_plan, new_output_plan, StreamPlan};

verus! {

/// The sample formats every device reports: PipeWire converts between formats itself.
pub open spec fn advertised_formats() -> Seq<SampleFormat> {
    seq![
        SampleFormat::I8,
        SampleFormat::I16,
        SampleFormat::I32,
        SampleFormat::I64,
        SampleFormat::U8,
        SampleFormat::U16,
        SampleFormat::U32,
        SampleFormat::U64,
        SampleFormat::F32,
        SampleFormat::F64,
    ]
}

/// The channel counts every device reports.
pub open spec fn advertised_channels() -> Seq<u16> {
    seq![1u16, 2u16, 4u16, 6u16, 8u16]
}

/// The configuration range a device reports for `format` with `channels` channels.
pub open spec fn config_range(format: SampleFormat, channels: u16) -> SupportedStreamConfigRange {
    SupportedStreamConfigRange {
        channels,
        min_sample_rate: 8000,
        max_sample_rate: 192000,
        buffer_size: SupportedBufferSize::Unknown,
        sample_format: format,
    }
}

/// Every configuration range a device reports, format by format, and within
/// a format by channel count.
pub open spec fn supported_ranges() -> Seq<SupportedStreamConfigRange> {
    Seq::new(
        50,
        |i: int| config_range(advertised_formats()[i / 5], advertised_channels()[i % 5]),
    )
}

/// The configuration a device proposes by default: stereo 32-bit float at 48 kHz.
pub open spec fn default_config() -> SupportedStreamConfig {
    SupportedStreamConfig {
        channels: 2,
        sample_rate: 48000,
        buffer_size: SupportedBufferSize::Unknown,
        sample_format: SampleFormat::F32,
    }
}

/// The name that identifies the device of node `id` among PipeWire devices.
pub open spec fn device_id_name(id: u32) -> Seq<char> {
    "pipewire-node-"@ + decimal(id as nat)
}

/// An audio device: one PipeWire audio node.
#[derive(Clone, Debug)]
pub struct Device {
    node_info: NodeInfo,
}

impl View for Device {
    type V = NodeView;

    closed spec fn view(&self) -> NodeView {
        self.node_info@
    }
}

/// The configuration ranges a device supports for one direction, handed out one at a time.
#[derive(Clone, Debug)]
pub struct SupportedConfigs {
    configs: Vec<SupportedStreamConfigRange>,
    next_index: usize,
}

impl View for SupportedConfigs {
    type V = Seq<SupportedStreamConfigRange>;

    /// The ranges not handed out yet.
    closed spec fn view(&self) -> Seq<SupportedStreamConfigRange> {
        if self.next_index <= self.configs@.len() {
            self.configs@.skip(self.next_index as int)
        } else {
            Seq::empty()
        }
    }
}

impl SupportedConfigs {
    fn from_vec(configs: Vec<SupportedStreamConfigRange>) -> (r: SupportedConfigs)
        ensures
            r@ == configs@,
    {
        let r = SupportedConfigs { configs, next_index: 0 };
        assert(r.configs@.skip(0) =~= r.configs@);
        r
    }

    /// The next range, if any is left.
    pub fn next(&mut self) -> (r: Option<SupportedStreamConfigRange>)
        ensures
            match r {
                Some(c) => old(self)@.len() > 0 && c == old(self)@[0] && final(self)@ == old(
                    self,
                )@.drop_first(),
                None => old(self)@.len() == 0 && final(self)@ == old(self)@,
            },
    {
        if self.next_index < self.configs.len() {
            let c = self.configs[self.next_index];
            let ghost before = self.configs@.skip(self.next_index as int);
            self.next_index = self.next_index + 1;
            assert(self.configs@.skip(self.next_index as int) =~= before.drop_first());
            Some(c)
        } else {
            None
        }
    }

    /// Bounds on the number of ranges left: exactly that number, both ways.
    pub fn size_hint(&self) -> (r: (usize, Option<usize>))
        ensures
            r.0 == self@.len(),
            r.1 == Some(r.0),
    {
        if self.next_index <= self.configs.len() {
            let n = self.configs.len() - self.next_index;
            (n, Some(n))
        } else {
            (0, Some(0))
        }
    }
}

/// The configuration ranges a capture device supports.
#[derive(Clone, Debug)]
pub struct SupportedInputConfigs(pub SupportedConfigs);

/// The configuration ranges a playback device supports.
#[derive(Clone, Debug)]
pub struct SupportedOutputConfigs(pub SupportedConfigs);

impl View for SupportedInputConfigs {
    type V = Seq<SupportedStreamConfigRange>;

    open spec fn view(&self) -> Seq<SupportedStreamConfigRange> {
        self.0@
    }
}

impl View for SupportedOutputConfigs {
    type V = Seq<SupportedStreamConfigRange>;

    open spec fn view(&self) -> Seq<SupportedStreamConfigRange> {
        self.0@
    }
}

impl SupportedInputConfigs {
    /// The next range, if any is left.
    pub fn next(&mut self) -> (r: Option<SupportedStreamConfigRange>)
        ensures
            match r {
                Some(c) => old(self)@.len() > 0 && c == old(self)@[0] && final(self)@ == old(
                    self,
                )@.drop_first(),
                None => old(self)@.len() == 0 && final(self)@ == old(self)@,
            },
    {
        self.0.next()
    }

    /// Bounds on the number of ranges left: exactly that number, both ways.
    pub fn size_hint(&self) -> (r: (usize, Option<usize>))
        ensures
            r.0 == self@.len(),
            r.1 == Some(r.0),
    {
        self.0.size_hint()
    }
}

impl SupportedOutputConfigs {
    /// The next range, if any is left.
    pub fn next(&mut self) -> (r: Option<SupportedStreamConfigRange>)
        ensures
            match r {
                Some(c) => old(self)@.len() > 0 && c == old(self)@[0] && final(self)@ == old(
                    self,
                )@.drop_first(),
                None => old(self)@.len() == 0 && final(self)@ == old(self)@,
            },
    {
        self.0.next()
    }

    /// Bounds on the number of ranges left: exactly that number, both ways.
    pub fn size_hint(&self) -> (r: (usize, Option<usize>))
        ensures
            r.0 == self@.len(),
            r.1 == Some(r.0),
    {
        self.0.size_hint()
    }
}

/// Every configuration range a device reports, as a vector.
fn supported_range_vec() -> (r: Vec<SupportedStreamConfigRange>)
    ensures
        r@ == supported_ranges(),
{
    let formats: Vec<SampleFormat> = vec![
        SampleFormat::I8,
        SampleFormat::I16,
        SampleFormat::I32,
        SampleFormat::I64,
        SampleFormat::U8,
        SampleFormat::U16,
        SampleFormat::U32,
        SampleFormat::U64,
        SampleFormat::F32,
        SampleFormat::F64,
    ];
    let channel_counts: Vec<u16> = vec![1u16, 2, 4, 6, 8];
    assert(formats@ =~= advertised_formats());
    assert(channel_counts@ =~= advertised_channels());
    let mut configs: Vec<SupportedStreamConfigRange> = Vec::new();
    let mut f: usize = 0;
    while f < 10
        invariant
            formats@ == advertised_formats(),
            channel_counts@ == advertised_channels(),
            f <= 10,
            configs@.len() == f * 5,
            forall|j: int| 0 <= j < configs@.len() ==> #[trigger] configs@[j] == supported_ranges()[j],
        decreases 10 - f,
    {
        let format = formats[f];
        let mut c: usize = 0;
        while c < 5
            invariant
                formats@ == advertised_formats(),
                channel_counts@ == advertised_channels(),
                f < 10,
                c <= 5,
                format == advertised_formats()[f as int],
                configs@.len() == f * 5 + c,
                forall|j: int| 0 <= j < configs@.len() ==> #[trigger] configs@[j] == supported_ranges()[j],
            decreases 5 - c,
        {
            let channels = channel_counts[c];
            let ghost j = (f * 5 + c) as int;
            assert(j / 5 == f as int && j % 5 == c as int);
            configs.push(SupportedStreamConfigRange {
                channels,
                min_sample_rate: 8000,
                max_sample_rate: 192000,
                buffer_size: SupportedBufferSize::Unknown,
                sample_format: format,
            });
            c = c + 1;
        }
        f = f + 1;
    }
    assert(configs@ =~= supported_ranges());
    configs
}

impl Device {
    /// The device for a node.
    pub fn from_node_info(node_info: NodeInfo) -> (d: Device)
        ensures
            d@ == node_info@,
    {
        Device { node_info }
    }

    /// The identifier of this device: the PipeWire host and `pipewire-node-`
    /// followed by the node's id.
    pub fn id(&self) -> (r: Result<DeviceId, DeviceIdError>)
        ensures
            r matches Ok(id) && id.0 == HostId::PipeWire && id.1@ == device_id_name(self@.id),
    {
        let mut name = String::from_str("pipewire-node-");
        push_decimal(&mut name, self.node_info.id);
        Ok(DeviceId(HostId::PipeWire, name))
    }

    /// The name of this device: its node's description.
    pub fn name(&self) -> (r: Result<String, DeviceNameError>)
        ensures
            r matches Ok(n) && n@ == self@.description,
    {
        Ok(self.node_info.description.clone())
    }

    /// A description of this device: its node's description and its direction.
    pub fn description(&self) -> (r: Result<DeviceDescription, DeviceNameError>)
        ensures
            r matches Ok(d) && d.name@ == self@.description && d.direction == (if self@.is_input {
                DeviceDirection::Input
            } else {
                DeviceDirection::Output
            }),
    {
        let direction = if self.node_info.is_input {
            DeviceDirection::Input
        } else {
            DeviceDirection::Output
        };
        Ok(DeviceDescription { name: self.node_info.description.clone(), direction })
    }

    /// The configuration ranges this device supports for capture; the device
    /// is not available for capture unless it is a capture node.
    pub fn supported_input_configs(&self) -> (r: Result<
        SupportedInputConfigs,
        SupportedStreamConfigsError,
    >)
        ensures
            self@.is_input ==> (r matches Ok(c) && c@ == supported_ranges()),
            !self@.is_input ==> r matches Err(SupportedStreamConfigsError::DeviceNotAvailable),
    {
        if !self.node_info.is_input {
            return Err(SupportedStreamConfigsError::DeviceNotAvailable);
        }
        Ok(SupportedInputConfigs(SupportedConfigs::from_vec(supported_range_vec())))
    }

    /// The configuration ranges this device supports for playback; the device
    /// is not available for playback unless it is a playback node.
    pub fn supported_output_configs(&self) -> (r: Result<
        SupportedOutputConfigs,
        SupportedStreamConfigsError,
    >)
        ensures
            self@.is_output ==> (r matches Ok(c) && c@ == supported_ranges()),
            !self@.is_output ==> r matches Err(SupportedStreamConfigsError::DeviceNotAvailable),
    {
        if !self.node_info.is_output {
            return Err(SupportedStreamConfigsError::DeviceNotAvailable);
        }
        Ok(SupportedOutputConfigs(SupportedConfigs::from_vec(supported_range_vec())))
    }

    /// The configuration this device proposes for capture.
    pub fn default_input_config(&self) -> (r: Result<SupportedStreamConfig, DefaultStreamConfigError>)
        ensures
            self@.is_input ==> r == Ok::<SupportedStreamConfig, DefaultStreamConfigError>(
                default_config(),
            ),
            !self@.is_input ==> r matches Err(DefaultStreamConfigError::DeviceNotAvailable),
    {
        if !self.node_info.is_input {
            return Err(DefaultStreamConfigError::DeviceNotAvailable);
        }
        Ok(
            SupportedStreamConfig {
                channels: 2,
                sample_rate: 48000,
                buffer_size: SupportedBufferSize::Unknown,
                sample_format: SampleFormat::F32,
            },
        )
    }

    /// The configuration this device proposes for playback.
    pub fn default_output_config(&self) -> (r: Result<SupportedStreamConfig, DefaultStreamConfigError>)
        ensures
            self@.is_output ==> r == Ok::<SupportedStreamConfig, DefaultStreamConfigError>(
                default_config(),
            ),
            !self@.is_output ==> r matches Err(DefaultStreamConfigError::DeviceNotAvailable),
    {
        if !self.node_info.is_output {
            return Err(DefaultStreamConfigError::DeviceNotAvailable);
        }
        Ok(
            SupportedStreamConfig {
                channels: 2,
                sample_rate: 48000,
                buffer_size: SupportedBufferSize::Unknown,
                sample_format: SampleFormat::F32,
            },
        )
    }

    /// The capture stream to open on this device with `config` and
    /// `sample_format`; the device is not available unless it is a capture node.
    pub fn build_input_stream_raw(&self, config: &StreamConfig, sample_format: SampleFormat) -> (r:
        Result<StreamPlan, BuildStreamError>)
        ensures
            !self@.is_input ==> r matches Err(BuildStreamError::DeviceNotAvailable),
            self@.is_input ==> (r matches Ok(plan) && is_input_plan(plan, self@.id, *config, sample_format)),
    {
        if !self.node_info.is_input {
            return Err(BuildStreamError::DeviceNotAvailable);
        }
        Ok(new_input_plan(self.node_info.id, config, sample_format))
    }

    /// The playback stream to open on this device with `config` and
    /// `sample_format`; the device is not available unless it is a playback node.
    pub fn build_output_stream_raw(&self, config: &StreamConfig, sample_format: SampleFormat) -> (r:
        Result<StreamPlan, BuildStreamError>)
        ensures
            !self@.is_output ==> r matches Err(BuildStreamError::DeviceNotAvailable),
            self@.is_output ==> (r matches Ok(plan) && is_output_plan(plan, self@.id, *config, sample_format)),
    {
        if !self.node_info.is_output {
            return Err(BuildStreamError::DeviceNotAvailable);
        }
        Ok(new_output_plan(self.node_info.id, config, sample_format))
    }
}

/// Devices of different nodes have different identifiers.
pub proof fn lemma_device_ids_distinct(a: u32, b: u32)
    requires
        a != b,
    ensures
        device_id_name(a) != device_id_name(b),
{
    let p = "pipewire-node-"@;
    if device_id_name(a) == device_id_name(b) {
        assert(device_id_name(a).skip(p.len() as int) =~= decimal(a as nat));
        assert(device_id_name(b).skip(p.len() as int) =~= decimal(b as nat));
        lemma_decimal_injective(a as nat, b as nat);
    }
}

/// The configuration a device proposes by default lies within one of the
/// ranges it reports as supported.
pub proof fn lemma_default_config_supported()
    ensures
        exists|i: int|
            0 <= i < supported_ranges().len() && {
                let r = #[trigger] supported_ranges()[i];
                &&& r.channels == default_config().channels
                &&& r.sample_format == default_config().sample_format
                &&& r.min_sample_rate <= default_config().sample_rate <= r.max_sample_rate
                &&& r.buffer_size == default_config().buffer_size
            },
{
    let i = 41int;
    assert(i / 5 == 8 && i % 5 == 1);
    let r = supported_ranges()[i];
    assert(r == config_range(SampleFormat::F32, 2));
}

/// Whether a device reports ranges for `format`: every format PipeWire can
/// convert from, namely `I8`, `I16`, `I32`, `I64`, `U8`, `U16`, `U32`, `U64`,
/// `F32` and `F64`.
pub open spec fn reported_format(format: SampleFormat) -> bool {
    format == SampleFormat::I8 || format == SampleFormat::I16 || format == SampleFormat::I32
        || format == SampleFormat::I64 || format == SampleFormat::U8 || format == SampleFormat::U16
        || format == SampleFormat::U32 || format == SampleFormat::U64 || format == SampleFormat::F32
        || format == SampleFormat::F64
}

/// Whether a device reports ranges with `channels` channels: 1, 2, 4, 6 or 8.
pub open spec fn reported_channels(channels: u16) -> bool {
    channels == 1 || channels == 2 || channels == 4 || channels == 6 || channels == 8
}

proof fn lemma_range_at(i: int)
    requires
        0 <= i < 50,
    ensures
        reported_format(supported_ranges()[i].sample_format),
        reported_channels(supported_ranges()[i].channels),
        supported_ranges()[i].min_sample_rate == 8000,
        supported_ranges()[i].max_sample_rate == 192000,
        supported_ranges()[i].buffer_size == SupportedBufferSize::Unknown,
{
    let q = i / 5;
    let m = i % 5;
    assert(0 <= q < 10 && 0 <= m < 5);
    let f = advertised_formats()[q];
    let c = advertised_channels()[m];
    assert(reported_format(f)) by {
        if q == 0 {} else if q == 1 {} else if q == 2 {} else if q == 3 {} else if q == 4 {}
        else if q == 5 {} else if q == 6 {} else if q == 7 {} else if q == 8 {} else {}
    }
    assert(reported_channels(c)) by {
        if m == 0 {} else if m == 1 {} else if m == 2 {} else if m == 3 {} else {}
    }
}

proof fn lemma_range_of(format: SampleFormat, channels: u16) -> (i: int)
    requires
        reported_format(format),
        reported_channels(channels),
    ensures
        0 <= i < 50,
        supported_ranges()[i].sample_format == format,
        supported_ranges()[i].channels == channels,
{
    let q: int = match format {
        SampleFormat::I8 => 0,
        SampleFormat::I16 => 1,
        SampleFormat::I32 => 2,
        SampleFormat::I64 => 3,
        SampleFormat::U8 => 4,
        SampleFormat::U16 => 5,
        SampleFormat::U32 => 6,
        SampleFormat::U64 => 7,
        SampleFormat::F32 => 8,
        _ => 9,
    };
    let m: int = if channels == 1 {
        0
    } else if channels == 2 {
        1
    } else if channels == 4 {
        2
    } else if channels == 6 {
        3
    } else {
        4
    };
    let i = q * 5 + m;
    assert(i / 5 == q && i % 5 == m);
    i
}

/// A device reports 50 ranges, one for each reported format and channel
/// count; each spans 8 kHz to 192 kHz with an unknown buffer size, and no
/// range has a format or channel count outside those reported.
pub proof fn lemma_supported_ranges_cover()
    ensures
        supported_ranges().len() == 50,
        forall|i: int|
            0 <= i < 50 ==> {
                let r = #[trigger] supported_ranges()[i];
                &&& reported_format(r.sample_format)
                &&& reported_channels(r.channels)
                &&& r.min_sample_rate == 8000
                &&& r.max_sample_rate == 192000
                &&& r.buffer_size == SupportedBufferSize::Unknown
            },
        forall|format: SampleFormat, channels: u16|
            reported_format(format) && reported_channels(channels) ==> exists|i: int|
                0 <= i < 50 && (#[trigger] supported_ranges()[i]).sample_format == format
                    && supported_ranges()[i].channels == channels,
{
    assert forall|i: int| 0 <= i < 50 implies {
        let r = #[trigger] supported_ranges()[i];
        &&& reported_format(r.sample_format)
        &&& reported_channels(r.channels)
        &&& r.min_sample_rate == 8000
        &&& r.max_sample_rate == 192000
        &&& r.buffer_size == SupportedBufferSize::Unknown
    } by {
        lemma_range_at(i);
    }
    assert forall|format: SampleFormat, channels: u16|
        reported_format(format) && reported_channels(channels) implies exists|i: int|
            0 <= i < 50 && (#[trigger] supported_ranges()[i]).sample_format == format
                && supported_ranges()[i].channels == channels by {
        let i = lemma_range_of(format, channels);
    }
}

} // verus!
