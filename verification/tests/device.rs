use cpal_pipewire::config::{
    BufferSize, BuildStreamError, DefaultStreamConfigError, DeviceDirection, HostId,
    SampleFormat, StreamConfig, SupportedBufferSize, SupportedStreamConfigsError,
};
use cpal_pipewire::device::Device;
use cpal_pipewire::registry::NodeInfo;
use cpal_pipewire::stream::{AudioFormat, AudioInfo, PropertyKey};

fn device(id: u32, is_input: bool) -> Device {
    Device::from_node_info(NodeInfo {
        id,
        name: "node".to_string(),
        description: "A device".to_string(),
        media_class: if is_input { "Audio/Source" } else { "Audio/Sink" }.to_string(),
        is_input,
        is_output: !is_input,
    })
}

fn config(rate: u32, channels: u16) -> StreamConfig {
    StreamConfig { channels, sample_rate: rate, buffer_size: BufferSize::Default }
}

fn keys(plan: &cpal_pipewire::stream::StreamPlan) -> Vec<(String, String)> {
    plan.properties
        .iter()
        .map(|p| {
            let k = match &p.key {
                PropertyKey::MediaType => "<media.type>".to_string(),
                PropertyKey::MediaCategory => "<media.category>".to_string(),
                PropertyKey::MediaRole => "<media.role>".to_string(),
                PropertyKey::Named(n) => n.clone(),
            };
            (k, p.value.clone())
        })
        .collect()
}

#[test]
fn device_id_is_host_and_node_number() {
    let d = device(42, false);
    let id = d.id().unwrap();
    assert_eq!(id.0, HostId::PipeWire);
    assert_eq!(id.1, "pipewire-node-42");
}

#[test]
fn name_and_description_come_from_node() {
    let d = device(1, true);
    assert_eq!(d.name().unwrap(), "A device");
    let desc = d.description().unwrap();
    assert_eq!(desc.name, "A device");
    assert_eq!(desc.direction, DeviceDirection::Input);
    assert_eq!(device(2, false).description().unwrap().direction, DeviceDirection::Output);
}

#[test]
fn input_device_lists_fifty_ranges() {
    let d = device(1, true);
    let mut configs = d.supported_input_configs().unwrap();
    assert_eq!(configs.size_hint(), (50, Some(50)));
    let first = configs.next().unwrap();
    assert_eq!(first.channels, 1);
    assert_eq!(first.sample_format, SampleFormat::I8);
    assert_eq!(first.min_sample_rate, 8000);
    assert_eq!(first.max_sample_rate, 192000);
    assert_eq!(first.buffer_size, SupportedBufferSize::Unknown);
    assert_eq!(configs.size_hint(), (49, Some(49)));
    let mut all = vec![first];
    while let Some(c) = configs.next() {
        all.push(c);
    }
    assert_eq!(all.len(), 50);
    assert_eq!(all[5].sample_format, SampleFormat::I16);
    assert_eq!(all[5].channels, 1);
    assert_eq!(all[49].sample_format, SampleFormat::F64);
    assert_eq!(all[49].channels, 8);
    assert_eq!(configs.size_hint(), (0, Some(0)));
    assert!(configs.next().is_none());
}

#[test]
fn output_device_lists_same_ranges() {
    let d = device(1, false);
    let mut out = d.supported_output_configs().unwrap();
    let mut n = 0;
    let channels = [1u16, 2, 4, 6, 8];
    while let Some(c) = out.next() {
        assert_eq!(c.channels, channels[n % 5]);
        n += 1;
    }
    assert_eq!(n, 50);
}

#[test]
fn wrong_direction_is_not_available() {
    let input = device(1, true);
    let output = device(2, false);
    assert!(matches!(
        input.supported_output_configs(),
        Err(SupportedStreamConfigsError::DeviceNotAvailable)
    ));
    assert!(matches!(
        output.supported_input_configs(),
        Err(SupportedStreamConfigsError::DeviceNotAvailable)
    ));
    assert!(matches!(input.default_output_config(), Err(DefaultStreamConfigError::DeviceNotAvailable)));
    assert!(matches!(output.default_input_config(), Err(DefaultStreamConfigError::DeviceNotAvailable)));
    let c = config(48000, 2);
    assert!(matches!(
        input.build_output_stream_raw(&c, SampleFormat::F32),
        Err(BuildStreamError::DeviceNotAvailable)
    ));
    assert!(matches!(
        output.build_input_stream_raw(&c, SampleFormat::F32),
        Err(BuildStreamError::DeviceNotAvailable)
    ));
}

#[test]
fn default_config_is_stereo_float_48k() {
    for d in [device(1, true), device(2, false)] {
        let c = if d.description().unwrap().direction == DeviceDirection::Input {
            d.default_input_config().unwrap()
        } else {
            d.default_output_config().unwrap()
        };
        assert_eq!(c.channels, 2);
        assert_eq!(c.sample_rate, 48000);
        assert_eq!(c.sample_format, SampleFormat::F32);
        assert_eq!(c.buffer_size, SupportedBufferSize::Unknown);
    }
}

#[test]
fn default_config_is_within_supported_ranges() {
    let d = device(1, true);
    let def = d.default_input_config().unwrap();
    let mut configs = d.supported_input_configs().unwrap();
    let mut found = false;
    while let Some(r) = configs.next() {
        if r.channels == def.channels
            && r.sample_format == def.sample_format
            && r.min_sample_rate <= def.sample_rate
            && def.sample_rate <= r.max_sample_rate
        {
            found = true;
        }
    }
    assert!(found);
}

#[test]
fn input_stream_plan() {
    let d = device(17, true);
    let plan = d.build_input_stream_raw(&config(44100, 2), SampleFormat::I16).unwrap();
    assert_eq!(plan.node_id, 17);
    assert_eq!(plan.direction, DeviceDirection::Input);
    assert_eq!(plan.name, "cpal-input");
    assert_eq!(plan.sample_format, SampleFormat::I16);
    assert_eq!(
        keys(&plan),
        vec![
            ("<media.type>".to_string(), "Audio".to_string()),
            ("<media.category>".to_string(), "Capture".to_string()),
            ("<media.role>".to_string(), "Music".to_string()),
        ]
    );
    assert_eq!(
        plan.audio.unwrap(),
        AudioInfo { format: AudioFormat::S16LE, rate: 44100, channels: 2 }
    );
}

#[test]
fn output_stream_plan_plain() {
    let d = device(3, false);
    let plan = d.build_output_stream_raw(&config(48000, 6), SampleFormat::F32).unwrap();
    assert_eq!(plan.direction, DeviceDirection::Output);
    assert_eq!(plan.name, "cpal-output");
    assert_eq!(keys(&plan).len(), 3);
    assert_eq!(keys(&plan)[1].1, "Playback");
    assert_eq!(plan.audio.unwrap(), AudioInfo { format: AudioFormat::F32LE, rate: 48000, channels: 6 });
}

#[test]
fn output_stream_plan_dop() {
    let d = device(3, false);
    let plan = d.build_output_stream_raw(&config(176400, 2), SampleFormat::I32).unwrap();
    assert_eq!(plan.name, "cpal-dop-output");
    let k = keys(&plan);
    assert_eq!(k.len(), 8);
    assert_eq!(k[3], ("node.rate".to_string(), "176400".to_string()));
    assert_eq!(k[4], ("resample.disable".to_string(), "true".to_string()));
    assert_eq!(k[5], ("node.dont-remix".to_string(), "true".to_string()));
    assert_eq!(k[6], ("stream.dont-remix".to_string(), "true".to_string()));
    assert_eq!(k[7], ("node.want-driver".to_string(), "true".to_string()));
    assert_eq!(plan.audio.unwrap().format, AudioFormat::S32LE);
}

#[test]
fn dop_with_24_bit_samples_has_no_pipewire_format() {
    let d = device(3, false);
    let plan = d.build_output_stream_raw(&config(352800, 2), SampleFormat::I24).unwrap();
    assert_eq!(plan.name, "cpal-dop-output");
    assert_eq!(keys(&plan)[3].1, "352800");
    assert!(matches!(plan.audio, Err(BuildStreamError::StreamConfigNotSupported)));
}

#[test]
fn dop_needs_both_rate_and_format() {
    let d = device(3, false);
    let plan = d.build_output_stream_raw(&config(176400, 2), SampleFormat::F32).unwrap();
    assert_eq!(plan.name, "cpal-output");
    let plan = d.build_output_stream_raw(&config(192000, 2), SampleFormat::I32).unwrap();
    assert_eq!(plan.name, "cpal-output");
    assert_eq!(keys(&plan).len(), 3);
}

#[test]
fn devices_of_different_nodes_have_different_ids() {
    let a = device(1, true).id().unwrap().1;
    let b = device(11, true).id().unwrap().1;
    let c = device(111, false).id().unwrap().1;
    assert_ne!(a, b);
    assert_ne!(b, c);
    assert_eq!(c, "pipewire-node-111");
}
