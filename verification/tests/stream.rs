use cpal_pipewire::config::StreamError;
use cpal_pipewire::stream::{output_chunk, process_action, state_changed_error, ProcessAction};
use cpal_pipewire::config::{BufferSize, BuildStreamError, PauseStreamError, PlayStreamError, SampleFormat, StreamConfig};
use cpal_pipewire::stream::{
    backend_error, build_audio_param, build_stream_error, detect_dop, mapped_bytes, pause_error,
    play_error, sample_count, sample_format_to_pw_format, AudioFormat, AudioInfo, StreamFailure,
};

#[test]
fn pipewire_formats_of_sample_formats() {
    let cases = [
        (SampleFormat::I8, AudioFormat::S8),
        (SampleFormat::I16, AudioFormat::S16LE),
        (SampleFormat::I32, AudioFormat::S32LE),
        (SampleFormat::U8, AudioFormat::U8),
        (SampleFormat::U16, AudioFormat::U16LE),
        (SampleFormat::U32, AudioFormat::U32LE),
        (SampleFormat::F32, AudioFormat::F32LE),
        (SampleFormat::F64, AudioFormat::F64LE),
    ];
    for (s, a) in cases {
        assert_eq!(sample_format_to_pw_format(s).unwrap(), a);
    }
}

#[test]
fn unsupported_sample_formats() {
    for s in [SampleFormat::I64, SampleFormat::U64, SampleFormat::I24, SampleFormat::U24] {
        assert!(matches!(sample_format_to_pw_format(s), Err(BuildStreamError::StreamConfigNotSupported)));
    }
}

#[test]
fn audio_param_carries_rate_and_channels() {
    let c = StreamConfig { channels: 4, sample_rate: 96000, buffer_size: BufferSize::Fixed(256) };
    assert_eq!(
        build_audio_param(&c, SampleFormat::U16).unwrap(),
        AudioInfo { format: AudioFormat::U16LE, rate: 96000, channels: 4 }
    );
    assert!(matches!(build_audio_param(&c, SampleFormat::I64), Err(BuildStreamError::StreamConfigNotSupported)));
}

#[test]
fn dop_detection() {
    assert!(detect_dop(176400, SampleFormat::I24));
    assert!(detect_dop(352800, SampleFormat::I32));
    assert!(!detect_dop(352800, SampleFormat::I16));
    assert!(!detect_dop(44100, SampleFormat::I32));
}

#[test]
fn sample_counts_by_format() {
    assert_eq!(sample_count(1024, SampleFormat::I8), 1024);
    assert_eq!(sample_count(1024, SampleFormat::U16), 512);
    assert_eq!(sample_count(1023, SampleFormat::I16), 511);
    assert_eq!(sample_count(1024, SampleFormat::F32), 256);
    assert_eq!(sample_count(1030, SampleFormat::U32), 257);
    assert_eq!(sample_count(1024, SampleFormat::F64), 128);
    assert_eq!(sample_count(15, SampleFormat::I64), 1);
    assert_eq!(sample_count(12, SampleFormat::I24), 3);
    assert_eq!(sample_count(14, SampleFormat::U24), 3);
    assert_eq!(sample_count(0, SampleFormat::F32), 0);
}

#[test]
fn buffer_bytes_decisions() {
    assert_eq!(mapped_bytes(1, 4096, Some(8192)), Some(4096));
    assert_eq!(mapped_bytes(2, 16, Some(16)), Some(16));
    assert_eq!(mapped_bytes(0, 4096, Some(8192)), None);
    assert_eq!(mapped_bytes(1, 0, Some(8192)), None);
    assert_eq!(mapped_bytes(1, 4096, None), None);
}

#[test]
fn failure_descriptions() {
    assert_eq!(
        backend_error(StreamFailure::Create, "no memory").description,
        "Failed to create PipeWire stream: no memory"
    );
    assert_eq!(
        backend_error(StreamFailure::RegisterListener, "x").description,
        "Failed to register stream listener: x"
    );
    assert_eq!(
        backend_error(StreamFailure::SerializeFormat, "Io").description,
        "Failed to serialize audio format: Io"
    );
    match build_stream_error(StreamFailure::Connect, "refused") {
        BuildStreamError::BackendSpecific { err } => {
            assert_eq!(err.description, "Failed to connect stream: refused")
        }
        _ => panic!("wrong error"),
    }
    match play_error("busy") {
        PlayStreamError::BackendSpecific { err } => {
            assert_eq!(err.description, "Failed to activate PipeWire stream: busy")
        }
        _ => panic!("wrong error"),
    }
    match pause_error("gone") {
        PauseStreamError::BackendSpecific { err } => {
            assert_eq!(err.description, "Failed to deactivate PipeWire stream: gone")
        }
        _ => panic!("wrong error"),
    }
}

#[test]
fn process_cycles_dequeue_only_while_playing() {
    assert_eq!(process_action(true), ProcessAction::Dequeue);
    assert_eq!(process_action(false), ProcessAction::Skip);
}

#[test]
fn playback_chunk_written_after_callback() {
    assert_eq!(output_chunk(4096), (4096, 0));
    assert_eq!(output_chunk(0), (0, 0));
}

#[test]
fn error_state_reports_device_not_available() {
    assert!(matches!(state_changed_error(true), Some(StreamError::DeviceNotAvailable)));
    assert!(state_changed_error(false).is_none());
}
