use oncaptions_backend::audio::capture::{
    find_host, first_channel, is_monitor, map_stream_error, plan_capture, select_device,
    DeviceCandidate, DeviceChoice, SampleFormatKind, SelectError, StreamErrorKind,
};
use oncaptions_backend::audio::enumerator::{
    order_cpal_devices, order_pulse_sources, CpalDescription, CpalDeviceEntry, PulseSource,
};
use oncaptions_backend::audio::{enumerate_devices, AudioStreamError};
use oncaptions_backend::config::AudioBackend;

#[test]
fn stream_errors_are_classified() {
    for k in [StreamErrorKind::DeviceNotAvailable, StreamErrorKind::DeviceChanged, StreamErrorKind::DeviceBusy] {
        assert!(matches!(map_stream_error(k, "whatever".into()), AudioStreamError::DeviceLost));
    }
    assert!(matches!(
        map_stream_error(StreamErrorKind::RealtimeDenied, "x".into()),
        AudioStreamError::RealtimeDenied
    ));
    assert!(matches!(map_stream_error(StreamErrorKind::Other, "buffer underrun".into()), AudioStreamError::Xrun));
    assert!(matches!(map_stream_error(StreamErrorKind::Other, "an overrun".into()), AudioStreamError::Xrun));
    assert!(matches!(map_stream_error(StreamErrorKind::Other, "xrun!".into()), AudioStreamError::Xrun));
    assert!(matches!(
        map_stream_error(StreamErrorKind::Other, "error: no target node available".into()),
        AudioStreamError::DeviceLost
    ));
    match map_stream_error(StreamErrorKind::Other, "broken pipe".into()) {
        AudioStreamError::Other(d) => assert_eq!(d, "broken pipe"),
        other => panic!("unexpected {other:?}"),
    }
}

#[test]
fn capture_is_planned_at_sixteen_kilohertz() {
    let p = plan_capture(48000, 2, SampleFormatKind::F32);
    assert_eq!(p.target_rate, 16000);
    assert_eq!(p.device_rate, 48000);
    assert_eq!(p.channels, 2);
    assert!(p.supported);
    let p = plan_capture(16000, 1, SampleFormatKind::I16);
    assert_eq!(p.target_rate, 16000);
    assert!(p.supported);
    let p = plan_capture(44100, 2, SampleFormatKind::Other);
    assert_eq!(p.target_rate, 16000);
    assert!(!p.supported);
}

#[test]
fn first_channel_takes_the_first_sample_of_each_frame() {
    let data = [1, 2, 3, 4, 5, 6, 7];
    assert_eq!(first_channel(&data, 2), vec![1, 3, 5, 7]);
    assert_eq!(first_channel(&data, 1), data.to_vec());
    assert_eq!(first_channel(&data, 3), vec![1, 4, 7]);
    let empty: [i16; 0] = [];
    assert!(first_channel(&empty, 2).is_empty());
}

fn cand(id: Option<&str>, input: bool, monitor: bool) -> DeviceCandidate {
    DeviceCandidate { id: id.map(String::from), supports_input: input, is_monitor: monitor }
}

#[test]
fn devices_are_selected_by_name() {
    let devs = vec![
        cand(Some("host:mic"), true, false),
        cand(Some("host:sink"), true, true),
        cand(Some("other:sink"), true, true),
    ];
    assert_eq!(select_device(&devs, AudioBackend::Alsa, Some("mic")).unwrap(), DeviceChoice::Listed(0));
    assert_eq!(select_device(&devs, AudioBackend::Alsa, Some("x:mic")).unwrap(), DeviceChoice::Listed(0));
    assert_eq!(select_device(&devs, AudioBackend::Alsa, Some("host:mic")).unwrap(), DeviceChoice::Listed(0));
    // On PipeWire a source that is not a monitor does not qualify.
    match select_device(&devs, AudioBackend::PipeWire, Some("mic")) {
        Err(e @ SelectError::NotFound(_)) => {
            assert_eq!(e.message().unwrap(), "device 'mic' not found or doesn't support input")
        }
        other => panic!("unexpected {other:?}"),
    }
    assert_eq!(select_device(&devs, AudioBackend::PipeWire, Some("sink")).unwrap(), DeviceChoice::Listed(1));
    let devs = vec![cand(None, true, true), cand(Some("mic"), true, false)];
    assert!(matches!(select_device(&devs, AudioBackend::Alsa, Some("mic")), Err(SelectError::IdUnreadable(0))));
    assert!(SelectError::IdUnreadable(0).message().is_none());
    let devs = vec![cand(Some("mic"), false, false)];
    assert!(matches!(select_device(&devs, AudioBackend::Alsa, Some("mic")), Err(SelectError::NotFound(_))));
}

#[test]
fn devices_are_selected_without_a_name() {
    let devs = vec![cand(Some("mic"), true, false), cand(Some("sink"), true, true)];
    assert_eq!(select_device(&devs, AudioBackend::PipeWire, None).unwrap(), DeviceChoice::Listed(1));
    assert_eq!(select_device(&devs, AudioBackend::Pulse, None).unwrap(), DeviceChoice::DefaultInput);
    let devs = vec![cand(Some("mic"), true, false)];
    assert_eq!(select_device(&devs, AudioBackend::PipeWire, None).unwrap(), DeviceChoice::DefaultInput);
}

#[test]
fn hosts_are_found_ignoring_ascii_case() {
    let names = vec!["ALSA".to_string(), "JACK".to_string(), "pipewire".to_string()];
    assert_eq!(find_host(&names, "PipeWire"), Some(2));
    assert_eq!(find_host(&names, "Pulse"), None);
    assert!(is_monitor(true, true));
    assert!(!is_monitor(true, false));
    assert!(!is_monitor(false, true));
}

fn src(name: Option<&str>, desc: Option<&str>, monitor: bool) -> PulseSource {
    PulseSource { name: name.map(String::from), description: desc.map(String::from), is_monitor: monitor }
}

#[test]
fn pulse_sources_list_monitors_last() {
    let srcs = vec![
        src(Some("alsa_output.pci.monitor"), Some("Monitor of Speakers"), true),
        src(Some("alsa_input.mic"), None, false),
        src(Some("bt.monitor"), None, true),
    ];
    let v = order_pulse_sources(&srcs).unwrap();
    let names: Vec<(&str, &str, bool)> =
        v.iter().map(|d| (d.inner_name.as_str(), d.display_name.as_str(), d.is_monitor)).collect();
    assert_eq!(
        names,
        vec![
            ("alsa_input.mic", "alsa_input.mic", false),
            ("alsa_output.pci", "Monitor of Speakers", true),
            ("bt", "bt.monitor", true),
        ]
    );
    let srcs = vec![src(Some("a"), None, false), src(None, None, false)];
    assert!(order_pulse_sources(&srcs).is_none());
}

fn entry(id: Option<&str>, name: &str, ext: Option<&str>, duplex: bool, input: bool) -> CpalDeviceEntry {
    CpalDeviceEntry {
        id: id.map(String::from),
        description: Some(CpalDescription {
            name: name.to_string(),
            extended_first: ext.map(String::from),
            duplex,
            supports_input: input,
        }),
    }
}

#[test]
fn pipewire_devices_list_default_first_and_monitors_last() {
    let es = vec![
        entry(Some("h:sink1"), "Sink 1", Some("Speakers"), true, true),
        entry(Some("h:mic"), "Mic", None, false, true),
        entry(None, "Broken", None, false, true),
        CpalDeviceEntry { id: Some("h:nodesc".into()), description: None },
        entry(Some("h:usb"), "USB", None, false, true),
    ];
    let v = order_cpal_devices(Some("h:usb".to_string()), &es);
    let names: Vec<(&str, &str, bool)> =
        v.iter().map(|d| (d.inner_name.as_str(), d.display_name.as_str(), d.is_monitor)).collect();
    assert_eq!(names, vec![("usb", "USB", false), ("mic", "Mic", false), ("sink1", "Speakers", true)]);
    let v = order_cpal_devices(None, &es);
    assert_eq!(v[0].inner_name, "mic");
    assert_eq!(v.len(), 3);
}

#[test]
fn enumeration_needs_a_pulse_listing_with_names() {
    let v = enumerate_devices(Some(vec![src(Some("a"), None, false)])).unwrap();
    assert_eq!(v[0].inner_name, "a");
    assert!(enumerate_devices(None).is_none());
    assert!(enumerate_devices(Some(vec![src(None, None, true)])).is_none());
    assert!(enumerate_devices(Some(vec![])).unwrap().is_empty());
}
