//! Target resolution, derivation, and volume-scale behaviour.
use dreamdeck::audio::{
    avg_volume, level_of_native, native_of_level, AppStream, AudioAction, AudioState, Device,
    DeviceKind, Prop,
};
use dreamdeck::binding::Binding;
use dreamdeck::outcome::{Fault, Outcome};
use dreamdeck::target::{EntityKind, Target};

fn device(index: u32, channels: Vec<u32>, mute: bool, name: Option<&str>) -> Device {
    Device { index, channels, mute, name: name.map(|s| s.to_string()) }
}

fn stream(index: u32, props: &[(&str, &str)], channels: Vec<u32>, mute: bool) -> AppStream {
    AppStream {
        index,
        props: props
            .iter()
            .map(|(k, v)| Prop { key: k.to_string(), value: v.to_string() })
            .collect(),
        channels,
        mute,
    }
}

fn state() -> AudioState {
    AudioState {
        sinks: vec![
            device(5, vec![0x8000, 0x8000], false, Some("speakers")),
            device(6, vec![0x4000], true, None),
        ],
        sources: vec![device(2, vec![0x2000], false, Some("mic"))],
        streams: vec![
            stream(30, &[("app_name", "Music")], vec![0x1000, 0x3000], false),
            stream(31, &[("app_name", "Game"), ("binary", "game.exe")], vec![0xffff], true),
        ],
        default_sink: 5,
        default_source: 2,
    }
}

#[test]
fn static_device_resolves_to_its_live_state() {
    let audio = state();
    let t = Target::StaticDevice(DeviceKind::Sink, 5);
    match t.resolve(&audio) {
        Outcome::Found(e) => {
            assert_eq!(e.kind, EntityKind::DeviceSink);
            assert_eq!(e.index, 5);
            assert_eq!(e.channels, vec![0x8000, 0x8000]);
            assert!(!e.mute);
            assert_eq!(e.name.as_deref(), Some("speakers"));
        }
        other => panic!("expected Found, got {:?}", other),
    }
}

#[test]
fn static_device_missing_is_failure_not_absence() {
    let audio = state();
    let t = Target::StaticDevice(DeviceKind::Sink, 99);
    assert_eq!(
        t.resolve(&audio),
        Outcome::Failure(Fault::MissingDevice(DeviceKind::Sink, 99))
    );
}

#[test]
fn property_match_takes_first_stream_in_enumeration_order() {
    let mut audio = state();
    audio.streams.push(stream(32, &[("app_name", "Music")], vec![7], false));
    let t = Target::PropertyMatch("app_name".to_string(), "Music".to_string());
    match t.resolve(&audio) {
        Outcome::Found(e) => {
            assert_eq!(e.kind, EntityKind::ApplicationStream);
            assert_eq!(e.index, 30);
            assert_eq!(e.name, None);
        }
        other => panic!("expected Found, got {:?}", other),
    }
}

#[test]
fn property_match_without_match_is_absence() {
    let audio = state();
    let t = Target::PropertyMatch("app_name".to_string(), "Firefox".to_string());
    assert_eq!(t.resolve(&audio), Outcome::NotFound);
}

#[test]
fn property_match_compares_values_exactly() {
    let audio = state();
    let t = Target::PropertyMatch("app_name".to_string(), "Mus".to_string());
    assert_eq!(t.resolve(&audio), Outcome::NotFound);
}

#[test]
fn first_valid_falls_through_on_absence() {
    let audio = state();
    let t = Target::FirstValid(vec![
        Target::PropertyMatch("app_name".to_string(), "Firefox".to_string()),
        Target::PropertyMatch("app_name".to_string(), "Game".to_string()),
        Target::StaticDevice(DeviceKind::Sink, 5),
    ]);
    match t.resolve(&audio) {
        Outcome::Found(e) => assert_eq!((e.kind, e.index), (EntityKind::ApplicationStream, 31)),
        other => panic!("expected Found, got {:?}", other),
    }
}

#[test]
fn first_valid_fails_fast_without_trying_later_children() {
    let audio = state();
    // The failing child comes before one that would resolve: the failure
    // must come out, not the later match.
    let t = Target::FirstValid(vec![
        Target::PropertyMatch("app_name".to_string(), "Firefox".to_string()),
        Target::StaticDevice(DeviceKind::Source, 77),
        Target::StaticDevice(DeviceKind::Sink, 5),
    ]);
    assert_eq!(
        t.resolve(&audio),
        Outcome::Failure(Fault::MissingDevice(DeviceKind::Source, 77))
    );
}

#[test]
fn first_valid_found_short_circuits() {
    let audio = state();
    let t = Target::FirstValid(vec![
        Target::StaticDevice(DeviceKind::Sink, 6),
        Target::StaticDevice(DeviceKind::Sink, 99),
    ]);
    match t.resolve(&audio) {
        Outcome::Found(e) => assert_eq!(e.index, 6),
        other => panic!("expected Found, got {:?}", other),
    }
}

#[test]
fn first_valid_of_all_absent_children_is_absence() {
    let audio = state();
    let t = Target::FirstValid(vec![
        Target::PropertyMatch("app_name".to_string(), "Firefox".to_string()),
        Target::PropertyMatch("binary".to_string(), "vlc".to_string()),
    ]);
    assert_eq!(t.resolve(&audio), Outcome::NotFound);
}

#[test]
fn first_valid_of_no_children_is_absence() {
    let audio = state();
    assert_eq!(Target::FirstValid(vec![]).resolve(&audio), Outcome::NotFound);
}

#[test]
fn derive_mute_keeps_the_target_of_any_binding_kind() {
    let t = Target::FirstValid(vec![
        Target::PropertyMatch("app_name".to_string(), "Music".to_string()),
        Target::StaticDevice(DeviceKind::Sink, 5),
    ]);
    let volume = Binding::volume(t.clone());
    let mute = Binding::mute(t.clone());
    let select = Binding::select(t.clone());
    for b in [&volume, &mute, &select] {
        match b.to_mute() {
            Binding::MuteToggle(derived) => assert_eq!(derived, t),
            other => panic!("expected MuteToggle, got {:?}", other),
        }
    }
    match select.to_volume() {
        Binding::VolumeControl(derived) => assert_eq!(derived, t),
        other => panic!("expected VolumeControl, got {:?}", other),
    }
}

#[test]
fn nested_composites_resolve_depth_first() {
    let audio = state();
    let t = Target::FirstValid(vec![
        Target::PropertyMatch("app_name".to_string(), "Firefox".to_string()),
        Target::FirstValid(vec![
            Target::PropertyMatch("binary".to_string(), "vlc".to_string()),
            Target::StaticDevice(DeviceKind::Sink, 6),
        ]),
        Target::StaticDevice(DeviceKind::Sink, 5),
    ]);
    match t.resolve(&audio) {
        Outcome::Found(e) => assert_eq!(e.index, 6),
        other => panic!("expected Found, got {:?}", other),
    }
    assert_eq!(t.clone(), t);
}

#[test]
fn volume_reads_the_channel_average() {
    let audio = state();
    let t = Target::PropertyMatch("app_name".to_string(), "Music".to_string());
    assert_eq!(t.volume(&audio), Outcome::Found(0x2000));
}

#[test]
fn avg_volume_exact_values() {
    assert_eq!(avg_volume(&vec![]), 0);
    assert_eq!(avg_volume(&vec![9]), 9);
    assert_eq!(avg_volume(&vec![1000, 2000]), 1500);
    assert_eq!(avg_volume(&vec![1, 2, 4]), 2);
}

#[test]
fn level_scale_exact_values() {
    assert_eq!(native_of_level(0), 0);
    assert_eq!(native_of_level(127), 0xffff);
    assert_eq!(native_of_level(64), 64 * 0xffff / 127);
    assert_eq!(level_of_native(0x8000), 63);
    assert_eq!(level_of_native(0), 0);
    assert_eq!(level_of_native(0xffff), 126);
    assert_eq!(level_of_native(u32::MAX), 127);
}

#[test]
fn volume_round_trip_loses_at_most_one_step() {
    for level in 0u8..=127 {
        let mut audio = state();
        let t = Target::StaticDevice(DeviceKind::Sink, 5);
        let act = match t.set_volume(&audio, level) {
            Outcome::Found(act) => act,
            other => panic!("expected Found, got {:?}", other),
        };
        audio.apply(&act);
        let read = match t.volume(&audio) {
            Outcome::Found(n) => level_of_native(n),
            other => panic!("expected Found, got {:?}", other),
        };
        assert!(
            read == level || read + 1 == level,
            "wrote {}, read back {}",
            level,
            read
        );
    }
}

#[test]
fn toggle_mute_inverts_the_current_flag() {
    let audio = state();
    let unmuted = Target::StaticDevice(DeviceKind::Source, 2);
    assert_eq!(
        unmuted.toggle_muted(&audio),
        Outcome::Found(AudioAction::SetDeviceMute(DeviceKind::Source, 2, true))
    );
    let muted = Target::StaticDevice(DeviceKind::Sink, 6);
    assert_eq!(
        muted.toggle_muted(&audio),
        Outcome::Found(AudioAction::SetDeviceMute(DeviceKind::Sink, 6, false))
    );
    let s = Target::PropertyMatch("app_name".to_string(), "Game".to_string());
    assert_eq!(s.toggle_muted(&audio), Outcome::Found(AudioAction::SetStreamMute(31, false)));
}

#[test]
fn selection_is_undefined_for_streams() {
    let audio = state();
    let t = Target::PropertyMatch("app_name".to_string(), "Music".to_string());
    assert_eq!(t.selected(&audio), Outcome::Failure(Fault::StreamSelection));
    assert_eq!(t.set_as_selected(&audio), Outcome::Failure(Fault::StreamSelection));
    assert_eq!(
        Fault::StreamSelection.message(),
        "application streams cannot be used for selection"
    );
}

#[test]
fn fault_messages_name_the_failure() {
    assert_eq!(
        Fault::MissingDevice(DeviceKind::Sink, 99).message(),
        "static configuration references a missing device"
    );
    assert_eq!(
        Fault::UnnamedDevice(DeviceKind::Sink, 6).message(),
        "device must have a name to be selected as default"
    );
}

#[test]
fn selection_needs_a_device_name() {
    let audio = state();
    let t = Target::StaticDevice(DeviceKind::Sink, 6);
    assert_eq!(
        t.set_as_selected(&audio),
        Outcome::Failure(Fault::UnnamedDevice(DeviceKind::Sink, 6))
    );
}

#[test]
fn selecting_a_named_device_changes_the_default() {
    let mut audio = state();
    audio.sinks.push(device(9, vec![1], false, Some("headphones")));
    audio.default_sink = 5;
    let t = Target::StaticDevice(DeviceKind::Sink, 9);
    assert_eq!(t.selected(&audio), Outcome::Found(false));
    let act = match t.set_as_selected(&audio) {
        Outcome::Found(act) => act,
        other => panic!("expected Found, got {:?}", other),
    };
    assert_eq!(
        act,
        AudioAction::SetDefaultDevice(DeviceKind::Sink, "headphones".to_string())
    );
    audio.apply(&act);
    assert_eq!(audio.default_sink, 9);
    assert_eq!(t.selected(&audio), Outcome::Found(true));
}
