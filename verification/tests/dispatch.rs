//! Deck-level dispatch: wire decoding, flushing, and end-to-end flows.
use dreamdeck::audio::{AppStream, AudioAction, AudioState, Device, DeviceKind, Prop};
use dreamdeck::binding::{Binding, DispatchError};
use dreamdeck::deck::{BindingTable, Deck, Msg, BTN_DOWN, BTN_UP, KNOB_UPDATE};
use dreamdeck::outcome::Fault;
use dreamdeck::target::Target;

fn device(index: u32, channels: Vec<u32>, mute: bool, name: Option<&str>) -> Device {
    Device { index, channels, mute, name: name.map(|s| s.to_string()) }
}

fn stream(index: u32, props: &[(&str, &str)], channels: Vec<u32>, mute: bool) -> AppStream {
    AppStream {
        index,
        props: props
            .iter()
            .map(|(k, v)| Prop { key: k.to_string(), value: v.to_string() })
            .collect(),
        channels,
        mute,
    }
}

fn msg(opcode: u8, control: u8, value: u8) -> Msg {
    Msg { opcode, control, value }
}

#[test]
fn half_volume_sink_flushes_rounded_level() {
    // Control 11 bound to the volume of static sink 5, whose live volume is
    // 50%: the flush shows level 63.
    let audio = AudioState {
        sinks: vec![device(5, vec![0x8000, 0x8000], false, Some("speakers"))],
        sources: vec![],
        streams: vec![],
        default_sink: 5,
        default_source: 0,
    };
    let mut table = BindingTable::new();
    table.set(11, Binding::volume(Target::StaticDevice(DeviceKind::Sink, 5)));
    let deck = Deck::new(table);
    let out = deck.flush_values_to_board(&audio).unwrap();
    assert_eq!(out, vec![msg(KNOB_UPDATE, 11, 63)]);
    assert_eq!(out[0].bytes(), [0xBA, 11, 63]);
}

#[test]
fn absent_stream_flushes_zero() {
    // Control 13 bound to a property match no stream satisfies: the flush
    // shows a zero level, silently.
    let audio = AudioState {
        sinks: vec![],
        sources: vec![],
        streams: vec![stream(30, &[("app_name", "Music")], vec![0x4000], false)],
        default_sink: 0,
        default_source: 0,
    };
    let mut table = BindingTable::new();
    table.set(
        13,
        Binding::volume(Target::PropertyMatch("app_name".to_string(), "Firefox".to_string())),
    );
    let deck = Deck::new(table);
    let out = deck.flush_values_to_board(&audio).unwrap();
    assert_eq!(out, vec![msg(KNOB_UPDATE, 13, 0)]);
}

#[test]
fn unbound_knob_is_reset_without_mutation() {
    // An inbound knob turn on an unbound index: one corrective reset
    // message goes out and no audio mutation happens.
    let audio = AudioState {
        sinks: vec![],
        sources: vec![],
        streams: vec![],
        default_sink: 0,
        default_source: 0,
    };
    let deck = Deck::new(BindingTable::new());
    let resp = deck.handle_midi_message(&[0xBA, 7, 100], &audio).unwrap();
    assert_eq!(resp.actions, vec![]);
    assert_eq!(resp.outbound, vec![msg(KNOB_UPDATE, 7, 0)]);
}

#[test]
fn release_on_mute_binding_mutes_the_unmuted_source() {
    // A button release on a mute binding over an unmuted source: the mute
    // write goes out with `true`.
    let audio = AudioState {
        sinks: vec![],
        sources: vec![device(2, vec![0x2000], false, Some("mic"))],
        streams: vec![],
        default_sink: 0,
        default_source: 2,
    };
    let mut table = BindingTable::new();
    table.set(34, Binding::mute(Target::StaticDevice(DeviceKind::Source, 2)));
    let deck = Deck::new(table);
    let resp = deck.handle_midi_message(&[0x8A, 34, 0], &audio).unwrap();
    assert_eq!(resp.actions, vec![AudioAction::SetDeviceMute(DeviceKind::Source, 2, true)]);
    assert_eq!(resp.outbound, vec![]);
}

#[test]
fn select_binding_on_a_stream_fails() {
    // A default-select binding whose target resolves to an application
    // stream: the operation fails, it never silently succeeds.
    let audio = AudioState {
        sinks: vec![],
        sources: vec![],
        streams: vec![stream(30, &[("app_name", "Music")], vec![1], false)],
        default_sink: 0,
        default_source: 0,
    };
    let mut table = BindingTable::new();
    table.set(
        32,
        Binding::select(Target::PropertyMatch("app_name".to_string(), "Music".to_string())),
    );
    let deck = Deck::new(table);
    assert_eq!(
        deck.btn_press(32, &audio),
        Err(DispatchError::Failed(Fault::StreamSelection))
    );
}

#[test]
fn flush_twice_with_no_change_is_identical() {
    let audio = AudioState {
        sinks: vec![device(5, vec![0x8000], false, Some("speakers"))],
        sources: vec![device(2, vec![0x2000], true, Some("mic"))],
        streams: vec![stream(30, &[("app_name", "Music")], vec![0x4000], false)],
        default_sink: 5,
        default_source: 2,
    };
    let mut table = BindingTable::new();
    table.set(11, Binding::volume(Target::StaticDevice(DeviceKind::Sink, 5)));
    table.set(
        15,
        Binding::volume(Target::PropertyMatch("app_name".to_string(), "Music".to_string())),
    );
    table.set(32, Binding::select(Target::StaticDevice(DeviceKind::Sink, 5)));
    table.set(34, Binding::mute(Target::StaticDevice(DeviceKind::Source, 2)));
    let deck = Deck::new(table);
    let first = deck.flush_values_to_board(&audio).unwrap();
    let second = deck.flush_values_to_board(&audio).unwrap();
    assert_eq!(first, second);
}

#[test]
fn flush_renders_each_binding_kind_in_index_order() {
    let audio = AudioState {
        sinks: vec![device(5, vec![0x8000], false, Some("speakers"))],
        sources: vec![device(2, vec![0x2000], true, Some("mic"))],
        streams: vec![],
        default_sink: 5,
        default_source: 2,
    };
    let mut table = BindingTable::new();
    table.set(34, Binding::mute(Target::StaticDevice(DeviceKind::Source, 2)));
    table.set(11, Binding::volume(Target::StaticDevice(DeviceKind::Sink, 5)));
    table.set(32, Binding::select(Target::StaticDevice(DeviceKind::Sink, 5)));
    let deck = Deck::new(table);
    let out = deck.flush_values_to_board(&audio).unwrap();
    assert_eq!(
        out,
        vec![msg(KNOB_UPDATE, 11, 63), msg(BTN_UP, 32, 1), msg(BTN_UP, 34, 1)]
    );
}

#[test]
fn flush_aborts_on_the_first_failure() {
    let audio = AudioState {
        sinks: vec![device(5, vec![0x8000], false, None)],
        sources: vec![],
        streams: vec![],
        default_sink: 5,
        default_source: 0,
    };
    let mut table = BindingTable::new();
    table.set(11, Binding::volume(Target::StaticDevice(DeviceKind::Sink, 5)));
    table.set(12, Binding::volume(Target::StaticDevice(DeviceKind::Sink, 99)));
    let deck = Deck::new(table);
    assert_eq!(
        deck.flush_values_to_board(&audio),
        Err(Fault::MissingDevice(DeviceKind::Sink, 99))
    );
}

#[test]
fn flush_of_an_empty_table_sends_nothing() {
    let audio = AudioState {
        sinks: vec![],
        sources: vec![],
        streams: vec![],
        default_sink: 0,
        default_source: 0,
    };
    let deck = Deck::new(BindingTable::new());
    assert_eq!(deck.flush_values_to_board(&audio).unwrap(), vec![]);
}

#[test]
fn knob_turn_writes_the_scaled_volume() {
    let mut audio = AudioState {
        sinks: vec![device(5, vec![0, 0], false, Some("speakers"))],
        sources: vec![],
        streams: vec![],
        default_sink: 5,
        default_source: 0,
    };
    let mut table = BindingTable::new();
    table.set(11, Binding::volume(Target::StaticDevice(DeviceKind::Sink, 5)));
    let deck = Deck::new(table);
    let resp = deck.handle_midi_message(&[0xBA, 11, 127], &audio).unwrap();
    assert_eq!(
        resp.actions,
        vec![AudioAction::SetDeviceVolume(DeviceKind::Sink, 5, 0xffff)]
    );
    for act in &resp.actions {
        audio.apply(act);
    }
    assert_eq!(audio.sinks[0].channels, vec![0xffff, 0xffff]);
    let out = deck.flush_values_to_board(&audio).unwrap();
    assert_eq!(out, vec![msg(KNOB_UPDATE, 11, 126)]);
}

#[test]
fn press_is_dispatched_but_acts_only_on_release() {
    let audio = AudioState {
        sinks: vec![],
        sources: vec![device(2, vec![1], false, Some("mic"))],
        streams: vec![],
        default_sink: 0,
        default_source: 2,
    };
    let mut table = BindingTable::new();
    table.set(34, Binding::mute(Target::StaticDevice(DeviceKind::Source, 2)));
    let deck = Deck::new(table);
    let resp = deck.handle_midi_message(&[BTN_DOWN, 34, 0], &audio).unwrap();
    assert_eq!(resp.actions, vec![]);
    assert_eq!(resp.outbound, vec![]);
}

#[test]
fn knob_event_on_a_button_binding_is_a_dispatch_error() {
    let audio = AudioState {
        sinks: vec![],
        sources: vec![device(2, vec![1], false, Some("mic"))],
        streams: vec![],
        default_sink: 0,
        default_source: 2,
    };
    let mut table = BindingTable::new();
    table.set(34, Binding::mute(Target::StaticDevice(DeviceKind::Source, 2)));
    let deck = Deck::new(table);
    assert_eq!(
        deck.handle_midi_message(&[0xBA, 34, 64], &audio),
        Err(DispatchError::WrongControlKind)
    );
}

#[test]
fn button_event_on_a_volume_binding_is_a_dispatch_error() {
    let audio = AudioState {
        sinks: vec![device(5, vec![1], false, None)],
        sources: vec![],
        streams: vec![],
        default_sink: 5,
        default_source: 0,
    };
    let mut table = BindingTable::new();
    table.set(11, Binding::volume(Target::StaticDevice(DeviceKind::Sink, 5)));
    let deck = Deck::new(table);
    assert_eq!(
        deck.handle_midi_message(&[BTN_UP, 11, 0], &audio),
        Err(DispatchError::WrongControlKind)
    );
    assert_eq!(
        deck.handle_midi_message(&[BTN_DOWN, 11, 0], &audio),
        Err(DispatchError::WrongControlKind)
    );
}

#[test]
fn unbound_button_is_silently_ignored() {
    let audio = AudioState {
        sinks: vec![],
        sources: vec![],
        streams: vec![],
        default_sink: 0,
        default_source: 0,
    };
    let deck = Deck::new(BindingTable::new());
    let resp = deck.handle_midi_message(&[BTN_UP, 99, 0], &audio).unwrap();
    assert_eq!(resp.actions, vec![]);
    assert_eq!(resp.outbound, vec![]);
}

#[test]
fn malformed_messages_are_ignored_not_errors() {
    let audio = AudioState {
        sinks: vec![],
        sources: vec![],
        streams: vec![],
        default_sink: 0,
        default_source: 0,
    };
    let deck = Deck::new(BindingTable::new());
    for raw in [
        &[0x55u8, 1, 2][..],   // unknown opcode
        &[0xBA, 7][..],        // too short
        &[0xBA, 7, 0, 0][..],  // too long
        &[0xBA, 200, 5][..],   // index out of the 7-bit range
        &[0xBA, 7, 200][..],   // value out of the 7-bit range
    ] {
        let resp = deck.handle_midi_message(raw, &audio).unwrap();
        assert_eq!(resp.actions, vec![]);
        assert_eq!(resp.outbound, vec![]);
    }
}

#[test]
fn clear_zeroes_the_whole_surface() {
    let deck = Deck::new(BindingTable::new());
    let out = deck.clear();
    assert_eq!(out.len(), 32);
    assert_eq!(out[0], msg(KNOB_UPDATE, 11, 0));
    assert_eq!(out[7], msg(KNOB_UPDATE, 18, 0));
    assert_eq!(out[8], msg(BTN_UP, 24, 0));
    assert_eq!(out[31], msg(BTN_UP, 47, 0));
}

#[test]
fn derived_mute_button_controls_what_the_knob_adjusts() {
    let audio = AudioState {
        sinks: vec![],
        sources: vec![],
        streams: vec![stream(30, &[("app_name", "Music")], vec![0x4000], false)],
        default_sink: 0,
        default_source: 0,
    };
    let mut table = BindingTable::new();
    table.set(
        11,
        Binding::volume(Target::PropertyMatch("app_name".to_string(), "Music".to_string())),
    );
    table.derive_mute_into(11, 40);
    let deck = Deck::new(table);
    let resp = deck.handle_midi_message(&[BTN_UP, 40, 0], &audio).unwrap();
    assert_eq!(resp.actions, vec![AudioAction::SetStreamMute(30, true)]);
}
