use quickshell::audio::{
    audio_action, audio_command, audio_display, audio_fields_of, audio_report, audio_status,
    default_device, list_kind, mute_text_of, numbered_device, volume_percent_of, volume_text_of,
    AudioAction, AudioOptions, AudioStatus, LOUD_ABOVE,
};

const LIST: &str = "Sink #0
\tState: RUNNING
\tName: alsa_output.pci-0000_00_1f.3.analog-stereo
\tDescription: Built-in Audio Analog Stereo
\tMute: no
\tVolume: front-left: 65536 / 100% / 0.00 dB,   front-right: 65536 / 100% / 0.00 dB
\t        balance 0.00
\tBase Volume: 65536 / 100% / 0.00 dB

Sink #1
\tState: SUSPENDED
\tName: bluez_sink.headset
\tMute: yes
\tVolume: front-left: 78643 / 120% / 4.75 dB,   front-right: 78643 / 120% / 4.75 dB
\tBase Volume: 65536 / 100% / 0.00 dB";

const DEV0: &str = "alsa_output.pci-0000_00_1f.3.analog-stereo";

fn defaults() -> AudioOptions {
    AudioOptions {
        source: false,
        color_error: "#dc322f".to_string(),
        color_high: "#b58900".to_string(),
        color_low: "#268bd2".to_string(),
        color_mute: "#859900".to_string(),
        icon_high: "H".to_string(),
        icon_normal: "N".to_string(),
        icon_low: "L".to_string(),
        icon_mute: "M".to_string(),
        micon: "mic".to_string(),
    }
}

#[test]
fn device_at_full_volume() {
    let r = audio_report(LIST, DEV0, &defaults());
    assert_eq!(r.long, "N 100% / 0.00 dB");
    assert_eq!(r.short, "N 100%");
    assert_eq!(r.color, None);
}

#[test]
fn muted_device_shows_muted_over_loud() {
    let r = audio_report(LIST, "bluez_sink.headset", &defaults());
    assert_eq!(r.long, "M 120% / 4.75 dB");
    assert_eq!(r.short, "M 120%");
    assert_eq!(r.color, Some("#859900".to_string()));
    assert_eq!(audio_status(true, 150, LOUD_ABOVE), AudioStatus::Muted);
    assert_eq!(audio_status(true, 10, LOUD_ABOVE), AudioStatus::Muted);
}

#[test]
fn status_thresholds() {
    assert_eq!(audio_status(false, 101, LOUD_ABOVE), AudioStatus::Loud);
    assert_eq!(audio_status(false, 100, LOUD_ABOVE), AudioStatus::Normal);
    assert_eq!(audio_status(false, 99, LOUD_ABOVE), AudioStatus::Quiet);
    assert_eq!(audio_status(false, 0, LOUD_ABOVE), AudioStatus::Quiet);
    assert_eq!(audio_status(false, 90, 80), AudioStatus::Loud);
}

#[test]
fn display_colors_and_source_icon() {
    let mut o = defaults();
    let r = audio_display("120% / 4.75 dB", 120, false, &o);
    assert_eq!(r.long, "H 120% / 4.75 dB");
    assert_eq!(r.color, Some("#b58900".to_string()));
    let r = audio_display("40% / -23.88 dB", 40, false, &o);
    assert_eq!(r.short, "L 40%");
    assert_eq!(r.color, Some("#268bd2".to_string()));
    o.source = true;
    let r = audio_display("40% / -23.88 dB", 40, true, &o);
    assert_eq!(r.long, "micM 40% / -23.88 dB");
    assert_eq!(r.short, "micM 40%");
    o.color_low = String::new();
    let r = audio_display("40% / -23.88 dB", 40, false, &o);
    assert_eq!(r.color, None);
}

#[test]
fn toggle_twice_alternates() {
    assert_eq!(audio_action(Some(1)), Some(AudioAction::ToggleMute));
    let mut muted = false;
    let mut seen = Vec::new();
    for _ in 0..2 {
        if audio_action(Some(1)) == Some(AudioAction::ToggleMute) {
            muted = !muted;
        }
        seen.push(audio_status(muted, 100, LOUD_ABOVE));
    }
    assert_eq!(seen, vec![AudioStatus::Muted, AudioStatus::Normal]);
}

#[test]
fn click_actions_and_commands() {
    assert_eq!(audio_action(Some(3)), Some(AudioAction::VolumeFull));
    assert_eq!(audio_action(Some(4)), Some(AudioAction::VolumeUp));
    assert_eq!(audio_action(Some(5)), Some(AudioAction::VolumeDown));
    assert_eq!(audio_action(Some(2)), None);
    assert_eq!(audio_action(Some(9)), None);
    assert_eq!(audio_action(None), None);
    assert_eq!(audio_command(AudioAction::ToggleMute, false, "d"), vec!["set-sink-mute", "d", "toggle"]);
    assert_eq!(audio_command(AudioAction::VolumeFull, true, "d"), vec!["set-source-volume", "d", "100%"]);
    assert_eq!(audio_command(AudioAction::VolumeUp, false, "d"), vec!["set-sink-volume", "d", "+1dB"]);
    assert_eq!(audio_command(AudioAction::VolumeDown, false, "d"), vec!["set-sink-volume", "d", "-1dB"]);
    assert_eq!(list_kind(false), "sinks");
    assert_eq!(list_kind(true), "sources");
}

#[test]
fn device_selection() {
    let short = "0\talsa_output.pci-0000_00_1f.3.analog-stereo\tmodule-alsa-card.c\ts16le 2ch 44100Hz\tRUNNING\n1\tbluez_sink.headset\tmodule-bluez5-device.c\ts16le 2ch 44100Hz\tSUSPENDED";
    assert_eq!(numbered_device(short, "1").ok(), Some("bluez_sink.headset".to_string()));
    assert_eq!(numbered_device(short, "0").ok(), Some(DEV0.to_string()));
    assert_eq!(numbered_device(short, "7").err(), Some("Numeric ID not found".to_string()));
    assert_eq!(numbered_device(short, "abc").err(), Some("Device name search unimplemented".to_string()));
    let info = "Server Name: pulseaudio\nDefault Sink: alsa_output.analog-stereo\nDefault Source: alsa_input.analog-stereo";
    assert_eq!(default_device(info, false).ok(), Some("alsa_output.analog-stereo".to_string()));
    assert_eq!(default_device(info, true).ok(), Some("alsa_input.analog-stereo".to_string()));
    assert_eq!(default_device("Server Name: x", false).err(), Some("Couldn't find default device.".to_string()));
}

#[test]
fn field_pieces() {
    assert_eq!(volume_text_of("\tVolume: front-left: 65536 / 100% / 0.00 dB"), Some("100% / 0.00 dB".to_string()));
    assert_eq!(volume_text_of("Volume: 0.00 dB"), None);
    assert_eq!(mute_text_of("\tMute: yes\n"), Some("yes".to_string()));
    assert_eq!(volume_percent_of("57% / -14.65 dB"), Some(57));
    assert_eq!(volume_percent_of("57 / -14.65 dB"), None);
    assert_eq!(audio_fields_of(LIST, DEV0).ok(), Some(("100% / 0.00 dB".to_string(), 100, false)));
}

#[test]
fn missing_fields_are_error_form() {
    let r = audio_report(LIST, "no_such_device", &defaults());
    assert_eq!(r.long, "Failed to find device.");
    assert_eq!(r.short, "Failed to find device.");
    assert_eq!(r.color, Some("#dc322f".to_string()));
    assert_eq!(r.lines().len(), 3);
    let r = audio_report("Name: dev\n\tMute: no\n", "dev", &defaults());
    assert_eq!(r.long, "Couldn't find device volume.");
    let r = audio_report("Name: dev\n\tVolume: front-left: 1 / 5% / -70 dB\n", "dev", &defaults());
    assert_eq!(r.long, "Couldn't find device mute status");
    assert_eq!(r.lines(), vec![r.long.clone(), r.long.clone(), "#dc322f".to_string()]);
}
