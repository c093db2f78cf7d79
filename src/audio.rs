//! The audio reporter: volume and mute state of a sink or source of the audio
//! server, read from its control tool's listings, and the click commands.
use vstd::prelude::*;
use crate::pattern::{capture, regex_group};
use crate::report::{failure, failure_view, report_lines, report_of, DisplayReport, ReportView};
use crate::text::{
    chars_of, decimal, find, find_seq, owned, parse_digits, parsed_value, push_decimal, push_str,
    same_chars, second_word, second_word_of, slice_of, string_of, trim, trim_seq,
};

verus! {

/// Volumes above this percentage count as loud. Kept at 100, so that only a
/// volume boosted past full shows as loud.
pub const LOUD_ABOVE: u64 = 100;

/// How the audio reporter shows a device.
pub struct AudioOptions {
    /// Work on a source (input device) instead of a sink.
    pub source: bool,
    pub color_error: String,
    pub color_high: String,
    pub color_low: String,
    pub color_mute: String,
    pub icon_high: String,
    pub icon_normal: String,
    pub icon_low: String,
    pub icon_mute: String,
    /// Put in front of the icon when working on a source.
    pub micon: String,
}

/// The display state of an audio device.
#[derive(PartialEq, Eq, Structural, Clone, Copy, Debug)]
pub enum AudioStatus {
    Muted,
    Loud,
    Normal,
    Quiet,
}

/// What a click asks of the audio server.
#[derive(PartialEq, Eq, Structural, Clone, Copy, Debug)]
pub enum AudioAction {
    ToggleMute,
    VolumeFull,
    VolumeUp,
    VolumeDown,
}

/// The device's mute field reads "yes" when it is muted.
pub open spec fn is_muted(flag: Seq<char>) -> bool {
    flag == "yes"@
}

/// Muted overrides everything; otherwise above `loud_above` is loud, below 100
/// is quiet, and exactly 100 is normal.
pub open spec fn audio_status_spec(muted: bool, volume: nat, loud_above: nat) -> AudioStatus {
    if muted {
        AudioStatus::Muted
    } else if volume > loud_above {
        AudioStatus::Loud
    } else if volume < 100 {
        AudioStatus::Quiet
    } else {
        AudioStatus::Normal
    }
}

/// Left click toggles mute, right click sets full volume, the wheel steps the
/// volume; anything else does nothing.
pub open spec fn audio_action_spec(button: Option<i32>) -> Option<AudioAction> {
    match button {
        Some(1) => Some(AudioAction::ToggleMute),
        Some(3) => Some(AudioAction::VolumeFull),
        Some(4) => Some(AudioAction::VolumeUp),
        Some(5) => Some(AudioAction::VolumeDown),
        _ => None,
    }
}

/// The device's mute state once the action has been carried out.
pub open spec fn muted_after(action: Option<AudioAction>, muted: bool) -> bool {
    match action {
        Some(AudioAction::ToggleMute) => !muted,
        _ => muted,
    }
}

/// The arguments of the control tool that carry out the action on the device.
pub open spec fn audio_command_spec(action: AudioAction, source: bool, device: Seq<char>) -> Seq<
    Seq<char>,
> {
    let mute = if source {
        "set-source-mute"@
    } else {
        "set-sink-mute"@
    };
    let volume = if source {
        "set-source-volume"@
    } else {
        "set-sink-volume"@
    };
    match action {
        AudioAction::ToggleMute => seq![mute, device, "toggle"@],
        AudioAction::VolumeFull => seq![volume, device, "100%"@],
        AudioAction::VolumeUp => seq![volume, device, "+1dB"@],
        AudioAction::VolumeDown => seq![volume, device, "-1dB"@],
    }
}

/// The kind of device listed: "sinks" or "sources".
pub open spec fn list_kind_spec(source: bool) -> Seq<char> {
    if source {
        "sources"@
    } else {
        "sinks"@
    }
}

/// Text that reads as an `i32`: an optional sign, then decimal digits.
pub open spec fn is_i32_text(id: Seq<char>) -> bool {
    let signed = id.len() > 0 && (id[0] == '-' || id[0] == '+');
    let digits = if signed {
        id.drop_first()
    } else {
        id
    };
    match parsed_value(digits) {
        Some(v) => v <= 0x7fff_ffff || (id[0] == '-' && v == 0x8000_0000),
        None => false,
    }
}

/// The pattern that finds the listing line of a numbered device.
pub open spec fn numbered_pattern(id: Seq<char>) -> Seq<char> {
    "(?m)^"@ + id + ".+?$"@
}

/// The device name that a numbered device has in the short listing: the second
/// word of its line.
pub open spec fn numbered_device_spec(list: Seq<char>, id: Seq<char>) -> Result<
    Seq<char>,
    Seq<char>,
> {
    if !is_i32_text(id) {
        Err("Device name search unimplemented"@)
    } else {
        match regex_group(numbered_pattern(id), list, 0) {
            None => Err("Numeric ID not found"@),
            Some(line) => match second_word(line) {
                Some(w) => Ok(w),
                None => Err("Numeric ID has no device name"@),
            },
        }
    }
}

pub open spec fn default_pattern(source: bool) -> Seq<char> {
    if source {
        "Default Source: ([^\\n]+)"@
    } else {
        "Default Sink: ([^\\n]+)"@
    }
}

/// The default sink (or source) that the server information names.
pub open spec fn default_device_spec(info: Seq<char>, source: bool) -> Result<
    Seq<char>,
    Seq<char>,
> {
    match regex_group(default_pattern(source), info, 1) {
        Some(d) => Ok(d),
        None => Err("Couldn't find default device."@),
    }
}

pub open spec fn volume_pattern() -> Seq<char> {
    ".+?Volume: .+?dB"@
}

pub open spec fn mute_pattern() -> Seq<char> {
    ".+?Mute: .+?\n"@
}

/// The volume line's text after its first slash and the blank that follows,
/// trimmed (as "100% / 0.00 dB").
pub open spec fn volume_text(m: Seq<char>) -> Option<Seq<char>> {
    match find_seq(m, "/"@) {
        Some(k) => if k + 2 <= m.len() {
            Some(trim_seq(m.subrange(k + 2, m.len() as int)))
        } else {
            None
        },
        None => None,
    }
}

/// The mute line's value: after its first colon and the blank that follows, up
/// to the line break, trimmed.
pub open spec fn mute_text(m: Seq<char>) -> Option<Seq<char>> {
    match find_seq(m, ":"@) {
        Some(k) => if k + 2 <= m.len() - 1 {
            Some(trim_seq(m.subrange(k + 2, m.len() - 1)))
        } else {
            None
        },
        None => None,
    }
}

/// The whole percentage in front of the first "%" of the volume text.
pub open spec fn volume_percent(v: Seq<char>) -> Option<u64> {
    match find_seq(v, "%"@) {
        Some(k) => parsed_value(v.subrange(0, k)),
        None => None,
    }
}

/// The device's entry: the listing from the first mention of the device on.
pub open spec fn device_entry(list: Seq<char>, device: Seq<char>) -> Option<Seq<char>> {
    match find_seq(list, device) {
        Some(k) => Some(list.subrange(k, list.len() as int)),
        None => None,
    }
}

/// Volume text, whole percentage and mute state of the device, read from the
/// full listing, or the message for the first thing missing.
pub open spec fn audio_fields(list: Seq<char>, device: Seq<char>) -> Result<
    (Seq<char>, u64, bool),
    Seq<char>,
> {
    match device_entry(list, device) {
        None => Err("Failed to find device."@),
        Some(e) => match regex_group(volume_pattern(), e, 0) {
            None => Err("Couldn't find device volume."@),
            Some(vm) => match volume_text(vm) {
                None => Err("Couldn't read device volume."@),
                Some(v) => match regex_group(mute_pattern(), e, 0) {
                    None => Err("Couldn't find device mute status"@),
                    Some(mm) => match mute_text(mm) {
                        None => Err("Couldn't read device mute status"@),
                        Some(flag) => match volume_percent(v) {
                            None => Err("Couldn't read device volume."@),
                            Some(p) => Ok((v, p, is_muted(flag))),
                        },
                    },
                },
            },
        },
    }
}

pub open spec fn audio_icon(s: AudioStatus, o: AudioOptions) -> Seq<char> {
    match s {
        AudioStatus::Muted => o.icon_mute@,
        AudioStatus::Loud => o.icon_high@,
        AudioStatus::Normal => o.icon_normal@,
        AudioStatus::Quiet => o.icon_low@,
    }
}

/// A color line only where the state has a color that is not empty.
pub open spec fn audio_color(s: AudioStatus, o: AudioOptions) -> Option<Seq<char>> {
    let c = match s {
        AudioStatus::Muted => o.color_mute@,
        AudioStatus::Loud => o.color_high@,
        AudioStatus::Normal => Seq::empty(),
        AudioStatus::Quiet => o.color_low@,
    };
    if c.len() > 0 {
        Some(c)
    } else {
        None
    }
}

pub open spec fn audio_prefix(s: AudioStatus, o: AudioOptions) -> Seq<char> {
    (if o.source {
        o.micon@
    } else {
        Seq::empty()
    }) + audio_icon(s, o)
}

/// The report of a device with the given volume text, percentage and mute state.
pub open spec fn audio_view(volume: Seq<char>, percent: nat, muted: bool, o: AudioOptions) -> ReportView {
    let s = audio_status_spec(muted, percent, LOUD_ABOVE as nat);
    ReportView {
        long: audio_prefix(s, o) + " "@ + volume,
        short: audio_prefix(s, o) + " "@ + decimal(percent) + "%"@,
        color: audio_color(s, o),
    }
}

/// The audio report for the full listing of sinks (or sources).
pub open spec fn audio_report_spec(list: Seq<char>, device: Seq<char>, o: AudioOptions) -> ReportView {
    match audio_fields(list, device) {
        Ok((v, p, m)) => audio_view(v, p as nat, m, o),
        Err(e) => failure_view(e, o.color_error@),
    }
}

/// The display state for a mute flag and a volume percentage.
pub fn audio_status(muted: bool, volume: u64, loud_above: u64) -> (r: AudioStatus)
    ensures
        r == audio_status_spec(muted, volume as nat, loud_above as nat),
{
    if muted {
        AudioStatus::Muted
    } else if volume > loud_above {
        AudioStatus::Loud
    } else if volume < 100 {
        AudioStatus::Quiet
    } else {
        AudioStatus::Normal
    }
}

/// The action that a click asks for, if any.
pub fn audio_action(button: Option<i32>) -> (r: Option<AudioAction>)
    ensures
        r == audio_action_spec(button),
{
    match button {
        Some(1) => Some(AudioAction::ToggleMute),
        Some(3) => Some(AudioAction::VolumeFull),
        Some(4) => Some(AudioAction::VolumeUp),
        Some(5) => Some(AudioAction::VolumeDown),
        _ => None,
    }
}

/// The arguments of the control tool that carry out the action on the device.
pub fn audio_command(action: AudioAction, source: bool, device: &str) -> (r: Vec<String>)
    ensures
        r@.len() == 3,
        forall|i: int| 0 <= i < 3 ==> #[trigger] r@[i]@ == audio_command_spec(action, source, device@)[i],
{
    let mute = if source {
        "set-source-mute"
    } else {
        "set-sink-mute"
    };
    let volume = if source {
        "set-source-volume"
    } else {
        "set-sink-volume"
    };
    let (verb, arg) = match action {
        AudioAction::ToggleMute => (mute, "toggle"),
        AudioAction::VolumeFull => (volume, "100%"),
        AudioAction::VolumeUp => (volume, "+1dB"),
        AudioAction::VolumeDown => (volume, "-1dB"),
    };
    let mut r: Vec<String> = Vec::new();
    r.push(owned(verb));
    r.push(owned(device));
    r.push(owned(arg));
    r
}

/// The kind of device listed: "sinks" or "sources".
pub fn list_kind(source: bool) -> (r: &'static str)
    ensures
        r@ == list_kind_spec(source),
{
    if source {
        "sources"
    } else {
        "sinks"
    }
}

fn reads_as_i32(id: &Vec<char>) -> (r: bool)
    ensures
        r == is_i32_text(id@),
{
    let n = id.len();
    let signed = n > 0 && (id[0] == '-' || id[0] == '+');
    let digits = if signed {
        slice_of(id, 1, n)
    } else {
        slice_of(id, 0, n)
    };
    proof {
        assert(id@.subrange(0, n as int) =~= id@);
        assert(id@.subrange(1, n as int) =~= id@.drop_first());
    }
    match parse_digits(&digits) {
        Some(v) => v <= 0x7fff_ffff || (id[0] == '-' && v == 0x8000_0000),
        None => false,
    }
}

/// The device name of a numbered device: the second word of its line in the
/// short listing.
pub fn numbered_device(list: &str, id: &str) -> (r: Result<String, String>)
    ensures
        r matches Ok(d) ==> numbered_device_spec(list@, id@) == Ok::<Seq<char>, Seq<char>>(d@),
        r matches Err(e) ==> numbered_device_spec(list@, id@) == Err::<Seq<char>, Seq<char>>(
            e@,
        ),
{
    let idc = chars_of(id);
    if !reads_as_i32(&idc) {
        return Err(owned("Device name search unimplemented"));
    }
    let mut pattern: Vec<char> = Vec::new();
    push_str(&mut pattern, "(?m)^");
    push_str(&mut pattern, id);
    push_str(&mut pattern, ".+?$");
    let pattern = string_of(&pattern);
    match capture(pattern.as_str(), list, 0) {
        None => Err(owned("Numeric ID not found")),
        Some(line) => match second_word_of(&chars_of(line.as_str())) {
            Some(w) => Ok(string_of(&w)),
            None => Err(owned("Numeric ID has no device name")),
        },
    }
}

/// The default sink (or source) that the server information names.
pub fn default_device(info: &str, source: bool) -> (r: Result<String, String>)
    ensures
        r matches Ok(d) ==> default_device_spec(info@, source) == Ok::<Seq<char>, Seq<char>>(
            d@,
        ),
        r matches Err(e) ==> default_device_spec(info@, source) == Err::<Seq<char>, Seq<char>>(
            e@,
        ),
{
    let found = if source {
        capture("Default Source: ([^\\n]+)", info, 1)
    } else {
        capture("Default Sink: ([^\\n]+)", info, 1)
    };
    match found {
        Some(d) => Ok(d),
        None => Err(owned("Couldn't find default device.")),
    }
}

fn after_marker(m: &str, marker: &str, drop_last: bool) -> (r: Option<String>)
    ensures
        ({
            let end = if drop_last {
                m@.len() - 1
            } else {
                m@.len() as int
            };
            match find_seq(m@, marker@) {
                Some(k) => if k + 2 <= end {
                    r matches Some(t) && t@ == trim_seq(m@.subrange(k + 2, end))
                } else {
                    r is None
                },
                None => r is None,
            }
        }),
{
    let mc = chars_of(m);
    let n = mc.len();
    let found = find(&mc, &chars_of(marker));
    if drop_last && n == 0 {
        return None;
    }
    let end = if drop_last {
        n - 1
    } else {
        n
    };
    match found {
        Some(k) => if k <= end && end - k >= 2 {
            Some(string_of(&trim(&slice_of(&mc, k + 2, end))))
        } else {
            None
        },
        None => None,
    }
}

/// The volume text of the volume line (see `volume_text`).
pub fn volume_text_of(m: &str) -> (r: Option<String>)
    ensures
        r matches Some(t) ==> volume_text(m@) == Some(t@),
        r is None <==> volume_text(m@) is None,
{
    after_marker(m, "/", false)
}

/// The value of the mute line (see `mute_text`).
pub fn mute_text_of(m: &str) -> (r: Option<String>)
    ensures
        r matches Some(t) ==> mute_text(m@) == Some(t@),
        r is None <==> mute_text(m@) is None,
{
    after_marker(m, ":", true)
}

/// The whole percentage at the front of the volume text.
pub fn volume_percent_of(v: &str) -> (r: Option<u64>)
    ensures
        r == volume_percent(v@),
{
    let vc = chars_of(v);
    match find(&vc, &chars_of("%")) {
        Some(k) => parse_digits(&slice_of(&vc, 0, k)),
        None => None,
    }
}

/// The device's entry in the full listing.
pub fn device_entry_of(list: &str, device: &str) -> (r: Option<String>)
    ensures
        r matches Some(e) ==> device_entry(list@, device@) == Some(e@),
        r is None <==> device_entry(list@, device@) is None,
{
    let lc = chars_of(list);
    match find(&lc, &chars_of(device)) {
        Some(k) => Some(string_of(&slice_of(&lc, k, lc.len()))),
        None => None,
    }
}

/// Volume text, whole percentage and mute state of the device (see `audio_fields`).
pub fn audio_fields_of(list: &str, device: &str) -> (r: Result<(String, u64, bool), String>)
    ensures
        r matches Ok((v, p, m)) ==> audio_fields(list@, device@) == Ok::<
            (Seq<char>, u64, bool),
            Seq<char>,
        >((v@, p, m)),
        r matches Err(e) ==> audio_fields(list@, device@) == Err::<
            (Seq<char>, u64, bool),
            Seq<char>,
        >(e@),
{
    let entry = match device_entry_of(list, device) {
        Some(e) => e,
        None => {
            return Err(owned("Failed to find device."));
        },
    };
    let vm = match capture(".+?Volume: .+?dB", entry.as_str(), 0) {
        Some(vm) => vm,
        None => {
            return Err(owned("Couldn't find device volume."));
        },
    };
    let v = match volume_text_of(vm.as_str()) {
        Some(v) => v,
        None => {
            return Err(owned("Couldn't read device volume."));
        },
    };
    let mm = match capture(".+?Mute: .+?\n", entry.as_str(), 0) {
        Some(mm) => mm,
        None => {
            return Err(owned("Couldn't find device mute status"));
        },
    };
    let flag = match mute_text_of(mm.as_str()) {
        Some(f) => f,
        None => {
            return Err(owned("Couldn't read device mute status"));
        },
    };
    let p = match volume_percent_of(v.as_str()) {
        Some(p) => p,
        None => {
            return Err(owned("Couldn't read device volume."));
        },
    };
    let muted = same_chars(&chars_of(flag.as_str()), &chars_of("yes"));
    Ok((v, p, muted))
}

/// The report of a device with the given volume text, percentage and mute state.
pub fn audio_display(volume: &str, percent: u64, muted: bool, o: &AudioOptions) -> (r:
    DisplayReport)
    ensures
        r@ == audio_view(volume@, percent as nat, muted, *o),
{
    let s = audio_status(muted, percent, LOUD_ABOVE);
    let icon = match s {
        AudioStatus::Muted => o.icon_mute.as_str(),
        AudioStatus::Loud => o.icon_high.as_str(),
        AudioStatus::Normal => o.icon_normal.as_str(),
        AudioStatus::Quiet => o.icon_low.as_str(),
    };
    let color = match s {
        AudioStatus::Muted => chars_of(o.color_mute.as_str()),
        AudioStatus::Loud => chars_of(o.color_high.as_str()),
        AudioStatus::Normal => Vec::new(),
        AudioStatus::Quiet => chars_of(o.color_low.as_str()),
    };
    let mut prefix: Vec<char> = Vec::new();
    if o.source {
        push_str(&mut prefix, o.micon.as_str());
    }
    push_str(&mut prefix, icon);
    assert(prefix@ =~= audio_prefix(s, *o));
    let mut long = prefix.clone();
    let mut short = prefix;
    push_str(&mut long, " ");
    push_str(&mut long, volume);
    push_str(&mut short, " ");
    push_decimal(&mut short, percent as u128);
    push_str(&mut short, "%");
    if color.len() > 0 {
        report_of(&long, &short, Some(&color))
    } else {
        report_of(&long, &short, None)
    }
}

/// The audio report for the full listing of sinks (or sources): the error form
/// with the message for the first thing missing, or the device's report.
pub fn audio_report(list: &str, device: &str, o: &AudioOptions) -> (r: DisplayReport)
    ensures
        r@ == audio_report_spec(list@, device@, *o),
{
    match audio_fields_of(list, device) {
        Ok((v, p, m)) => audio_display(v.as_str(), p, m, o),
        Err(e) => failure(e.as_str(), o.color_error.as_str()),
    }
}

/// A muted device shows as muted whatever its volume, with the mute icon and
/// the mute color, also where the volume alone would make it loud.
pub proof fn lemma_mute_overrides(volume: Seq<char>, percent: nat, o: AudioOptions)
    ensures
        audio_status_spec(true, percent, LOUD_ABOVE as nat) == AudioStatus::Muted,
        audio_view(volume, percent, true, o).long == (if o.source {
            o.micon@
        } else {
            Seq::empty()
        }) + o.icon_mute@ + " "@ + volume,
        audio_view(volume, percent, true, o).color == (if o.color_mute@.len() > 0 {
            Some(o.color_mute@)
        } else {
            None
        }),
{
}

/// Two left clicks in a row toggle mute on and then off again (or off and on):
/// the derived state alternates between muted and not muted, and ends where it
/// began.
pub proof fn lemma_toggle_twice(muted: bool, percent: nat)
    ensures
        audio_action_spec(Some(1)) == Some(AudioAction::ToggleMute),
        ({
            let a = audio_action_spec(Some(1));
            let once = muted_after(a, muted);
            let twice = muted_after(a, once);
            &&& (audio_status_spec(once, percent, LOUD_ABOVE as nat) == AudioStatus::Muted)
                == !muted
            &&& (audio_status_spec(twice, percent, LOUD_ABOVE as nat) == AudioStatus::Muted)
                == muted
            &&& audio_status_spec(twice, percent, LOUD_ABOVE as nat) == audio_status_spec(
                muted,
                percent,
                LOUD_ABOVE as nat,
            )
        }),
{
}

/// Whenever a field of the device is missing from the listing, the audio
/// report is the error form: three lines, the message twice, then the error
/// color.
pub proof fn lemma_missing_field_fails(list: Seq<char>, device: Seq<char>, o: AudioOptions)
    requires
        audio_fields(list, device) is Err,
    ensures
        ({
            let m = audio_fields(list, device)->Err_0;
            &&& audio_report_spec(list, device, o) == failure_view(m, o.color_error@)
            &&& report_lines(audio_report_spec(list, device, o)) == seq![m, m, o.color_error@]
        }),
{
}

} // verus!
