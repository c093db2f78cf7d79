//! The media-player reporters: the playing state with the current track, and
//! the player's volume, read from the player's command-line answers.
use vstd::prelude::*;
use crate::pattern::{capture, regex_group};
use crate::report::{failure, failure_view, report_lines, report_of, DisplayReport, ReportView};
use crate::text::{
    all_digits, chars_of, lemma_digits_below, pow10, decimal, digits_value, ends_with, ends_with_seq, parse_digits, push_decimal,
    push_str, round_ratio, rounded_ratio, starts_with, starts_with_seq,
};

verus! {

/// How the player reporter shows the playing state.
pub struct PlayerOptions {
    pub color_error: String,
    pub icon_play: String,
    pub icon_pause: String,
    pub icon_stop: String,
}

/// The icons of the player volume reporter.
pub struct VolumeIcons {
    pub high: String,
    pub normal: String,
    pub low: String,
}

/// The display state of the player.
#[derive(PartialEq, Eq, Structural, Clone, Copy, Debug)]
pub enum PlayerStatus {
    Playing,
    Paused,
    Stopped,
    Unknown,
}

/// What a click on the player's block asks of the player.
#[derive(PartialEq, Eq, Structural, Clone, Copy, Debug)]
pub enum PlayerAction {
    PlayPause,
    ToggleWindow,
    Stop,
    Previous,
    Next,
}

/// What a click on the volume block asks of the player.
#[derive(PartialEq, Eq, Structural, Clone, Copy, Debug)]
pub enum VolumeAction {
    Up,
    Down,
}

/// The player says "paused" both when paused and when stopped; a position of
/// "0.000" tells the stopped case.
pub open spec fn player_status_spec(t: Seq<char>) -> PlayerStatus {
    if starts_with_seq(t, "playing"@) {
        PlayerStatus::Playing
    } else if starts_with_seq(t, "paused"@) {
        if ends_with_seq(t, "on 0.000"@) {
            PlayerStatus::Stopped
        } else {
            PlayerStatus::Paused
        }
    } else {
        PlayerStatus::Unknown
    }
}

pub open spec fn player_action_spec(button: Option<i32>) -> Option<PlayerAction> {
    match button {
        Some(1) => Some(PlayerAction::PlayPause),
        Some(2) => Some(PlayerAction::ToggleWindow),
        Some(3) => Some(PlayerAction::Stop),
        Some(4) => Some(PlayerAction::Previous),
        Some(5) => Some(PlayerAction::Next),
        _ => None,
    }
}

pub open spec fn player_command_spec(a: PlayerAction) -> Seq<char> {
    match a {
        PlayerAction::PlayPause => "--play-pause"@,
        PlayerAction::ToggleWindow => "--toggle-window"@,
        PlayerAction::Stop => "--stop"@,
        PlayerAction::Previous => "--previous"@,
        PlayerAction::Next => "--next"@,
    }
}

pub open spec fn volume_action_spec(button: Option<i32>) -> Option<VolumeAction> {
    match button {
        Some(1) | Some(4) => Some(VolumeAction::Up),
        Some(3) | Some(5) => Some(VolumeAction::Down),
        _ => None,
    }
}

pub open spec fn volume_command_spec(a: VolumeAction) -> Seq<char> {
    match a {
        VolumeAction::Up => "--volume-up"@,
        VolumeAction::Down => "--volume-down"@,
    }
}

pub open spec fn player_icon(s: PlayerStatus, o: PlayerOptions) -> Seq<char> {
    match s {
        PlayerStatus::Playing => o.icon_play@,
        PlayerStatus::Paused => o.icon_pause@,
        PlayerStatus::Stopped => o.icon_stop@,
        PlayerStatus::Unknown => "?"@,
    }
}

/// The player report from the status answer and the two track texts; a track
/// text that did not come is replaced by a fixed notice.
pub open spec fn player_view(
    status: Option<Seq<char>>,
    long: Option<Seq<char>>,
    short: Option<Seq<char>>,
    o: PlayerOptions,
) -> ReportView {
    match status {
        None => failure_view("Quodlibet failed."@, o.color_error@),
        Some(t) => {
            let icon = player_icon(player_status_spec(t), o);
            let l = match long {
                Some(l) => l,
                None => "Long String Error"@,
            };
            let s = match short {
                Some(s) => s,
                None => "Short String Error"@,
            };
            ReportView { long: icon + " "@ + l, short: icon + " "@ + s, color: None }
        },
    }
}

pub open spec fn str_view(s: Option<&str>) -> Option<Seq<char>> {
    match s {
        Some(t) => Some(t@),
        None => None,
    }
}

pub open spec fn volume_pattern() -> Seq<char> {
    "\\d\\.\\d{3}"@
}

/// The volume, in thousandths, that a text "d.ddd" writes.
pub open spec fn volume_thousandths(m: Seq<char>) -> Option<nat> {
    let digits = seq![m[0]] + m.subrange(2, 5);
    if m.len() == 5 && m[1] == '.' && all_digits(digits) {
        Some(digits_value(digits))
    } else {
        None
    }
}

/// Above 66% is high, below 34% low, the rest normal; `tenths` is the
/// percentage in tenths.
pub open spec fn volume_icon(tenths: nat, icons: VolumeIcons) -> Seq<char> {
    if tenths > 660 {
        icons.high@
    } else if tenths < 340 {
        icons.low@
    } else {
        icons.normal@
    }
}

/// The volume report: a blank pair of lines when the player did not answer,
/// nothing when its answer holds no volume.
pub open spec fn volume_view(status: Option<Seq<char>>, icons: VolumeIcons) -> Option<ReportView> {
    match status {
        None => Some(ReportView { long: " "@, short: " "@, color: None }),
        Some(t) => match regex_group(volume_pattern(), t, 0) {
            None => None,
            Some(m) => match volume_thousandths(m) {
                None => None,
                Some(n) => {
                    let line = volume_icon(n, icons) + " "@ + decimal(round_ratio(n, 10)) + "%"@;
                    Some(ReportView { long: line, short: line, color: None })
                },
            },
        },
    }
}

/// The display state that the player's status answer gives.
pub fn player_status(t: &str) -> (r: PlayerStatus)
    ensures
        r == player_status_spec(t@),
{
    let tc = chars_of(t);
    if starts_with(&tc, &chars_of("playing")) {
        PlayerStatus::Playing
    } else if starts_with(&tc, &chars_of("paused")) {
        if ends_with(&tc, &chars_of("on 0.000")) {
            PlayerStatus::Stopped
        } else {
            PlayerStatus::Paused
        }
    } else {
        PlayerStatus::Unknown
    }
}

/// The action that a click on the player's block asks for, if any.
pub fn player_action(button: Option<i32>) -> (r: Option<PlayerAction>)
    ensures
        r == player_action_spec(button),
{
    match button {
        Some(1) => Some(PlayerAction::PlayPause),
        Some(2) => Some(PlayerAction::ToggleWindow),
        Some(3) => Some(PlayerAction::Stop),
        Some(4) => Some(PlayerAction::Previous),
        Some(5) => Some(PlayerAction::Next),
        _ => None,
    }
}

/// The player's command-line flag for the action.
pub fn player_command(a: PlayerAction) -> (r: &'static str)
    ensures
        r@ == player_command_spec(a),
{
    match a {
        PlayerAction::PlayPause => "--play-pause",
        PlayerAction::ToggleWindow => "--toggle-window",
        PlayerAction::Stop => "--stop",
        PlayerAction::Previous => "--previous",
        PlayerAction::Next => "--next",
    }
}

/// The action that a click on the volume block asks for, if any.
pub fn volume_action(button: Option<i32>) -> (r: Option<VolumeAction>)
    ensures
        r == volume_action_spec(button),
{
    match button {
        Some(1) | Some(4) => Some(VolumeAction::Up),
        Some(3) | Some(5) => Some(VolumeAction::Down),
        _ => None,
    }
}

/// The player's command-line flag for the volume action.
pub fn volume_command(a: VolumeAction) -> (r: &'static str)
    ensures
        r@ == volume_command_spec(a),
{
    match a {
        VolumeAction::Up => "--volume-up",
        VolumeAction::Down => "--volume-down",
    }
}

/// The player report from the status answer and the two track texts.
pub fn player_report(
    status: Option<&str>,
    long: Option<&str>,
    short: Option<&str>,
    o: &PlayerOptions,
) -> (r: DisplayReport)
    ensures
        r@ == player_view(str_view(status), str_view(long), str_view(short), *o),
{
    let t = match status {
        Some(t) => t,
        None => {
            return failure("Quodlibet failed.", o.color_error.as_str());
        },
    };
    let icon = match player_status(t) {
        PlayerStatus::Playing => o.icon_play.as_str(),
        PlayerStatus::Paused => o.icon_pause.as_str(),
        PlayerStatus::Stopped => o.icon_stop.as_str(),
        PlayerStatus::Unknown => "?",
    };
    let l = match long {
        Some(l) => l,
        None => "Long String Error",
    };
    let s = match short {
        Some(s) => s,
        None => "Short String Error",
    };
    let mut lc: Vec<char> = Vec::new();
    push_str(&mut lc, icon);
    push_str(&mut lc, " ");
    push_str(&mut lc, l);
    let mut sc: Vec<char> = Vec::new();
    push_str(&mut sc, icon);
    push_str(&mut sc, " ");
    push_str(&mut sc, s);
    report_of(&lc, &sc, None)
}

fn thousandths_of(m: &str) -> (r: Option<u64>)
    ensures
        r matches Some(n) ==> volume_thousandths(m@) == Some(n as nat),
        r is None <==> volume_thousandths(m@) is None,
{
    let mc = chars_of(m);
    if mc.len() != 5 || mc[1] != '.' {
        return None;
    }
    let mut digits: Vec<char> = Vec::new();
    digits.push(mc[0]);
    digits.push(mc[2]);
    digits.push(mc[3]);
    digits.push(mc[4]);
    assert(digits@ =~= seq![m@[0]] + m@.subrange(2, 5));
    proof {
        if all_digits(digits@) {
            lemma_digits_below(digits@);
            assert(pow10(0) == 1);
            assert(pow10(1) == 10);
            assert(pow10(2) == 100);
            assert(pow10(3) == 1000);
            assert(pow10(4) == 10000);
        }
    }
    parse_digits(&digits)
}

/// The volume report (see `volume_view`).
pub fn volume_report(status: Option<&str>, icons: &VolumeIcons) -> (r: Option<DisplayReport>)
    ensures
        r matches Some(v) ==> volume_view(str_view(status), *icons) == Some(v@),
        r is None <==> volume_view(str_view(status), *icons) is None,
{
    let t = match status {
        Some(t) => t,
        None => {
            let blank = chars_of(" ");
            return Some(report_of(&blank, &blank, None));
        },
    };
    let m = match capture("\\d\\.\\d{3}", t, 0) {
        Some(m) => m,
        None => {
            return None;
        },
    };
    let n = match thousandths_of(m.as_str()) {
        Some(n) => n,
        None => {
            return None;
        },
    };
    let icon = if n > 660 {
        icons.high.as_str()
    } else if n < 340 {
        icons.low.as_str()
    } else {
        icons.normal.as_str()
    };
    let mut line: Vec<char> = Vec::new();
    push_str(&mut line, icon);
    push_str(&mut line, " ");
    push_decimal(&mut line, rounded_ratio(n as u128, 10));
    push_str(&mut line, "%");
    Some(report_of(&line, &line, None))
}

/// A status that begins with "paused" and ends at position "0.000" shows as
/// stopped; one that begins with "paused" and ends otherwise shows as paused.
pub proof fn lemma_paused_at_start_is_stopped(t: Seq<char>)
    requires
        starts_with_seq(t, "paused"@),
    ensures
        ends_with_seq(t, "on 0.000"@) ==> player_status_spec(t) == PlayerStatus::Stopped,
        !ends_with_seq(t, "on 0.000"@) ==> player_status_spec(t) == PlayerStatus::Paused,
{
    reveal_strlit("paused");
    reveal_strlit("playing");
    assert(t.subrange(0, 6)[1] == 'a');
    assert(!starts_with_seq(t, "playing"@)) by {
        if starts_with_seq(t, "playing"@) {
            assert(t.subrange(0, 7)[1] == 'l');
        }
    }
}

/// When the player does not answer the status query, the report is the error
/// form: three lines, the message twice, then the error color.
pub proof fn lemma_no_status_fails(
    long: Option<Seq<char>>,
    short: Option<Seq<char>>,
    o: PlayerOptions,
)
    ensures
        player_view(None, long, short, o) == failure_view("Quodlibet failed."@, o.color_error@),
        report_lines(player_view(None, long, short, o)) == seq![
            "Quodlibet failed."@,
            "Quodlibet failed."@,
            o.color_error@,
        ],
{
}

} // verus!
