//! The GPU reporter: utilization, memory, temperature and more, read from the
//! verbose query output of the GPU driver's diagnostics tool.
use vstd::prelude::*;
use crate::pattern::{capture, regex_group};
use crate::report::{failure, failure_view, report_lines, report_of, DisplayReport, ReportView};
use crate::text::{
    chars_of, decimal, owned, parse_digits, parsed_value, push_decimal, push_signed_decimal,
    push_str, remove_all, remove_all_of, round_ratio, lemma_round_ratio_close, rounded_ratio, same_chars, signed_decimal,
    string_of, trim, trim_end_char, trim_end_matches, trim_seq,
};

verus! {

/// What the GPU reporter shows and how.
pub struct GpuOptions {
    /// Index of the GPU to query.
    pub id: i32,
    pub color_error: String,
    /// Color while the GPU is idle; empty to skip the idle check.
    pub color_idle: String,
    pub color_throttle: String,
    pub no_util: bool,
    pub no_mem: bool,
    pub no_temp: bool,
    /// Memory as a percentage instead of MiB in the long line.
    pub perc_mem: bool,
    /// Temperature in the short line too.
    pub short_temp: bool,
    /// The product name, without its brand, in place of the index in the long line.
    pub gpu_name: bool,
    pub encode: bool,
    pub decode: bool,
}

/// The display state of a GPU. Nothing derives `Throttled` yet: no field that
/// is read tells it.
#[derive(PartialEq, Eq, Structural, Clone, Copy, Debug)]
pub enum GpuStatus {
    Idle,
    Active,
    Throttled,
}

/// The fields read from the diagnostics text; a field that is switched off
/// stays empty (or zero, or false).
pub struct GpuReadings {
    pub utilization: String,
    /// MiB.
    pub memory_total: u64,
    /// MiB.
    pub memory_used: u64,
    pub temperature: String,
    pub name: String,
    pub encoder: String,
    pub decoder: String,
    pub idle: bool,
}

pub open spec fn utilization_pattern() -> Seq<char> {
    "Gpu +: ([\\d]+)"@
}

pub open spec fn memory_pattern() -> Seq<char> {
    "FB Memory Usage[ \\n]+Total +: ([\\d]+) MiB[ \\n]+Used +: ([\\d]+) MiB"@
}

pub open spec fn temperature_pattern() -> Seq<char> {
    "GPU Current Temp +: ([\\d]+)"@
}

pub open spec fn name_pattern() -> Seq<char> {
    "Product Name +: ([^\\n]+)"@
}

pub open spec fn brand_pattern() -> Seq<char> {
    "Product Brand +: ([^\\n]+)"@
}

pub open spec fn encoder_pattern() -> Seq<char> {
    "Encoder +: ([\\d]+)"@
}

pub open spec fn decoder_pattern() -> Seq<char> {
    "Decoder +: ([\\d]+)"@
}

pub open spec fn idle_pattern() -> Seq<char> {
    "Idle +: ([[:alpha:]]+)"@
}

/// The group's text, or nothing when the pattern finds none.
pub open spec fn group_text(pattern: Seq<char>, t: Seq<char>, group: nat) -> Seq<char> {
    match regex_group(pattern, t, group) {
        Some(g) => g,
        None => Seq::empty(),
    }
}

/// The throttle field labelled "Idle" reads "Active" while the GPU works: the
/// GPU counts as idle for any other value.
pub open spec fn is_idle(value: Seq<char>) -> bool {
    value != "Active"@
}

/// The product name without the brand: every occurrence removed, the rest
/// trimmed; an empty brand leaves the name as it is.
pub open spec fn name_without_brand(name: Seq<char>, brand: Seq<char>) -> Seq<char> {
    if brand.len() == 0 {
        name
    } else {
        trim_seq(remove_all(name, brand))
    }
}

/// Used memory as a whole percentage of the total; zero when the total is zero.
pub open spec fn memory_percent(used: nat, total: nat) -> nat {
    if total == 0 {
        0
    } else {
        round_ratio(100 * used, total)
    }
}

/// The first field that is switched on and missing, as the message that reports it.
pub open spec fn gpu_error(t: Seq<char>, o: GpuOptions) -> Option<Seq<char>> {
    if !o.no_util && regex_group(utilization_pattern(), t, 1) is None {
        Some("Couldn't find utilization."@)
    } else if !o.no_mem && (regex_group(memory_pattern(), t, 1) is None || regex_group(
        memory_pattern(),
        t,
        2,
    ) is None) {
        Some("Couldn't find memory."@)
    } else if !o.no_mem && (parsed_value(group_text(memory_pattern(), t, 1)) is None
        || parsed_value(group_text(memory_pattern(), t, 2)) is None) {
        Some("Couldn't read memory."@)
    } else if !o.no_temp && regex_group(temperature_pattern(), t, 1) is None {
        Some("Couldn't find temperature."@)
    } else if o.gpu_name && regex_group(name_pattern(), t, 1) is None {
        Some("Couldn't find GPU name."@)
    } else if o.encode && regex_group(encoder_pattern(), t, 1) is None {
        Some("Couldn't find encoder utilization."@)
    } else if o.decode && regex_group(decoder_pattern(), t, 1) is None {
        Some("Couldn't find decoder utilization."@)
    } else if o.color_idle@.len() > 0 && regex_group(idle_pattern(), t, 1) is None {
        Some("Couldn't find idle status."@)
    } else {
        None
    }
}

pub open spec fn field_if(on: bool, pattern: Seq<char>, t: Seq<char>) -> Seq<char> {
    if on {
        group_text(pattern, t, 1)
    } else {
        Seq::empty()
    }
}

pub open spec fn memory_if(on: bool, t: Seq<char>, group: nat) -> u64 {
    if on {
        match parsed_value(group_text(memory_pattern(), t, group)) {
            Some(v) => v,
            None => 0,
        }
    } else {
        0
    }
}

/// `g` holds what the diagnostics text `t` gives for the fields switched on in `o`.
pub open spec fn readings_of(g: GpuReadings, t: Seq<char>, o: GpuOptions) -> bool {
    &&& g.utilization@ == field_if(!o.no_util, utilization_pattern(), t)
    &&& g.memory_total == memory_if(!o.no_mem, t, 1)
    &&& g.memory_used == memory_if(!o.no_mem, t, 2)
    &&& g.temperature@ == field_if(!o.no_temp, temperature_pattern(), t)
    &&& g.name@ == (if o.gpu_name {
        name_without_brand(group_text(name_pattern(), t, 1), group_text(brand_pattern(), t, 1))
    } else {
        Seq::empty()
    })
    &&& g.encoder@ == field_if(o.encode, encoder_pattern(), t)
    &&& g.decoder@ == field_if(o.decode, decoder_pattern(), t)
    &&& g.idle == (o.color_idle@.len() > 0 && is_idle(group_text(idle_pattern(), t, 1)))
}

pub open spec fn gpu_status(idle: bool) -> GpuStatus {
    if idle {
        GpuStatus::Idle
    } else {
        GpuStatus::Active
    }
}

pub open spec fn gpu_color(s: GpuStatus, o: GpuOptions) -> Option<Seq<char>> {
    match s {
        GpuStatus::Idle => Some(o.color_idle@),
        GpuStatus::Throttled => Some(o.color_throttle@),
        GpuStatus::Active => None,
    }
}

pub open spec fn long_head(g: GpuReadings, o: GpuOptions) -> Seq<char> {
    if o.gpu_name {
        g.name@ + ": "@
    } else {
        "GPU "@ + signed_decimal(o.id as int) + ": "@
    }
}

pub open spec fn util_segment(g: GpuReadings, o: GpuOptions) -> Seq<char> {
    if !o.no_util {
        "GPU "@ + g.utilization@ + "%|"@
    } else {
        Seq::empty()
    }
}

pub open spec fn mib_segment(g: GpuReadings, o: GpuOptions) -> Seq<char> {
    if !o.no_mem && !o.perc_mem {
        decimal(g.memory_used as nat) + "/"@ + decimal(g.memory_total as nat) + "MiB|"@
    } else {
        Seq::empty()
    }
}

pub open spec fn percent_segment(g: GpuReadings, o: GpuOptions) -> Seq<char> {
    if !o.no_mem && o.perc_mem {
        "MEM "@ + decimal(memory_percent(g.memory_used as nat, g.memory_total as nat)) + "%|"@
    } else {
        Seq::empty()
    }
}

pub open spec fn temp_segment(g: GpuReadings, o: GpuOptions) -> Seq<char> {
    if !o.no_temp {
        g.temperature@ + "C|"@
    } else {
        Seq::empty()
    }
}

pub open spec fn encoder_segment(g: GpuReadings, o: GpuOptions) -> Seq<char> {
    if o.encode {
        "ENC "@ + g.encoder@ + "%|"@
    } else {
        Seq::empty()
    }
}

pub open spec fn decoder_segment(g: GpuReadings, o: GpuOptions) -> Seq<char> {
    if o.decode {
        "VID "@ + g.decoder@ + "%"@
    } else {
        Seq::empty()
    }
}

/// The long line before its trailing separators are dropped.
pub open spec fn long_segments(g: GpuReadings, o: GpuOptions) -> Seq<char> {
    long_head(g, o) + util_segment(g, o) + mib_segment(g, o) + percent_segment(g, o)
        + temp_segment(g, o) + encoder_segment(g, o) + decoder_segment(g, o)
}

pub open spec fn short_head(o: GpuOptions) -> Seq<char> {
    "GPU "@ + signed_decimal(o.id as int) + ": "@
}

pub open spec fn short_util_segment(g: GpuReadings, o: GpuOptions) -> Seq<char> {
    if !o.no_util {
        "GPU "@ + g.utilization@ + "|"@
    } else {
        Seq::empty()
    }
}

pub open spec fn short_mem_segment(g: GpuReadings, o: GpuOptions) -> Seq<char> {
    if !o.no_mem {
        "MEM "@ + decimal(memory_percent(g.memory_used as nat, g.memory_total as nat)) + "|"@
    } else {
        Seq::empty()
    }
}

pub open spec fn short_temp_segment(g: GpuReadings, o: GpuOptions) -> Seq<char> {
    if o.short_temp && !o.no_temp {
        g.temperature@ + "C"@
    } else {
        Seq::empty()
    }
}

/// The short line before its trailing separators are dropped.
pub open spec fn short_segments(g: GpuReadings, o: GpuOptions) -> Seq<char> {
    short_head(o) + short_util_segment(g, o) + short_mem_segment(g, o) + short_temp_segment(g, o)
}

pub open spec fn gpu_view(g: GpuReadings, o: GpuOptions) -> ReportView {
    ReportView {
        long: trim_end_char(long_segments(g, o), '|'),
        short: trim_end_char(short_segments(g, o), '|'),
        color: gpu_color(gpu_status(g.idle), o),
    }
}

/// Used memory as a whole percentage of the total; zero when the total is zero.
pub fn memory_percent_of(used: u64, total: u64) -> (r: u128)
    ensures
        r as nat == memory_percent(used as nat, total as nat),
{
    if total == 0 {
        0
    } else {
        rounded_ratio(used as u128 * 100, total as u128)
    }
}

/// The product name without the brand (see `name_without_brand`).
pub fn strip_brand(name: &str, brand: &str) -> (r: String)
    ensures
        r@ == name_without_brand(name@, brand@),
{
    let b = chars_of(brand);
    if b.len() == 0 {
        return owned(name);
    }
    let n = chars_of(name);
    let rest = remove_all_of(&n, &b);
    string_of(&trim(&rest))
}

/// The display state that the idle flag gives.
pub fn status_of(idle: bool) -> (r: GpuStatus)
    ensures
        r == gpu_status(idle),
{
    if idle {
        GpuStatus::Idle
    } else {
        GpuStatus::Active
    }
}

fn memory_field(status: &str, group: usize) -> (r: Result<u64, String>)
    requires
        group == 1 || group == 2,
    ensures
        r matches Ok(v) ==> regex_group(memory_pattern(), status@, group as nat) is Some
            && parsed_value(group_text(memory_pattern(), status@, group as nat)) == Some(v),
        r matches Err(m) ==> (regex_group(memory_pattern(), status@, group as nat) is None
            && m@ == "Couldn't find memory."@) || (regex_group(
            memory_pattern(),
            status@,
            group as nat,
        ) is Some && parsed_value(group_text(memory_pattern(), status@, group as nat)) is None
            && m@ == "Couldn't read memory."@),
{
    match capture(
        "FB Memory Usage[ \\n]+Total +: ([\\d]+) MiB[ \\n]+Used +: ([\\d]+) MiB",
        status,
        group,
    ) {
        Some(g) => match parse_digits(&chars_of(g.as_str())) {
            Some(v) => Ok(v),
            None => Err(owned("Couldn't read memory.")),
        },
        None => Err(owned("Couldn't find memory.")),
    }
}

/// Reads the fields that `o` switches on from the diagnostics text, or the
/// message for the first one that is missing.
pub fn gpu_readings(status: &str, o: &GpuOptions) -> (r: Result<GpuReadings, String>)
    ensures
        r matches Ok(g) ==> gpu_error(status@, *o) is None && readings_of(g, status@, *o),
        r matches Err(m) ==> gpu_error(status@, *o) == Some(m@),
{
    let mut utilization = String::new();
    if !o.no_util {
        match capture("Gpu +: ([\\d]+)", status, 1) {
            Some(u) => {
                utilization = u;
            },
            None => {
                return Err(owned("Couldn't find utilization."));
            },
        }
    }
    let mut memory_total: u64 = 0;
    let mut memory_used: u64 = 0;
    if !o.no_mem {
        let total = memory_field(status, 1);
        let used = memory_field(status, 2);
        match (total, used) {
            (Ok(t), Ok(u)) => {
                memory_total = t;
                memory_used = u;
            },
            (Err(m), Ok(_)) => {
                return Err(m);
            },
            (Ok(_), Err(m)) => {
                return Err(m);
            },
            (Err(m1), Err(m2)) => {
                if same_chars(&chars_of(m1.as_str()), &chars_of("Couldn't find memory.")) {
                    return Err(m1);
                }
                return Err(m2);
            },
        }
    }
    let mut temperature = String::new();
    if !o.no_temp {
        match capture("GPU Current Temp +: ([\\d]+)", status, 1) {
            Some(v) => {
                temperature = v;
            },
            None => {
                return Err(owned("Couldn't find temperature."));
            },
        }
    }
    let mut name = String::new();
    if o.gpu_name {
        match capture("Product Name +: ([^\\n]+)", status, 1) {
            Some(product) => {
                let brand = match capture("Product Brand +: ([^\\n]+)", status, 1) {
                    Some(b) => b,
                    None => String::new(),
                };
                name = strip_brand(product.as_str(), brand.as_str());
            },
            None => {
                return Err(owned("Couldn't find GPU name."));
            },
        }
    }
    let mut encoder = String::new();
    if o.encode {
        match capture("Encoder +: ([\\d]+)", status, 1) {
            Some(v) => {
                encoder = v;
            },
            None => {
                return Err(owned("Couldn't find encoder utilization."));
            },
        }
    }
    let mut decoder = String::new();
    if o.decode {
        match capture("Decoder +: ([\\d]+)", status, 1) {
            Some(v) => {
                decoder = v;
            },
            None => {
                return Err(owned("Couldn't find decoder utilization."));
            },
        }
    }
    let mut idle = false;
    if chars_of(o.color_idle.as_str()).len() > 0 {
        match capture("Idle +: ([[:alpha:]]+)", status, 1) {
            Some(v) => {
                idle = !same_chars(&chars_of(v.as_str()), &chars_of("Active"));
            },
            None => {
                return Err(owned("Couldn't find idle status."));
            },
        }
    }
    Ok(
        GpuReadings {
            utilization,
            memory_total,
            memory_used,
            temperature,
            name,
            encoder,
            decoder,
            idle,
        },
    )
}

fn push_head(out: &mut Vec<char>, g: &GpuReadings, o: &GpuOptions)
    ensures
        final(out)@ == old(out)@ + long_head(*g, *o),
{
    if o.gpu_name {
        push_str(out, g.name.as_str());
        push_str(out, ": ");
    } else {
        push_str(out, "GPU ");
        push_signed_decimal(out, o.id);
        push_str(out, ": ");
    }
    assert(final(out)@ =~= old(out)@ + long_head(*g, *o));
}

fn push_util(out: &mut Vec<char>, g: &GpuReadings, o: &GpuOptions)
    ensures
        final(out)@ == old(out)@ + util_segment(*g, *o),
{
    if !o.no_util {
        push_str(out, "GPU ");
        push_str(out, g.utilization.as_str());
        push_str(out, "%|");
    }
    assert(final(out)@ =~= old(out)@ + util_segment(*g, *o));
}

fn push_mib(out: &mut Vec<char>, g: &GpuReadings, o: &GpuOptions)
    ensures
        final(out)@ == old(out)@ + mib_segment(*g, *o),
{
    if !o.no_mem && !o.perc_mem {
        push_decimal(out, g.memory_used as u128);
        push_str(out, "/");
        push_decimal(out, g.memory_total as u128);
        push_str(out, "MiB|");
    }
    assert(final(out)@ =~= old(out)@ + mib_segment(*g, *o));
}

fn push_percent(out: &mut Vec<char>, g: &GpuReadings, o: &GpuOptions)
    ensures
        final(out)@ == old(out)@ + percent_segment(*g, *o),
{
    if !o.no_mem && o.perc_mem {
        let percent = memory_percent_of(g.memory_used, g.memory_total);
        push_str(out, "MEM ");
        push_decimal(out, percent);
        push_str(out, "%|");
    }
    assert(final(out)@ =~= old(out)@ + percent_segment(*g, *o));
}

fn push_temp_enc_dec(out: &mut Vec<char>, g: &GpuReadings, o: &GpuOptions)
    ensures
        final(out)@ == old(out)@ + temp_segment(*g, *o) + encoder_segment(*g, *o)
            + decoder_segment(*g, *o),
{
    if !o.no_temp {
        push_str(out, g.temperature.as_str());
        push_str(out, "C|");
    }
    let ghost mid = out@;
    assert(mid =~= old(out)@ + temp_segment(*g, *o));
    if o.encode {
        push_str(out, "ENC ");
        push_str(out, g.encoder.as_str());
        push_str(out, "%|");
    }
    let ghost mid2 = out@;
    assert(mid2 =~= mid + encoder_segment(*g, *o));
    if o.decode {
        push_str(out, "VID ");
        push_str(out, g.decoder.as_str());
        push_str(out, "%");
    }
    assert(final(out)@ =~= mid2 + decoder_segment(*g, *o));
    assert(final(out)@ =~= old(out)@ + temp_segment(*g, *o) + encoder_segment(*g, *o)
        + decoder_segment(*g, *o));
}

fn long_line(g: &GpuReadings, o: &GpuOptions) -> (r: Vec<char>)
    ensures
        r@ == long_segments(*g, *o),
{
    let mut long: Vec<char> = Vec::new();
    push_head(&mut long, g, o);
    push_util(&mut long, g, o);
    push_mib(&mut long, g, o);
    push_percent(&mut long, g, o);
    push_temp_enc_dec(&mut long, g, o);
    assert(long@ =~= long_segments(*g, *o));
    long
}

fn short_line(g: &GpuReadings, o: &GpuOptions) -> (r: Vec<char>)
    ensures
        r@ == short_segments(*g, *o),
{
    let mut short: Vec<char> = Vec::new();
    push_str(&mut short, "GPU ");
    push_signed_decimal(&mut short, o.id);
    push_str(&mut short, ": ");
    assert(short@ =~= short_head(*o));
    let ghost prev = short@;
    if !o.no_util {
        push_str(&mut short, "GPU ");
        push_str(&mut short, g.utilization.as_str());
        push_str(&mut short, "|");
    }
    assert(short@ =~= prev + short_util_segment(*g, *o));
    let ghost prev = short@;
    if !o.no_mem {
        let percent = memory_percent_of(g.memory_used, g.memory_total);
        push_str(&mut short, "MEM ");
        push_decimal(&mut short, percent);
        push_str(&mut short, "|");
    }
    assert(short@ =~= prev + short_mem_segment(*g, *o));
    let ghost prev = short@;
    if o.short_temp && !o.no_temp {
        push_str(&mut short, g.temperature.as_str());
        push_str(&mut short, "C");
    }
    assert(short@ =~= prev + short_temp_segment(*g, *o));
    short
}

/// The report for readings that are all present.
pub fn gpu_display(g: &GpuReadings, o: &GpuOptions) -> (r: DisplayReport)
    ensures
        r@ == gpu_view(*g, *o),
{
    let long = trim_end_matches(&long_line(g, o), '|');
    let short = trim_end_matches(&short_line(g, o), '|');
    match status_of(g.idle) {
        GpuStatus::Idle => report_of(&long, &short, Some(&chars_of(o.color_idle.as_str()))),
        GpuStatus::Throttled => report_of(
            &long,
            &short,
            Some(&chars_of(o.color_throttle.as_str())),
        ),
        GpuStatus::Active => report_of(&long, &short, None),
    }
}

/// The GPU report for the diagnostics text: the error form with the message for
/// the first missing field, or else the report of the fields read.
pub fn gpu_report(status: &str, o: &GpuOptions) -> (r: DisplayReport)
    ensures
        gpu_error(status@, *o) matches Some(m) ==> r@ == failure_view(m, o.color_error@),
        gpu_error(status@, *o) is None ==> exists|g: GpuReadings|
            readings_of(g, status@, *o) && r@ == #[trigger] gpu_view(g, *o),
{
    match gpu_readings(status, o) {
        Ok(g) => gpu_display(&g, o),
        Err(m) => failure(m.as_str(), o.color_error.as_str()),
    }
}

/// The memory percentage is the used share of the total, times 100, rounded
/// to a whole number: never more than half a percent away from the exact value
/// (and, being a natural number, never negative).
pub proof fn lemma_memory_percent_rounds(used: nat, total: nat)
    requires
        total > 0,
    ensures
        2 * (memory_percent(used, total) * total - 100 * used) <= total,
        2 * (100 * used - memory_percent(used, total) * total) <= total,
{
    lemma_round_ratio_close(100 * used, total);
}

/// Whenever a field that is switched on is missing from the diagnostics text,
/// the report is the error form: three lines, the message twice, then the
/// error color.
pub proof fn lemma_missing_field_fails(t: Seq<char>, o: GpuOptions)
    requires
        gpu_error(t, o) is Some,
    ensures
        ({
            let m = gpu_error(t, o)->0;
            report_lines(failure_view(m, o.color_error@)) == seq![m, m, o.color_error@]
        }),
{
}

/// Removing an empty brand leaves the product name as it is.
pub proof fn lemma_empty_brand_keeps_name(name: Seq<char>)
    ensures
        name_without_brand(name, Seq::empty()) == name,
{
}

} // verus!
