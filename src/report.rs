//! The three-line report that every reporter prints.
use vstd::prelude::*;
use crate::text::{chars_of, string_of};

verus! {

/// What a reporter prints: the long line, the short line, and a color line
/// when there is one.
pub struct DisplayReport {
    pub long: String,
    pub short: String,
    pub color: Option<String>,
}

/// A report as text.
pub struct ReportView {
    pub long: Seq<char>,
    pub short: Seq<char>,
    pub color: Option<Seq<char>>,
}

pub open spec fn color_view(c: Option<String>) -> Option<Seq<char>> {
    match c {
        Some(s) => Some(s@),
        None => None,
    }
}

impl View for DisplayReport {
    type V = ReportView;

    open spec fn view(&self) -> ReportView {
        ReportView { long: self.long@, short: self.short@, color: color_view(self.color) }
    }
}

/// The error form: the message twice, then the error color.
pub open spec fn failure_view(message: Seq<char>, error_color: Seq<char>) -> ReportView {
    ReportView { long: message, short: message, color: Some(error_color) }
}

/// The lines that a report prints, in order.
pub open spec fn report_lines(r: ReportView) -> Seq<Seq<char>> {
    match r.color {
        Some(c) => seq![r.long, r.short, c],
        None => seq![r.long, r.short],
    }
}

/// The error form of a report.
pub fn failure(message: &str, error_color: &str) -> (r: DisplayReport)
    ensures
        r@ == failure_view(message@, error_color@),
{
    let m = chars_of(message);
    let c = chars_of(error_color);
    DisplayReport { long: string_of(&m), short: string_of(&m), color: Some(string_of(&c)) }
}

/// A report from the characters of its parts.
pub fn report_of(long: &Vec<char>, short: &Vec<char>, color: Option<&Vec<char>>) -> (r:
    DisplayReport)
    ensures
        r.long@ == long@,
        r.short@ == short@,
        color matches Some(c) ==> r.color matches Some(rc) && rc@ == c@,
        color is None ==> r.color is None,
{
    let color = match color {
        Some(c) => Some(string_of(c)),
        None => None,
    };
    DisplayReport { long: string_of(long), short: string_of(short), color }
}

impl DisplayReport {
    /// The lines to print: long, short, and the color when there is one.
    pub fn lines(&self) -> (r: Vec<String>)
        ensures
            r@.len() == report_lines(self@).len(),
            forall|i: int| 0 <= i < r@.len() ==> #[trigger] r@[i]@ == report_lines(self@)[i],
    {
        let mut r: Vec<String> = Vec::new();
        r.push(self.long.clone());
        r.push(self.short.clone());
        match &self.color {
            Some(c) => {
                r.push(c.clone());
            },
            None => {},
        }
        r
    }
}

} // verus!
