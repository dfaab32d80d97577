//! What the lines look like: bar templates and worker labels.

use crate::render::set_bar_prefix;
use indicatif::{ProgressBar, ProgressStyle};
use vstd::prelude::*;
use vstd::string::StringExecFns;

verus! {

/// The decimal digit character of `d < 10`.
pub open spec fn digit_char(d: nat) -> char {
    if d == 0 { '0' }
    else if d == 1 { '1' }
    else if d == 2 { '2' }
    else if d == 3 { '3' }
    else if d == 4 { '4' }
    else if d == 5 { '5' }
    else if d == 6 { '6' }
    else if d == 7 { '7' }
    else if d == 8 { '8' }
    else { '9' }
}

/// The decimal notation of `n`, without leading zeros.
pub open spec fn decimal(n: nat) -> Seq<char>
    decreases n,
{
    if n < 10 {
        seq![digit_char(n)]
    } else {
        decimal(n / 10).push(digit_char(n % 10))
    }
}

/// The decimal notation of `n`, zero-padded to at least two digits.
pub open spec fn padded_label(n: nat) -> Seq<char> {
    if n < 10 {
        seq!['0', digit_char(n)]
    } else {
        decimal(n)
    }
}

fn digit_str(d: usize) -> (r: &'static str)
    requires
        d < 10,
    ensures
        r@ == seq![digit_char(d as nat)],
{
    proof {
        reveal_strlit("0");
        reveal_strlit("1");
        reveal_strlit("2");
        reveal_strlit("3");
        reveal_strlit("4");
        reveal_strlit("5");
        reveal_strlit("6");
        reveal_strlit("7");
        reveal_strlit("8");
        reveal_strlit("9");
    }
    if d == 0 { "0" }
    else if d == 1 { "1" }
    else if d == 2 { "2" }
    else if d == 3 { "3" }
    else if d == 4 { "4" }
    else if d == 5 { "5" }
    else if d == 6 { "6" }
    else if d == 7 { "7" }
    else if d == 8 { "8" }
    else { "9" }
}

fn decimal_string(n: usize) -> (r: String)
    ensures
        r@ == decimal(n as nat),
    decreases n,
{
    if n < 10 {
        String::from_str(digit_str(n))
    } else {
        let mut s = decimal_string(n / 10);
        s.append(digit_str(n % 10));
        s
    }
}

/// The label of a worker line: its 1-based ordinal, zero-padded to two digits.
pub fn ordinal_label(ordinal: usize) -> (r: String)
    ensures
        r@ == padded_label(ordinal as nat),
{
    if ordinal < 10 {
        proof {
            reveal_strlit("0");
        }
        String::from_str("0").concat(digit_str(ordinal))
    } else {
        decimal_string(ordinal)
    }
}

/// The spinner glyph that leads the bar where the console can draw it.
pub const SPINNER_SEGMENT: &'static str = "{spinner} ";

/// The bar layout: elapsed time, bar, percentage, position over total, rate
/// and estimated time remaining.
pub const BAR_LAYOUT: &'static str = "[{elapsed_precise}] [{wide_bar}] {percent:>3}% {pos}/{len} ({per_sec}, eta {eta})";

/// The layout of a worker line: its label, then its free-form message.
pub const WORKER_LAYOUT: &'static str = "[{prefix}] {msg}";

/// The characters that fill the bar: done, head, to do.
pub const BAR_CHARS: &'static str = "#>-";

/// The prefix drawn before a worker's label.
pub const WORKER_PREFIX: &'static str = "Worker ";

/// The template of an aggregate bar; the spinner segment is left out where
/// the console cannot draw its glyphs.
pub fn bar_template(spinner: bool) -> (r: String)
    ensures
        r@ == (if spinner { SPINNER_SEGMENT@ + BAR_LAYOUT@ } else { BAR_LAYOUT@ }),
{
    if spinner {
        String::from_str(SPINNER_SEGMENT).concat(BAR_LAYOUT)
    } else {
        String::from_str(BAR_LAYOUT)
    }
}

/// The style of an aggregate bar.
pub(crate) fn bar_style(spinner: bool) -> ProgressStyle {
    let template = bar_template(spinner);
    proof {
        reveal_strlit("#>-");
    }
    ProgressStyle::default_bar().template(template.as_str()).progress_chars(BAR_CHARS)
}

/// A hidden worker line labelled with `label`.
pub(crate) fn worker_bar(label: &String) -> ProgressBar {
    let bar = ProgressBar::hidden().with_style(
        ProgressStyle::default_spinner().template(WORKER_LAYOUT),
    );
    set_bar_prefix(&bar, String::from_str(WORKER_PREFIX).concat(label.as_str()));
    bar
}

} // verus!
