use vstd::prelude::*;
use crate::ui::{Label, TextKind};

verus! {

/// The character of a decimal digit.
pub open spec fn digit_char(d: int) -> char {
    seq!['0', '1', '2', '3', '4', '5', '6', '7', '8', '9'][d]
}

/// The decimal digits of `v`, most significant first, without leading zeros.
pub open spec fn decimal(v: nat) -> Seq<char>
    decreases v,
{
    if v < 10 {
        seq![digit_char(v as int)]
    } else {
        decimal(v / 10).push(digit_char((v % 10) as int))
    }
}

/// The string of one decimal digit.
fn digit_str(d: u16) -> (s: &'static str)
    requires
        d < 10,
    ensures
        s@ == seq![digit_char(d as int)],
{
    proof {
        reveal_strlit("0");
        reveal_strlit("1");
        reveal_strlit("2");
        reveal_strlit("3");
        reveal_strlit("4");
        reveal_strlit("5");
        reveal_strlit("6");
        reveal_strlit("7");
        reveal_strlit("8");
        reveal_strlit("9");
    }
    match d {
        0 => "0",
        1 => "1",
        2 => "2",
        3 => "3",
        4 => "4",
        5 => "5",
        6 => "6",
        7 => "7",
        8 => "8",
        _ => "9",
    }
}

/// Appends the decimal digits of `v`.
fn append_decimal(s: &mut String, v: u16)
    ensures
        final(s)@ == old(s)@ + decimal(v as nat),
    decreases v,
{
    if v >= 10 {
        append_decimal(s, v / 10);
    }
    s.append(digit_str(v % 10));
    assert(s@ =~= old(s)@ + decimal(v as nat));
}

/// Number of decimal digits of `v`.
fn decimal_len(v: u16) -> (n: usize)
    ensures
        n == decimal(v as nat).len(),
        1 <= n <= 5,
{
    proof {
        reveal_with_fuel(decimal, 5);
    }
    if v < 10 {
        1
    } else if v < 100 {
        2
    } else if v < 1000 {
        3
    } else if v < 10000 {
        4
    } else {
        5
    }
}

/// The text of each label.
pub open spec fn label_text(label: Label) -> Seq<char> {
    match label {
        Label::AirQualityMonitor => "Air Quality Monitor"@,
        Label::LastHour => "Last Hour"@,
        Label::Last24h => "Last 24h"@,
        Label::Hourly24h => "24h Hourly"@,
        Label::CollectingData => "Collecting data..."@,
        Label::NoData => "No data"@,
    }
}

/// Bytes of the buffer that holds the "now / max" line. Whole pieces of the
/// line are kept only while they fit; its pieces are all ASCII, one byte per
/// character. The value lines (at most 25 bytes) always fit their 64 bytes.
pub const NOW_MAX_CAPACITY: usize = 16;

/// The "now / max" line: `now: N max: M`, without `M` when the whole line
/// does not fit in `NOW_MAX_CAPACITY` bytes (the first three pieces always do).
pub open spec fn now_max_text(now: u16, max: u16) -> Seq<char> {
    let head = "now: "@ + decimal(now as nat) + " max: "@;
    if head.len() + decimal(max as nat).len() <= NOW_MAX_CAPACITY {
        head + decimal(max as nat)
    } else {
        head
    }
}

/// What a text on the display reads.
pub open spec fn spec_text(kind: TextKind) -> Seq<char> {
    match kind {
        TextKind::Label(label) => label_text(label),
        TextKind::Pm1_0(v) => "PM 1.0: "@ + decimal(v as nat) + " µg/m³    "@,
        TextKind::Pm2_5(v) => "PM 2.5: "@ + decimal(v as nat) + " µg/m³    "@,
        TextKind::Pm10(v) => "PM 10:  "@ + decimal(v as nat) + " µg/m³    "@,
        TextKind::NowMax { now, max } => now_max_text(now, max),
    }
}

impl Label {
    /// The text of this label.
    pub fn text(self) -> (s: &'static str)
        ensures
            s@ == label_text(self),
    {
        match self {
            Label::AirQualityMonitor => "Air Quality Monitor",
            Label::LastHour => "Last Hour",
            Label::Last24h => "Last 24h",
            Label::Hourly24h => "24h Hourly",
            Label::CollectingData => "Collecting data...",
            Label::NoData => "No data",
        }
    }
}

/// A value line: the prefix, the value, and the unit.
fn value_line(prefix: &str, v: u16) -> (s: String)
    ensures
        s@ == prefix@ + decimal(v as nat) + " µg/m³    "@,
{
    let mut s = String::from_str(prefix);
    append_decimal(&mut s, v);
    s.append(" µg/m³    ");
    s
}

impl TextKind {
    /// The text as the display shows it.
    pub fn text(self) -> (s: String)
        ensures
            s@ == spec_text(self),
    {
        match self {
            TextKind::Label(label) => String::from_str(label.text()),
            TextKind::Pm1_0(v) => value_line("PM 1.0: ", v),
            TextKind::Pm2_5(v) => value_line("PM 2.5: ", v),
            TextKind::Pm10(v) => value_line("PM 10:  ", v),
            TextKind::NowMax { now, max } => {
                let mut s = String::from_str("now: ");
                append_decimal(&mut s, now);
                s.append(" max: ");
                proof {
                    reveal_strlit("now: ");
                    reveal_strlit(" max: ");
                }
                let head_len: usize = 5 + decimal_len(now) + 6;
                if head_len + decimal_len(max) <= NOW_MAX_CAPACITY {
                    append_decimal(&mut s, max);
                }
                s
            },
        }
    }
}

} // verus!
