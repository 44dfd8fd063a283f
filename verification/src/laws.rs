//! Properties of the library stated in plain arithmetic over its inputs:
//! sums and digits as `vstd` folds them, largest values by comparison, zones
//! by their numeric ranges.
use vstd::prelude::*;
use crate::color::{AqiLevel, Ink};
use crate::monitor::sample_due;
use crate::sensor::PmsReading;
use crate::text::{decimal, digit_char, spec_text};
use crate::color::spec_aqi_level;
use crate::ui::{
    DrawOp, TextKind, ViewMode, render_ops, sum_of, max_of, bucket_average, graph_window, graph_columns,
    graph_column_ops, column_average, hourly_bars, hour_bar_ops, bar_columns, hour_average, lemma_max_bounds,
};

verus! {

/// The sum of the samples, as `vstd`'s left fold computes it.
pub open spec fn total(s: Seq<u16>) -> int {
    s.fold_left(0int, |acc: int, x: u16| acc + x as int)
}

/// `v` is the integer mean (rounded down) of the non-empty samples `s`.
pub open spec fn is_mean(v: int, s: Seq<u16>) -> bool {
    &&& s.len() > 0
    &&& v * s.len() <= total(s) < (v + 1) * s.len()
}

/// `m` is the largest of the non-empty samples `s`.
pub open spec fn is_largest(m: int, s: Seq<u16>) -> bool {
    &&& forall|i: int| 0 <= i < s.len() ==> s[i] <= m
    &&& exists|i: int| 0 <= i < s.len() && s[i] == m
}

/// The number that a string of decimal digits reads as.
pub open spec fn digits_value(s: Seq<char>) -> int {
    s.fold_left(0int, |acc: int, c: char| acc * 10 + (c as int - 48))
}

/// `s` is how `v` is written in decimal: digits only, no leading zero, and
/// reading back as `v`.
pub open spec fn writes_decimal(s: Seq<char>, v: int) -> bool {
    &&& s.len() >= 1
    &&& forall|i: int| 0 <= i < s.len() ==> 48 <= #[trigger] s[i] as int <= 57
    &&& (s.len() > 1 ==> s[0] != '0')
    &&& digits_value(s) == v
}

/// A frame is recorded exactly when at least five whole seconds have passed
/// since the last sample; a later frame is never refused where an earlier
/// one was taken.
pub proof fn lemma_sampling_interval(last_us: u64, now_us: u64, later_us: u64)
    requires
        last_us <= now_us <= later_us,
    ensures
        sample_due(last_us, now_us) <==> now_us - last_us >= 5_000_000,
        sample_due(last_us, now_us) ==> sample_due(last_us, later_us),
{
}

/// The live screen inks its PM2.5 line by the PM2.5 value alone: green up to
/// 12, yellow 13-35, orange 36-55, red above.
pub proof fn lemma_live_pm25_ink(frame: PmsReading, history: Seq<u16>, force_redraw: bool)
    ensures
        ({
            let ops = render_ops(frame, history, ViewMode::Live, force_redraw);
            let i: int = if force_redraw { 3 } else { 2 };
            let pm = frame.pm2_5_atm;
            let zone = if pm <= 12 {
                AqiLevel::Good
            } else if pm <= 35 {
                AqiLevel::Moderate
            } else if pm <= 55 {
                AqiLevel::Sensitive
            } else {
                AqiLevel::Unhealthy
            };
            &&& ops.len() == i + 2
            &&& ops[i] == DrawOp::Text { text: TextKind::Pm2_5(pm), x: 10, y: 100, ink: Ink::Aqi(zone) }
        }),
{
}

proof fn lemma_digit_char(d: int)
    requires
        0 <= d < 10,
    ensures
        digit_char(d) as int == 48 + d,
{
}

/// Every number is written in decimal on the display as its digits.
pub proof fn lemma_decimal_reads_back(v: nat)
    ensures
        writes_decimal(decimal(v), v as int),
    decreases v,
{
    if v < 10 {
        lemma_digit_char(v as int);
        let s = decimal(v);
        assert(s.drop_last() =~= Seq::<char>::empty());
        assert(digits_value(s.drop_last()) == 0);
        assert(digits_value(s) == digits_value(s.drop_last()) * 10 + (s.last() as int - 48));
        assert(s.len() == 1);
        assert forall|i: int| 0 <= i < s.len() implies 48 <= #[trigger] s[i] as int <= 57 by {
            assert(i == 0);
        }
        assert(digits_value(s) == v);
    } else {
        lemma_decimal_reads_back(v / 10);
        lemma_digit_char((v % 10) as int);
        let s = decimal(v);
        let p = decimal(v / 10);
        assert(s.drop_last() =~= p);
        assert(digits_value(s) == digits_value(s.drop_last()) * 10 + (s.last() as int - 48));
        assert(s.last() == digit_char((v % 10) as int));
        assert(v == (v / 10) * 10 + v % 10);
        assert forall|i: int| 0 <= i < s.len() implies 48 <= #[trigger] s[i] as int <= 57 by {
            if i < p.len() {
                assert(s[i] == p[i]);
            }
        }
        assert(s[0] == p[0]);
        if v / 10 < 10 {
            lemma_digit_char((v / 10) as int);
            assert(('0' as int) == 48);
            assert(p[0] == digit_char((v / 10) as int));
        } else {
            lemma_decimal_reads_back(v / 100);
            assert(v / 10 / 10 == v / 100);
            assert(p.len() > 1);
        }
        assert(digits_value(s) == v);
        assert(s.len() > 1);
        assert(s[0] != '0');
    }
}

/// The value lines read `PM 1.0: `, `PM 2.5: ` or `PM 10:  `, the value in
/// decimal, then the unit.
pub proof fn lemma_value_lines(v: u16)
    ensures
        exists|d: Seq<char>| writes_decimal(d, v as int)
            && spec_text(TextKind::Pm1_0(v)) == "PM 1.0: "@ + d + " µg/m³    "@
            && spec_text(TextKind::Pm2_5(v)) == "PM 2.5: "@ + d + " µg/m³    "@
            && spec_text(TextKind::Pm10(v)) == "PM 10:  "@ + d + " µg/m³    "@,
{
    lemma_decimal_reads_back(v as nat);
    let d = decimal(v as nat);
    assert(writes_decimal(d, v as int));
}

/// The now/max line reads `now: N max: M` in decimal, leaving `M` off when
/// the whole line would be longer than 16 characters.
pub proof fn lemma_now_max_line(now: u16, max: u16)
    ensures
        exists|a: Seq<char>, b: Seq<char>|
            #![trigger writes_decimal(a, now as int), writes_decimal(b, max as int)]
            writes_decimal(a, now as int) && writes_decimal(b, max as int)
            && spec_text(TextKind::NowMax { now: now, max: max }) == if 11 + a.len() + b.len() <= 16 {
                "now: "@ + a + " max: "@ + b
            } else {
                "now: "@ + a + " max: "@
            },
{
    lemma_decimal_reads_back(now as nat);
    lemma_decimal_reads_back(max as nat);
    reveal_strlit("now: ");
    reveal_strlit(" max: ");
    let a = decimal(now as nat);
    let b = decimal(max as nat);
    assert(("now: "@ + a + " max: "@).len() == 11 + a.len());
    assert(spec_text(TextKind::NowMax { now: now, max: max }) == if 11 + a.len() + b.len() <= 16 {
        "now: "@ + a + " max: "@ + b
    } else {
        "now: "@ + a + " max: "@
    });
    assert(writes_decimal(a, now as int) && writes_decimal(b, max as int));
}


/// The health zone of a PM2.5 value: 0-12 good, 13-35 moderate, 36-55
/// unhealthy for sensitive groups, above 55 unhealthy.
pub open spec fn zone(pm: int) -> AqiLevel {
    if pm <= 12 {
        AqiLevel::Good
    } else if pm <= 35 {
        AqiLevel::Moderate
    } else if pm <= 55 {
        AqiLevel::Sensitive
    } else {
        AqiLevel::Unhealthy
    }
}

proof fn lemma_zone(pm: int)
    requires
        pm >= 0,
    ensures
        spec_aqi_level(pm) == zone(pm),
{
}

proof fn lemma_sum_is_total(s: Seq<u16>)
    ensures
        sum_of(s) == total(s),
    decreases s.len(),
{
    if s.len() > 0 {
        lemma_sum_is_total(s.drop_last());
    }
}

/// `bucket_average` is the mean of the samples it covers, or 0 for none.
proof fn lemma_bucket_mean(s: Seq<u16>, start: int, end: int)
    requires
        0 <= start,
    ensures
        ({
            let stop = if end < s.len() { end } else { s.len() as int };
            &&& bucket_average(s, start, end) >= 0
            &&& start < stop ==> is_mean(bucket_average(s, start, end), s.subrange(start, stop))
            &&& start >= stop ==> bucket_average(s, start, end) == 0
        }),
{
    let stop = if end < s.len() { end } else { s.len() as int };
    if start < stop {
        let sub = s.subrange(start, stop);
        lemma_sum_is_total(sub);
        lemma_max_bounds(s);
        let sum = sum_of(sub);
        let cnt = stop - start;
        let q = sum / cnt;
        assert(sub.len() == cnt);
        assert(sum >= 0) by {
            assert forall|i: int| 0 <= i < sub.len() implies sub[i] <= 65535 by {}
            lemma_sum_nonneg(sub);
        }
        assert(q * cnt <= sum < (q + 1) * cnt && q >= 0) by (nonlinear_arith)
            requires q == sum / cnt, cnt > 0, sum >= 0;
    }
}

proof fn lemma_sum_nonneg(s: Seq<u16>)
    ensures
        sum_of(s) >= 0,
    decreases s.len(),
{
    if s.len() > 0 {
        lemma_sum_nonneg(s.drop_last());
    }
}

/// The first line of every graph column appears among the graph's lines.
proof fn lemma_columns_contain(window: Seq<u16>, ws: int, max: int, n: nat, x: int)
    requires
        0 <= x < n,
    ensures
        exists|j: int| 0 <= j < graph_columns(window, ws, max, n).len()
            && graph_columns(window, ws, max, n)[j] == graph_column_ops(window, ws, max, x)[0],
    decreases n,
{
    let prev = graph_columns(window, ws, max, (n - 1) as nat);
    let all = graph_columns(window, ws, max, n);
    assert(all == prev + graph_column_ops(window, ws, max, n - 1));
    if x == n - 1 {
        assert(all[prev.len() as int] == graph_column_ops(window, ws, max, x)[0]);
    } else {
        lemma_columns_contain(window, ws, max, (n - 1) as nat, x);
        let j = choose|j: int| 0 <= j < prev.len() && prev[j] == graph_column_ops(window, ws, max, x)[0];
        assert(all[j] == prev[j]);
    }
}

/// The mean (rounded down) of `history[lo..hi]`, or 0 when that is empty.
pub open spec fn slot_mean(history: Seq<u16>, lo: int, hi: int) -> int {
    if lo < hi { total(history.subrange(lo, hi)) / (hi - lo) } else { 0 }
}

/// The slot of column `x` of a timeline of `ws` slots: the part of the
/// newest `k` samples that it covers, as indices into those samples.
pub open spec fn column_slot(ws: int, k: int, x: int) -> (int, int) {
    let shift = ws - k;
    let a0 = x * ws / 300 - shift;
    let b0 = (x + 1) * ws / 300 - shift;
    let a = if a0 > 0 { a0 } else { 0 };
    let b1 = if b0 > 0 { b0 } else { 0 };
    (a, if b1 < k { b1 } else { k })
}

/// A bar line of a graph: from the baseline up to the scaled value, in the
/// value's zone color.
pub open spec fn bar_line(x: int, v: int, height: int, m: int) -> DrawOp {
    DrawOp::Line {
        x: x as i32,
        y_from: 160,
        y_to: (160 - v * height / (if m > 0 { m } else { 1 })) as i32,
        ink: Ink::Aqi(zone(v)),
    }
}

proof fn lemma_slot_mean(s: Seq<u16>, start: int, end: int)
    requires
        0 <= start,
    ensures
        ({
            let stop = if end < s.len() { end } else { s.len() as int };
            &&& bucket_average(s, start, end) == slot_mean(s, start, stop)
            &&& bucket_average(s, start, end) >= 0
        }),
{
    let stop = if end < s.len() { end } else { s.len() as int };
    lemma_bucket_mean(s, start, end);
    if start < stop {
        lemma_sum_is_total(s.subrange(start, stop));
    }
}

/// The trend graphs (last hour: 60 minutes, last 24 hours: 1440 minutes)
/// show the newest `k = min(len, minutes * 60 / 5)` samples. Their now/max
/// line gives the newest sample and the largest of those samples. Column `x`
/// covers the slots from `x * ws / 300` up to `(x + 1) * ws / 300` of a
/// timeline of `ws` slots ending with the newest sample, and draws a bar in
/// the zone color of the mean of the samples there (0 for none), scaled so
/// that the largest sample (or 1 when all are 0) reaches 110 pixels.
#[verifier::rlimit(60)]
pub proof fn lemma_trend_graph(frame: PmsReading, history: Seq<u16>, mode: ViewMode, force_redraw: bool, x: int)
    requires
        history.len() > 0,
        mode is LastHour || mode is LastDay,
        0 <= x < 300,
    ensures
        ({
            let ops = render_ops(frame, history, mode, force_redraw);
            let n = history.len() as int;
            let ws: int = if mode is LastHour { 60int * 60 / 5 } else { 1440int * 60 / 5 };
            let k: int = if n < ws { n } else { ws };
            let newest = history.subrange(n - k, n);
            let m = max_of(newest);
            let i: int = if force_redraw { 2 } else { 0 };
            let (a, b) = column_slot(ws, k, x);
            let v = slot_mean(history, n - k + a, n - k + b);
            &&& is_largest(m, newest)
            &&& ops[i] == (DrawOp::Text { text: TextKind::NowMax { now: history[n - 1], max: m as u16 }, x: 160, y: 30, ink: Ink::White })
            &&& exists|j: int| 0 <= j < ops.len() && ops[j] == bar_line(10 + x, v, 110, m)
        }),
{
    let n = history.len() as int;
    let minutes: int = if mode is LastHour { 60 } else { 1440 };
    let ws: int = minutes * 12;
    let k: int = if n < ws { n } else { ws };
    let window = graph_window(history, ws);
    assert(window =~= history.subrange(n - k, n));
    let max = max_of(window);
    lemma_max_bounds(window);
    assert(is_largest(max, window));
    let title = if mode is LastHour { crate::ui::Label::LastHour } else { crate::ui::Label::Last24h };
    let view = crate::ui::graph_view_ops(history, title, minutes, force_redraw);
    let clear: Seq<DrawOp> = if force_redraw { seq![DrawOp::Clear] } else { seq![] };
    let ops = render_ops(frame, history, mode, force_redraw);
    let head = crate::ui::title_ops(title, force_redraw).push(DrawOp::Text {
        text: TextKind::NowMax { now: history.last(), max: max as u16 }, x: 160, y: 30, ink: Ink::White });
    let cols = graph_columns(window, ws, max, 300);
    assert(ops == clear + (head + cols)) by {
        assert(view == head + cols);
    }
    let i: int = if force_redraw { 2 } else { 0 };
    assert(ops[i] == head[head.len() - 1]);
    let (a, b) = column_slot(ws, k, x);
    let shift = ws - k;
    let avg = column_average(window, ws, x);
    assert(avg == slot_mean(history, n - k + a, n - k + b) && avg >= 0) by {
        lemma_slot_mean(window, crate::ui::sat_sub(x * ws / 300, shift), crate::ui::sat_sub((x + 1) * ws / 300, shift));
        if a < b {
            assert(window.subrange(a, b) =~= history.subrange(n - k + a, n - k + b));
        }
    }
    lemma_zone(avg);
    lemma_columns_contain(window, ws, max, 300, x);
    let j = choose|j: int| 0 <= j < cols.len() && cols[j] == graph_column_ops(window, ws, max, x)[0];
    let jj = clear.len() + head.len() + j;
    assert(ops[jj] == cols[j]);
    assert(ops[jj] == bar_line(10 + x, avg, 110, max));
}

proof fn lemma_bar_columns(x0: int, y: int, ink: Ink, n: nat)
    ensures
        bar_columns(x0, y, ink, n).len() == 2 * n,
        n > 0 ==> bar_columns(x0, y, ink, n)[0] == (DrawOp::Line { x: x0 as i32, y_from: 160, y_to: y as i32, ink: ink }),
    decreases n,
{
    if n > 0 {
        lemma_bar_columns(x0, y, ink, (n - 1) as nat);
    }
}

proof fn lemma_hour_bar(history: Seq<u16>, max: int, h: int)
    ensures
        hour_bar_ops(history, max, h).len() == 20,
        hour_bar_ops(history, max, h)[0] == (DrawOp::Line {
            x: (20 + 12 * h) as i32,
            y_from: 160,
            y_to: crate::ui::bar_top(hour_average(history, h), 100, max) as i32,
            ink: Ink::Aqi(spec_aqi_level(hour_average(history, h))),
        }),
{
    let avg = hour_average(history, h);
    lemma_bar_columns(25 + h * 12 - 5, crate::ui::bar_top(avg, 100, max), Ink::Aqi(spec_aqi_level(avg)), 10);
}

proof fn lemma_hourly_bars(history: Seq<u16>, max: int, n: nat, h: int)
    requires
        0 <= h < n,
    ensures
        hourly_bars(history, max, n).len() == 20 * n,
        hourly_bars(history, max, n)[20 * h] == hour_bar_ops(history, max, h)[0],
    decreases n,
{
    let prev = hourly_bars(history, max, (n - 1) as nat);
    assert(hourly_bars(history, max, n) == prev + hour_bar_ops(history, max, n - 1));
    lemma_hour_bar(history, max, n - 1);
    if n == 1 {
        assert(prev.len() == 0);
    } else if h < n - 1 {
        lemma_hourly_bars(history, max, (n - 1) as nat, h);
    } else {
        lemma_hourly_bars(history, max, (n - 1) as nat, 0);
    }
}

/// The hour slots: 720 samples each, ending with the newest sample while the
/// history holds at most 17280 (the first 17280 otherwise).
pub open spec fn hour_slot(n: int, h: int) -> (int, int) {
    let shift = if n < 17280 { 17280 - n } else { 0 };
    let a0 = 720 * h - shift;
    let b0 = 720 * (h + 1) - shift;
    let a = if a0 > 0 { a0 } else { 0 };
    let b1 = if b0 > 0 { b0 } else { 0 };
    (a, if b1 < n { b1 } else { n })
}

/// The hourly view draws hour `h` (0 = oldest) as a bar ten pixels wide
/// from x = 20 + 12 h, in the zone color of the mean of the samples in its
/// slot (0 for none), scaled so that the largest sample (or 1 when all are 0)
/// reaches 100 pixels; its now/max line gives the newest and the largest
/// sample.
#[verifier::rlimit(60)]
pub proof fn lemma_hourly_view(frame: PmsReading, history: Seq<u16>, force_redraw: bool, h: int)
    requires
        history.len() > 0,
        0 <= h < 24,
    ensures
        ({
            let ops = render_ops(frame, history, ViewMode::Hourly, force_redraw);
            let n = history.len() as int;
            let m = max_of(history);
            let (a, b) = hour_slot(n, h);
            let v = slot_mean(history, a, b);
            let i: int = if force_redraw { 2 } else { 0 };
            &&& is_largest(m, history)
            &&& ops[i] == (DrawOp::Text { text: TextKind::NowMax { now: history[n - 1], max: m as u16 }, x: 160, y: 30, ink: Ink::White })
            &&& ops[i + 1 + 20 * h] == bar_line(20 + 12 * h, v, 100, m)
        }),
{
    let n = history.len() as int;
    let max = max_of(history);
    lemma_max_bounds(history);
    assert(is_largest(max, history));
    let view = crate::ui::hourly_view_ops(history, force_redraw);
    let clear: Seq<DrawOp> = if force_redraw { seq![DrawOp::Clear] } else { seq![] };
    let ops = render_ops(frame, history, ViewMode::Hourly, force_redraw);
    let head = crate::ui::title_ops(crate::ui::Label::Hourly24h, force_redraw).push(DrawOp::Text {
        text: TextKind::NowMax { now: history.last(), max: max as u16 }, x: 160, y: 30, ink: Ink::White });
    let bars = hourly_bars(history, max, 24);
    assert(ops == clear + (head + bars)) by {
        assert(view == head + bars);
    }
    let i: int = if force_redraw { 2 } else { 0 };
    assert(ops[i] == head[head.len() - 1]);
    let avg = hour_average(history, h);
    let (a, b) = hour_slot(n, h);
    let shift = if n < 17280 { 17280 - n } else { 0 };
    assert(avg == slot_mean(history, a, b) && avg >= 0) by {
        lemma_slot_mean(history, crate::ui::sat_sub(h * 720, shift), crate::ui::sat_sub((h + 1) * 720, shift));
    }
    lemma_zone(avg);
    lemma_hourly_bars(history, max, 24, h);
    lemma_hour_bar(history, max, h);
    assert(ops[i + 1 + 20 * h] == bars[20 * h]);
}

} // verus!
