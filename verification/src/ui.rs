use vstd::prelude::*;
use crate::color::{AqiLevel, Ink, spec_aqi_level, aqi_level};
use crate::sensor::PmsReading;

verus! {

/// Top edge of the graph area, in pixels.
pub const GRAPH_TOP: i32 = 50;
/// Bottom edge (baseline) of the graph area.
pub const GRAPH_BOTTOM: i32 = 160;
/// Left edge of the graph area.
pub const GRAPH_LEFT: i32 = 10;
/// Width of the graph area: one column per pixel.
pub const GRAPH_WIDTH: i32 = 300;
/// Height of the graph area.
pub const GRAPH_HEIGHT: i32 = 110;
/// Hours of history the monitor keeps.
pub const HISTORY_HOURS: usize = 24;
/// Seconds between two samples of the history.
pub const SAMPLE_INTERVAL_SECS: u64 = 5;
/// Samples per minute of history.
pub const SAMPLES_PER_MIN: usize = 12;
/// Samples the history holds: 24 hours at one sample every 5 seconds.
pub const MAX_HISTORY: usize = 17280;
/// Samples that make up one hour.
pub const SAMPLES_PER_HOUR: usize = 720;
/// Half the width of a bar of the hourly view.
pub const BAR_HALF_WIDTH: i32 = 5;
/// Height that the tallest bar of the hourly view reaches.
pub const HOURLY_BAR_HEIGHT: i32 = 100;
/// Minutes of the "last hour" graph.
pub const LAST_HOUR_MINUTES: usize = 60;
/// Minutes of the "last 24 hours" graph.
pub const LAST_DAY_MINUTES: usize = 1440;

/// The screen shown; the button cycles through them.
#[derive(Copy, Clone, Debug, PartialEq, Eq)]
pub enum ViewMode {
    Live,
    LastHour,
    LastDay,
    Hourly,
}

/// The screen that follows `m` in the cycle Live, LastHour, LastDay, Hourly.
pub open spec fn spec_next(m: ViewMode) -> ViewMode {
    match m {
        ViewMode::Live => ViewMode::LastHour,
        ViewMode::LastHour => ViewMode::LastDay,
        ViewMode::LastDay => ViewMode::Hourly,
        ViewMode::Hourly => ViewMode::Live,
    }
}

impl ViewMode {
    /// The screen shown after one press of the button.
    pub fn next(self) -> (m: Self)
        ensures
            m == spec_next(self),
    {
        match self {
            Self::Live => Self::LastHour,
            Self::LastHour => Self::LastDay,
            Self::LastDay => Self::Hourly,
            Self::Hourly => Self::Live,
        }
    }
}

/// Four presses of the button bring back the screen one started from, and
/// the four screens met on the way are all different.
pub proof fn lemma_view_cycle(m: ViewMode)
    ensures
        spec_next(spec_next(spec_next(spec_next(m)))) == m,
        m != spec_next(m),
        m != spec_next(spec_next(m)),
        m != spec_next(spec_next(spec_next(m))),
{
}

/// Fixed texts of the display.
#[derive(Copy, Clone, Debug, PartialEq, Eq)]
pub enum Label {
    AirQualityMonitor,
    LastHour,
    Last24h,
    Hourly24h,
    CollectingData,
    NoData,
}

/// What a text on the display says.
#[derive(Copy, Clone, Debug, PartialEq, Eq)]
pub enum TextKind {
    Label(Label),
    /// The PM1.0 line, with its value.
    Pm1_0(u16),
    /// The PM2.5 line, with its value.
    Pm2_5(u16),
    /// The PM10 line, with its value.
    Pm10(u16),
    /// The newest sample and the largest one shown.
    NowMax { now: u16, max: u16 },
}

/// One drawing step; texts are drawn on a black background.
#[derive(Copy, Clone, Debug, PartialEq, Eq)]
pub enum DrawOp {
    /// Fill the whole display with black.
    Clear,
    /// Draw a text with its top-left baseline point at (x, y).
    Text { text: TextKind, x: i32, y: i32, ink: Ink },
    /// Draw a one-pixel vertical line at column x from y_from to y_to.
    Line { x: i32, y_from: i32, y_to: i32, ink: Ink },
}

/// Sum of a sequence of samples.
pub open spec fn sum_of(s: Seq<u16>) -> int
    decreases s.len(),
{
    if s.len() == 0 {
        0
    } else {
        sum_of(s.drop_last()) + s.last() as int
    }
}

/// Largest sample of a sequence (0 for none).
pub open spec fn max_of(s: Seq<u16>) -> int
    decreases s.len(),
{
    if s.len() == 0 {
        0
    } else {
        let m = max_of(s.drop_last());
        if s.last() as int > m { s.last() as int } else { m }
    }
}

/// `a - b`, or 0 where that is negative.
pub open spec fn sat_sub(a: int, b: int) -> int {
    if a > b { a - b } else { 0 }
}

/// Integer average of `s[start..min(end, len)]`, or 0 where that range is
/// empty or starts past the end.
pub open spec fn bucket_average(s: Seq<u16>, start: int, end: int) -> int {
    let stop = if end < s.len() { end } else { s.len() as int };
    if start < s.len() && end > start {
        sum_of(s.subrange(start, stop)) / (stop - start)
    } else {
        0
    }
}

proof fn lemma_sum_bound(s: Seq<u16>, m: int)
    requires
        forall|i: int| 0 <= i < s.len() ==> s[i] <= m,
        m >= 0,
    ensures
        0 <= sum_of(s) <= s.len() * m,
    decreases s.len(),
{
    if s.len() > 0 {
        lemma_sum_bound(s.drop_last(), m);
        assert(s.drop_last().len() * m + m == s.len() * m) by (nonlinear_arith)
            requires s.drop_last().len() + 1 == s.len();
    }
}

pub(crate) proof fn lemma_max_bounds(s: Seq<u16>)
    ensures
        forall|i: int| 0 <= i < s.len() ==> s[i] <= max_of(s),
        s.len() > 0 ==> exists|i: int| 0 <= i < s.len() && s[i] == max_of(s),
        0 <= max_of(s) <= 65535,
    decreases s.len(),
{
    if s.len() > 0 {
        lemma_max_bounds(s.drop_last());
        assert forall|i: int| 0 <= i < s.len() implies s[i] <= max_of(s) by {
            if i < s.len() - 1 {
                assert(s[i] == s.drop_last()[i]);
            }
        }
        if s.last() as int > max_of(s.drop_last()) {
            assert(s[s.len() - 1] == max_of(s));
        } else if s.len() > 1 {
            let j = choose|j: int| 0 <= j < s.drop_last().len() && s.drop_last()[j] == max_of(s.drop_last());
            assert(s[j] == max_of(s));
        } else {
            assert(s[0] == max_of(s));
        }
    }
}

/// The average of `data[lo..hi]`, with its bound.
fn range_average(data: &[u16], lo: usize, hi: usize) -> (avg: u32)
    requires
        lo < hi <= data.len(),
        hi - lo <= MAX_HISTORY,
    ensures
        avg == sum_of(data@.subrange(lo as int, hi as int)) / ((hi - lo) as int),
        avg <= 65535,
{
    let mut sum: u32 = 0;
    let mut i: usize = lo;
    while i < hi
        invariant
            lo <= i <= hi <= data.len(),
            hi - lo <= MAX_HISTORY,
            sum == sum_of(data@.subrange(lo as int, i as int)),
            sum <= (i - lo) * 65535,
        decreases hi - i,
    {
        assert(data@.subrange(lo as int, i + 1).drop_last() =~= data@.subrange(lo as int, i as int));
        assert((i - lo) * 65535 + 65535 <= MAX_HISTORY * 65535) by (nonlinear_arith)
            requires i - lo + 1 <= MAX_HISTORY;
        sum = sum + data[i] as u32;
        assert((i - lo) * 65535 + 65535 == (i + 1 - lo) * 65535) by (nonlinear_arith);
        i = i + 1;
    }
    let count: u32 = (hi - lo) as u32;
    proof {
        lemma_sum_bound(data@.subrange(lo as int, hi as int), 65535);
        assert(sum / count <= 65535) by (nonlinear_arith)
            requires sum <= count * 65535, count > 0;
    }
    sum / count
}

/// The largest of `data[lo..]`.
fn max_from(data: &[u16], lo: usize) -> (m: u16)
    requires
        lo <= data.len(),
    ensures
        m == max_of(data@.subrange(lo as int, data@.len() as int)),
{
    let mut m: u16 = 0;
    let mut i: usize = lo;
    while i < data.len()
        invariant
            lo <= i <= data.len(),
            m == max_of(data@.subrange(lo as int, i as int)),
        decreases data.len() - i,
    {
        assert(data@.subrange(lo as int, i + 1).drop_last() =~= data@.subrange(lo as int, i as int));
        if data[i] > m {
            m = data[i];
        }
        i = i + 1;
    }
    m
}


/// The samples that a graph of `window_samples` slots shows: the newest ones.
pub open spec fn graph_window(history: Seq<u16>, window_samples: int) -> Seq<u16> {
    history.subrange(sat_sub(history.len() as int, window_samples), history.len() as int)
}

/// The average drawn in column `x` of a graph: the timeline has
/// `window_samples` slots, right-justified so that the newest sample is at the
/// right edge, and column `x` covers the slots from `x * ws / 300` up to
/// `(x + 1) * ws / 300`.
pub open spec fn column_average(window: Seq<u16>, window_samples: int, x: int) -> int {
    let shift = sat_sub(window_samples, window.len() as int);
    bucket_average(
        window,
        sat_sub(x * window_samples / 300, shift),
        sat_sub((x + 1) * window_samples / 300, shift),
    )
}

/// The scale of a graph whose largest value is `max`: that value, or 1 when
/// every value is 0 (clean air), so that all bars are then empty.
pub open spec fn scale_of(max: int) -> int {
    if max > 0 { max } else { 1 }
}

/// The top of a bar of value `avg` in a graph `height` pixels tall whose
/// largest value is `max`.
pub open spec fn bar_top(avg: int, height: int, max: int) -> int {
    GRAPH_BOTTOM - avg * height / scale_of(max)
}

/// The lines of graph column `x`: a bar in the zone color from the baseline
/// up to its top, and black above it up to the top of the graph.
pub open spec fn graph_column_ops(window: Seq<u16>, window_samples: int, max: int, x: int) -> Seq<DrawOp> {
    let avg = column_average(window, window_samples, x);
    let y = bar_top(avg, GRAPH_HEIGHT as int, max);
    let cx = (GRAPH_LEFT + x) as i32;
    let bar = seq![DrawOp::Line { x: cx, y_from: GRAPH_BOTTOM, y_to: y as i32, ink: Ink::Aqi(spec_aqi_level(avg)) }];
    if y > GRAPH_TOP {
        bar.push(DrawOp::Line { x: cx, y_from: (y - 1) as i32, y_to: GRAPH_TOP, ink: Ink::Black })
    } else {
        bar
    }
}

/// The lines of the first `n` graph columns, left to right.
pub open spec fn graph_columns(window: Seq<u16>, window_samples: int, max: int, n: nat) -> Seq<DrawOp>
    decreases n,
{
    if n == 0 {
        seq![]
    } else {
        graph_columns(window, window_samples, max, (n - 1) as nat) + graph_column_ops(window, window_samples, max, n - 1)
    }
}

/// The title, drawn only when the whole screen is redrawn.
pub open spec fn title_ops(title: Label, force_redraw: bool) -> Seq<DrawOp> {
    if force_redraw {
        seq![DrawOp::Text { text: TextKind::Label(title), x: 10, y: 30, ink: Ink::Cyan }]
    } else {
        seq![]
    }
}

/// The drawing of a trend graph over the last `window_minutes` minutes.
pub open spec fn graph_view_ops(history: Seq<u16>, title: Label, window_minutes: int, force_redraw: bool) -> Seq<DrawOp> {
    let head = title_ops(title, force_redraw);
    if history.len() == 0 {
        head.push(DrawOp::Text { text: TextKind::Label(Label::CollectingData), x: GRAPH_LEFT, y: 70, ink: Ink::White })
    } else {
        let ws = window_minutes * SAMPLES_PER_MIN;
        let window = graph_window(history, ws);
        let max = max_of(window);
        head.push(DrawOp::Text { text: TextKind::NowMax { now: history.last(), max: max as u16 }, x: 160, y: 30, ink: Ink::White })
            + graph_columns(window, ws, max, GRAPH_WIDTH as nat)
    }
}

/// Appends the drawing of a trend graph over the last `window_minutes` minutes.
#[verifier::rlimit(40)]
pub(crate) fn draw_graph_view(
    ops: &mut Vec<DrawOp>,
    history: &[u16],
    title: Label,
    window_minutes: usize,
    force_redraw: bool,
)
    requires
        window_minutes <= LAST_DAY_MINUTES,
    ensures
        final(ops)@ == old(ops)@ + graph_view_ops(history@, title, window_minutes as int, force_redraw),
{
    if force_redraw {
        ops.push(DrawOp::Text { text: TextKind::Label(title), x: 10, y: 30, ink: Ink::Cyan });
    }
    let ghost head = title_ops(title, force_redraw);
    assert(ops@ == old(ops)@ + head);
    if history.len() == 0 {
        ops.push(DrawOp::Text { text: TextKind::Label(Label::CollectingData), x: GRAPH_LEFT, y: GRAPH_TOP + 20, ink: Ink::White });
        return;
    }
    let ws: usize = window_minutes * SAMPLES_PER_MIN;
    let len: usize = history.len();
    let start: usize = if len > ws { len - ws } else { 0 };
    let wl: usize = len - start;
    let ghost window = graph_window(history@, ws as int);
    assert(window =~= history@.subrange(start as int, len as int));
    let max_val: u16 = max_from(history, start);
    let now_val: u16 = history[len - 1];
    ops.push(DrawOp::Text { text: TextKind::NowMax { now: now_val, max: max_val }, x: 160, y: 30, ink: Ink::White });
    let shift: usize = if ws > wl { ws - wl } else { 0 };
    let ghost base = ops@;
    let mut x: usize = 0;
    while x < 300
        invariant
            0 <= x <= 300,
            ws == window_minutes * SAMPLES_PER_MIN,
            ws <= MAX_HISTORY,
            len == history.len(),
            start == sat_sub(len as int, ws as int),
            wl == len - start,
            wl == window.len(),
            window == history@.subrange(start as int, len as int),
            shift == sat_sub(ws as int, wl as int),
            max_val == max_of(window),
            ops@ == base + graph_columns(window, ws as int, max_val as int, x as nat),
        decreases 300 - x,
    {
        assert(x * ws <= 300 * MAX_HISTORY) by (nonlinear_arith)
            requires x < 300, ws <= MAX_HISTORY;
        assert((x + 1) * ws <= 300 * MAX_HISTORY) by (nonlinear_arith)
            requires x < 300, ws <= MAX_HISTORY;
        let pixel_end: usize = ((x + 1) * ws) / 300;
        let pixel_start: usize = (x * ws) / 300;
        let s: usize = if pixel_start > shift { pixel_start - shift } else { 0 };
        let e: usize = if pixel_end > shift { pixel_end - shift } else { 0 };
        let avg: u32 = if s < wl && e > s {
            let stop: usize = if e < wl { e } else { wl };
            assert(window.subrange(s as int, stop as int) =~= history@.subrange(start + s, start + stop));
            range_average(history, start + s, start + stop)
        } else {
            0
        };
        assert(avg == column_average(window, ws as int, x as int));
        let cx: i32 = GRAPH_LEFT + x as i32;
        let scale: u32 = if max_val > 0 { max_val as u32 } else { 1 };
        let scaled: u32 = (avg * 110) / scale;
        let y: i32 = GRAPH_BOTTOM - scaled as i32;
        assert(y == bar_top(avg as int, GRAPH_HEIGHT as int, max_val as int));
        let ink = Ink::Aqi(aqi_level(avg as i32));
        ops.push(DrawOp::Line { x: cx, y_from: GRAPH_BOTTOM, y_to: y, ink: ink });
        if y > GRAPH_TOP {
            ops.push(DrawOp::Line { x: cx, y_from: y - 1, y_to: GRAPH_TOP, ink: Ink::Black });
        }
        assert(ops@ =~= base + graph_columns(window, ws as int, max_val as int, (x + 1) as nat));
        x = x + 1;
    }
}


/// The average of hour `h` (0 = oldest) of the hourly view: the 24 hours are
/// fixed slots of 720 samples over a full history, right-justified so that
/// the newest sample ends the last hour.
pub open spec fn hour_average(history: Seq<u16>, h: int) -> int {
    let shift = sat_sub(MAX_HISTORY as int, history.len() as int);
    bucket_average(
        history,
        sat_sub(h * SAMPLES_PER_HOUR, shift),
        sat_sub((h + 1) * SAMPLES_PER_HOUR, shift),
    )
}

/// The two lines of one pixel column of an hourly bar.
pub open spec fn bar_column_ops(x: int, y: int, ink: Ink) -> Seq<DrawOp> {
    seq![
        DrawOp::Line { x: x as i32, y_from: GRAPH_BOTTOM, y_to: y as i32, ink: ink },
        DrawOp::Line { x: x as i32, y_from: (y - 1) as i32, y_to: GRAPH_TOP, ink: Ink::Black },
    ]
}

/// The lines of `n` pixel columns of a bar, starting at column `x0`.
pub open spec fn bar_columns(x0: int, y: int, ink: Ink, n: nat) -> Seq<DrawOp>
    decreases n,
{
    if n == 0 {
        seq![]
    } else {
        bar_columns(x0, y, ink, (n - 1) as nat) + bar_column_ops(x0 + n - 1, y, ink)
    }
}

/// The bar of hour `h`: ten pixels wide, centred at `25 + 12 h`.
pub open spec fn hour_bar_ops(history: Seq<u16>, max: int, h: int) -> Seq<DrawOp> {
    let avg = hour_average(history, h);
    let y = bar_top(avg, HOURLY_BAR_HEIGHT as int, max);
    let x_center = 25 + h * 12;
    bar_columns(x_center - BAR_HALF_WIDTH, y, Ink::Aqi(spec_aqi_level(avg)), (2 * BAR_HALF_WIDTH) as nat)
}

/// The bars of the first `n` hours, oldest first.
pub open spec fn hourly_bars(history: Seq<u16>, max: int, n: nat) -> Seq<DrawOp>
    decreases n,
{
    if n == 0 {
        seq![]
    } else {
        hourly_bars(history, max, (n - 1) as nat) + hour_bar_ops(history, max, n - 1)
    }
}

/// The drawing of the 24-hour summary.
pub open spec fn hourly_view_ops(history: Seq<u16>, force_redraw: bool) -> Seq<DrawOp> {
    let head = title_ops(Label::Hourly24h, force_redraw);
    if history.len() == 0 {
        head.push(DrawOp::Text { text: TextKind::Label(Label::NoData), x: 10, y: 70, ink: Ink::White })
    } else {
        let max = max_of(history);
        head.push(DrawOp::Text { text: TextKind::NowMax { now: history.last(), max: max as u16 }, x: 160, y: 30, ink: Ink::White })
            + hourly_bars(history, max, HISTORY_HOURS as nat)
    }
}

/// Appends the drawing of the 24-hour summary: one bar per hour.
pub(crate) fn draw_hourly_view(ops: &mut Vec<DrawOp>, history: &[u16], force_redraw: bool)
    ensures
        final(ops)@ == old(ops)@ + hourly_view_ops(history@, force_redraw),
{
    if force_redraw {
        ops.push(DrawOp::Text { text: TextKind::Label(Label::Hourly24h), x: 10, y: 30, ink: Ink::Cyan });
    }
    if history.len() == 0 {
        ops.push(DrawOp::Text { text: TextKind::Label(Label::NoData), x: 10, y: 70, ink: Ink::White });
        return;
    }
    let len: usize = history.len();
    assert(history@.subrange(0, len as int) =~= history@);
    let max_val: u16 = max_from(history, 0);
    let now_val: u16 = history[len - 1];
    ops.push(DrawOp::Text { text: TextKind::NowMax { now: now_val, max: max_val }, x: 160, y: 30, ink: Ink::White });
    let shift: usize = if MAX_HISTORY > len { MAX_HISTORY - len } else { 0 };
    let ghost base = ops@;
    let mut h: usize = 0;
    while h < HISTORY_HOURS
        invariant
            0 <= h <= HISTORY_HOURS,
            len == history.len(),
            shift == sat_sub(MAX_HISTORY as int, len as int),
            max_val == max_of(history@),
            ops@ == base + hourly_bars(history@, max_val as int, h as nat),
        decreases HISTORY_HOURS - h,
    {
        let hour_start: usize = h * SAMPLES_PER_HOUR;
        let hour_end: usize = (h + 1) * SAMPLES_PER_HOUR;
        let s: usize = if hour_start > shift { hour_start - shift } else { 0 };
        let e: usize = if hour_end > shift { hour_end - shift } else { 0 };
        let avg: u32 = if s < len && e > s {
            let stop: usize = if e < len { e } else { len };
            range_average(history, s, stop)
        } else {
            0
        };
        assert(avg == hour_average(history@, h as int));
        let x_center: i32 = 25 + h as i32 * 12;
        let scale: u32 = if max_val > 0 { max_val as u32 } else { 1 };
        let scaled: u32 = (avg * 100) / scale;
        assert(scaled <= avg * 100) by (nonlinear_arith)
            requires scaled == (avg * 100) / (scale as int), scale > 0;
        let y: i32 = GRAPH_BOTTOM - scaled as i32;
        assert(y == bar_top(avg as int, HOURLY_BAR_HEIGHT as int, max_val as int));
        let ink = Ink::Aqi(aqi_level(avg as i32));
        let ghost bar_base = ops@;
        let mut x: i32 = x_center - BAR_HALF_WIDTH;
        while x < x_center + BAR_HALF_WIDTH
            invariant
                x_center - BAR_HALF_WIDTH <= x <= x_center + BAR_HALF_WIDTH,
                x_center == 25 + h * 12,
                h < HISTORY_HOURS,
                y > -10_000_000,
                ops@ == bar_base + bar_columns((x_center - BAR_HALF_WIDTH) as int, y as int, ink,
                    (x - (x_center - BAR_HALF_WIDTH)) as nat),
            decreases x_center + BAR_HALF_WIDTH - x,
        {
            ops.push(DrawOp::Line { x: x, y_from: GRAPH_BOTTOM, y_to: y, ink: ink });
            ops.push(DrawOp::Line { x: x, y_from: y - 1, y_to: GRAPH_TOP, ink: Ink::Black });
            assert(ops@ =~= bar_base + bar_columns((x_center - BAR_HALF_WIDTH) as int, y as int, ink,
                (x + 1 - (x_center - BAR_HALF_WIDTH)) as nat));
            x = x + 1;
        }
        assert(ops@ =~= base + hourly_bars(history@, max_val as int, (h + 1) as nat));
        h = h + 1;
    }
}

/// The first three lines of the live view: title and the three values, the
/// PM2.5 one in its zone color.
pub open spec fn live_view_ops(frame: PmsReading) -> Seq<DrawOp> {
    seq![
        DrawOp::Text { text: TextKind::Label(Label::AirQualityMonitor), x: 10, y: 30, ink: Ink::Cyan },
        DrawOp::Text { text: TextKind::Pm1_0(frame.pm1_0_atm), x: 10, y: 70, ink: Ink::White },
        DrawOp::Text { text: TextKind::Pm2_5(frame.pm2_5_atm), x: 10, y: 100,
            ink: Ink::Aqi(spec_aqi_level(frame.pm2_5_atm as int)) },
        DrawOp::Text { text: TextKind::Pm10(frame.pm10_0_atm), x: 10, y: 130, ink: Ink::White },
    ]
}

/// What one refresh of the display draws for a screen.
pub open spec fn render_ops(frame: PmsReading, history: Seq<u16>, mode: ViewMode, force_redraw: bool) -> Seq<DrawOp> {
    let clear = if force_redraw { seq![DrawOp::Clear] } else { seq![] };
    clear + match mode {
        ViewMode::Live => live_view_ops(frame),
        ViewMode::LastHour => graph_view_ops(history, Label::LastHour, LAST_HOUR_MINUTES as int, force_redraw),
        ViewMode::LastDay => graph_view_ops(history, Label::Last24h, LAST_DAY_MINUTES as int, force_redraw),
        ViewMode::Hourly => hourly_view_ops(history, force_redraw),
    }
}

/// The drawing steps of one refresh of the display: everything is cleared
/// first when `force_redraw` is set.
pub fn render_ui(frame: &PmsReading, history: &[u16], mode: ViewMode, force_redraw: bool) -> (ops: Vec<DrawOp>)
    ensures
        ops@ == render_ops(*frame, history@, mode, force_redraw),
{
    let mut ops: Vec<DrawOp> = Vec::new();
    if force_redraw {
        ops.push(DrawOp::Clear);
    }
    match mode {
        ViewMode::Live => {
            ops.push(DrawOp::Text { text: TextKind::Label(Label::AirQualityMonitor), x: 10, y: 30, ink: Ink::Cyan });
            ops.push(DrawOp::Text { text: TextKind::Pm1_0(frame.pm1_0_atm), x: 10, y: 70, ink: Ink::White });
            ops.push(DrawOp::Text { text: TextKind::Pm2_5(frame.pm2_5_atm), x: 10, y: 100,
                ink: Ink::Aqi(aqi_level(frame.pm2_5_atm as i32)) });
            ops.push(DrawOp::Text { text: TextKind::Pm10(frame.pm10_0_atm), x: 10, y: 130, ink: Ink::White });
        },
        ViewMode::LastHour => {
            draw_graph_view(&mut ops, history, Label::LastHour, LAST_HOUR_MINUTES, force_redraw);
        },
        ViewMode::LastDay => {
            draw_graph_view(&mut ops, history, Label::Last24h, LAST_DAY_MINUTES, force_redraw);
        },
        ViewMode::Hourly => {
            draw_hourly_view(&mut ops, history, force_redraw);
        },
    }
    assert(ops@ =~= render_ops(*frame, history@, mode, force_redraw));
    ops
}


proof fn lemma_bucket_average_bounded(s: Seq<u16>, start: int, end: int)
    requires
        0 <= start,
    ensures
        0 <= bucket_average(s, start, end) <= max_of(s),
{
    lemma_max_bounds(s);
    let stop = if end < s.len() { end } else { s.len() as int };
    if start < s.len() && end > start {
        let sub = s.subrange(start, stop);
        assert forall|i: int| 0 <= i < sub.len() implies sub[i] <= max_of(s) by {
            assert(sub[i] == s[start + i]);
        }
        lemma_sum_bound(sub, max_of(s));
        let total = sum_of(sub);
        let count = stop - start;
        let m = max_of(s);
        assert(0 <= total / count <= m) by (nonlinear_arith)
            requires 0 <= total <= count * m, count > 0, m >= 0;
    }
}

proof fn lemma_bar_top_in_range(avg: int, height: int, max: int)
    requires
        0 <= avg <= max,
        height >= 0,
    ensures
        GRAPH_BOTTOM - height <= bar_top(avg, height, max) <= GRAPH_BOTTOM,
{
    let scale = scale_of(max);
    assert(0 <= avg * height / scale <= height) by (nonlinear_arith)
        requires 0 <= avg <= scale, scale > 0, height >= 0;
}

/// Every column of a trend graph stays inside the graph area: its bar top
/// lies between `GRAPH_TOP` and `GRAPH_BOTTOM`, and the value it shows is
/// between 0 and the largest sample of the window.
pub proof fn lemma_graph_columns_in_area(history: Seq<u16>, window_minutes: int, x: int)
    requires
        history.len() > 0,
        window_minutes >= 0,
        0 <= x < GRAPH_WIDTH,
    ensures
        ({
            let ws = window_minutes * SAMPLES_PER_MIN;
            let window = graph_window(history, ws);
            let avg = column_average(window, ws, x);
            &&& 0 <= avg <= max_of(window)
            &&& GRAPH_TOP <= bar_top(avg, GRAPH_HEIGHT as int, max_of(window)) <= GRAPH_BOTTOM
        }),
{
    let ws = window_minutes * SAMPLES_PER_MIN;
    let window = graph_window(history, ws);
    let shift = sat_sub(ws, window.len() as int);
    lemma_bucket_average_bounded(window, sat_sub(x * ws / 300, shift), sat_sub((x + 1) * ws / 300, shift));
    lemma_bar_top_in_range(column_average(window, ws, x), GRAPH_HEIGHT as int, max_of(window));
}

/// Every bar of the hourly view stays inside the graph area: its top lies
/// between `GRAPH_BOTTOM - HOURLY_BAR_HEIGHT` and `GRAPH_BOTTOM`.
pub proof fn lemma_hour_bars_in_area(history: Seq<u16>, h: int)
    requires
        history.len() > 0,
        0 <= h < HISTORY_HOURS,
    ensures
        0 <= hour_average(history, h) <= max_of(history),
        GRAPH_BOTTOM - HOURLY_BAR_HEIGHT <= bar_top(hour_average(history, h), HOURLY_BAR_HEIGHT as int, max_of(history)) <= GRAPH_BOTTOM,
{
    let shift = sat_sub(MAX_HISTORY as int, history.len() as int);
    lemma_bucket_average_bounded(history, sat_sub(h * SAMPLES_PER_HOUR, shift), sat_sub((h + 1) * SAMPLES_PER_HOUR, shift));
    lemma_bar_top_in_range(hour_average(history, h), HOURLY_BAR_HEIGHT as int, max_of(history));
}


/// The timelines are right-justified: the last graph column's slots end at
/// the newest sample of the window, and so does the last hour of the hourly
/// view while the history holds at most `MAX_HISTORY` samples.
pub proof fn lemma_newest_sample_at_right_edge(history: Seq<u16>, window_minutes: int)
    requires
        window_minutes >= 0,
    ensures
        ({
            let ws = window_minutes * SAMPLES_PER_MIN;
            let window = graph_window(history, ws);
            let shift = sat_sub(ws, window.len() as int);
            sat_sub((GRAPH_WIDTH - 1 + 1) * ws / 300, shift) == window.len()
        }),
        history.len() <= MAX_HISTORY ==> sat_sub(
            HISTORY_HOURS * SAMPLES_PER_HOUR,
            sat_sub(MAX_HISTORY as int, history.len() as int),
        ) == history.len(),
{
    let ws = window_minutes * SAMPLES_PER_MIN;
    assert((GRAPH_WIDTH - 1 + 1) * ws / 300 == ws) by (nonlinear_arith)
        requires ws >= 0;
}


/// The graph screens never read the frame, and the live screen never reads the
/// history.
pub proof fn lemma_render_reads_only_its_inputs(
    f1: PmsReading,
    f2: PmsReading,
    h1: Seq<u16>,
    h2: Seq<u16>,
    mode: ViewMode,
    force_redraw: bool,
)
    ensures
        mode != ViewMode::Live ==> render_ops(f1, h1, mode, force_redraw) == render_ops(f2, h1, mode, force_redraw),
        mode == ViewMode::Live ==> render_ops(f1, h1, mode, force_redraw) == render_ops(f1, h2, mode, force_redraw),
{
}

/// The last-hour screen depends only on the newest 60 * 12 = 720 samples.
pub proof fn lemma_last_hour_reads_newest_hour(frame: PmsReading, history: Seq<u16>, force_redraw: bool)
    requires
        history.len() >= LAST_HOUR_MINUTES * SAMPLES_PER_MIN,
    ensures
        ({
            let n = history.len() as int;
            let newest = history.subrange(n - LAST_HOUR_MINUTES * SAMPLES_PER_MIN, n);
            render_ops(frame, history, ViewMode::LastHour, force_redraw)
                == render_ops(frame, newest, ViewMode::LastHour, force_redraw)
        }),
{
    let n = history.len() as int;
    let ws = LAST_HOUR_MINUTES * SAMPLES_PER_MIN;
    let newest = history.subrange(n - ws, n);
    assert(graph_window(newest, ws as int) =~= graph_window(history, ws as int));
    assert(newest.last() == history.last());
}

} // verus!
