use vstd::prelude::*;
use vstd::string::*;

use crate::probe::ProbeResult;
use crate::stats::Snapshot;
use crate::text::{dec, dec_string, millis_text, percent_text, plain, push_dec, push_millis, push_percent, Frame, Paint};

verus! {

/// How the session is presented; chosen once at start.
#[derive(Clone, Copy, Debug, PartialEq, Eq)]
pub enum Mode {
    /// Full dashboard redrawn in place.
    Dynamic,
    /// One appended log line per tick.
    Static,
    /// Status line and chart only, redrawn in place.
    ChartOnly,
}

/// Columns that the chart leaves free for its axis labels.
pub const CHART_GUTTER: usize = 14;

/// The narrowest chart drawn when the width is derived from the terminal.
pub const MIN_CHART_WIDTH: usize = 50;

/// Width of the chart and capacity of the history window: the configured
/// width, or when that is zero the terminal width less the gutter, at least
/// the minimum width.
pub open spec fn chart_width_spec(configured: nat, columns: nat) -> nat {
    if configured > 0 {
        configured
    } else if columns >= CHART_GUTTER + MIN_CHART_WIDTH {
        (columns - CHART_GUTTER) as nat
    } else {
        MIN_CHART_WIDTH as nat
    }
}

pub fn chart_width(configured: usize, columns: u16) -> (r: usize)
    ensures
        r == chart_width_spec(configured as nat, columns as nat),
        r > 0,
{
    if configured > 0 {
        configured
    } else {
        let free: usize = (columns as usize).saturating_sub(CHART_GUTTER);
        if free > MIN_CHART_WIDTH {
            free
        } else {
            MIN_CHART_WIDTH
        }
    }
}

pub open spec fn end_line() -> Seq<(Seq<char>, Paint)> {
    seq![plain("\x1B[K"@), plain("\n"@)]
}

pub open spec fn with_ms(us: nat) -> Seq<char> {
    millis_text(us) + "ms"@
}

/// The live status: latency or timeout, TTL, connection indicator.
pub open spec fn status_spans(r: ProbeResult) -> Seq<(Seq<char>, Paint)> {
    seq![
        ("Latency:"@, Paint::BrightCyanBold),
        plain(" "@),
        if r.success {
            (" "@ + millis_text(r.latency_us as nat) + " ms "@, Paint::WhiteOnBlue)
        } else {
            (" TIMEOUT "@, Paint::WhiteOnRed)
        },
        plain(" | "@),
        ("TTL:"@, Paint::BrightGreenBold),
        plain(" "@),
        (" "@ + dec(r.ttl as nat) + " "@, Paint::BlackOnGreen),
        plain(" | "@),
        ("Status:"@, Paint::Bold),
        plain(" "@),
        if r.success {
            (" CONNECTED "@, Paint::BlackOnCyan)
        } else {
            (" TIMEOUT "@, Paint::WhiteOnRed)
        },
    ]
}

pub open spec fn host_spans(host: Seq<char>) -> Seq<(Seq<char>, Paint)> {
    seq![plain(" | "@), ("Host:"@, Paint::BrightMagentaBold), plain(" "@), (host, Paint::Yellow)]
}

/// Packet counts and loss.
pub open spec fn counts_spans(s: Snapshot) -> Seq<(Seq<char>, Paint)> {
    seq![
        plain("  Sent: "@),
        (dec(s.sent as nat), Paint::Cyan),
        plain(" | Received: "@),
        (dec(s.received as nat), Paint::Green),
        plain(" | Lost: "@),
        (dec(s.lost as nat), Paint::Red),
        plain(" ("@),
        (percent_text(s.loss_tenths as nat) + "%"@, Paint::Red),
        plain(")"@),
    ]
}

/// Latency figures: minimum, average, maximum, deviation.
pub open spec fn latency_spans(s: Snapshot) -> Seq<(Seq<char>, Paint)> {
    seq![
        plain("  Min: "@),
        (with_ms(s.min_us as nat), Paint::Green),
        plain(" | Avg: "@),
        (with_ms(s.average_us as nat), Paint::Yellow),
        plain(" | Max: "@),
        (with_ms(s.max_us as nat), Paint::Red),
        plain(" | StdDev: "@),
        (with_ms(s.stddev_us as nat), Paint::Cyan),
    ]
}

/// The chart's lines, each followed by a clear to the end of its line, with
/// a newline between two lines and none after the last.
pub open spec fn chart_body(lines: Seq<Seq<char>>) -> Seq<(Seq<char>, Paint)>
    decreases lines.len(),
{
    if lines.len() == 0 {
        Seq::empty()
    } else {
        let prev = lines.drop_last();
        (if prev.len() > 0 {
            chart_body(prev).push(plain("\n"@))
        } else {
            Seq::empty()
        }) + seq![(lines.last(), Paint::Yellow), plain("\x1B[K"@)]
    }
}

/// The chart section: drawn only when the history holds more than one value.
pub open spec fn chart_spans(history_len: nat, lines: Seq<Seq<char>>) -> Seq<(Seq<char>, Paint)> {
    if history_len > 1 {
        seq![("Latency History (ms):"@, Paint::BrightCyanBold)] + end_line() + chart_body(lines)
    } else {
        Seq::empty()
    }
}

/// One frame of the full dashboard.
pub open spec fn dynamic_frame(
    host: Seq<char>,
    r: ProbeResult,
    s: Snapshot,
    history_len: nat,
    lines: Seq<Seq<char>>,
) -> Seq<(Seq<char>, Paint)> {
    seq![plain("\x1B[H"@)] + seq![
        ("=== Real-time Ping Monitor: "@ + host + " ==="@, Paint::BrightMagentaBold),
    ] + end_line() + status_spans(r) + end_line() + seq![
        ("Statistics:"@, Paint::BrightYellowBold),
    ] + end_line() + counts_spans(s) + end_line() + (if s.received > 0 {
        latency_spans(s) + end_line()
    } else {
        Seq::empty()
    }) + chart_spans(history_len, lines) + seq![plain("\x1B[J"@)]
}

/// One frame of the chart-only view.
pub open spec fn chart_only_frame(
    host: Seq<char>,
    r: ProbeResult,
    history_len: nat,
    lines: Seq<Seq<char>>,
) -> Seq<(Seq<char>, Paint)> {
    seq![plain("\x1B[H"@)] + status_spans(r) + host_spans(host) + end_line() + chart_spans(
        history_len,
        lines,
    ) + seq![plain("\x1B[J"@)]
}

/// One appended line of the static log.
pub open spec fn static_line(r: ProbeResult, s: Snapshot) -> Seq<(Seq<char>, Paint)> {
    seq![
        plain("seq="@),
        (dec(s.sent as nat), Paint::Cyan),
        plain(" "@),
        if r.success {
            (with_ms(r.latency_us as nat), Paint::Green)
        } else {
            ("TIMEOUT"@, Paint::Red)
        },
        plain(" "@),
        if r.success {
            ("ttl="@ + dec(r.ttl as nat), Paint::Yellow)
        } else {
            ("ttl=-"@, Paint::Yellow)
        },
        plain(" "@),
    ] + (if s.received > 0 {
        seq![
            plain(
                "(loss="@ + percent_text(s.loss_tenths as nat) + "% avg="@ + with_ms(
                    s.average_us as nat,
                ) + ")"@,
            ),
        ]
    } else {
        Seq::empty()
    }) + seq![plain("\n"@)]
}

fn push_end_line(f: &mut Frame)
    ensures
        final(f)@ == old(f)@ + end_line(),
{
    f.text("\x1B[K", Paint::Plain);
    f.text("\n", Paint::Plain);
    assert(final(f)@ =~= old(f)@ + end_line());
}

fn ms_string(us: u64) -> (r: String)
    ensures
        r@ == with_ms(us as nat),
{
    let mut t = String::new();
    push_millis(&mut t, us);
    t.append("ms");
    assert(t@ =~= with_ms(us as nat));
    t
}

fn push_status(f: &mut Frame, r: &ProbeResult)
    ensures
        final(f)@ == old(f)@ + status_spans(*r),
{
    f.text("Latency:", Paint::BrightCyanBold);
    f.text(" ", Paint::Plain);
    if r.success {
        let mut t = String::from_str(" ");
        push_millis(&mut t, r.latency_us as u64);
        t.append(" ms ");
        f.string(t, Paint::WhiteOnBlue);
    } else {
        f.text(" TIMEOUT ", Paint::WhiteOnRed);
    }
    f.text(" | ", Paint::Plain);
    f.text("TTL:", Paint::BrightGreenBold);
    f.text(" ", Paint::Plain);
    let mut t = String::from_str(" ");
    push_dec(&mut t, r.ttl as u64);
    t.append(" ");
    f.string(t, Paint::BlackOnGreen);
    f.text(" | ", Paint::Plain);
    f.text("Status:", Paint::Bold);
    f.text(" ", Paint::Plain);
    if r.success {
        f.text(" CONNECTED ", Paint::BlackOnCyan);
    } else {
        f.text(" TIMEOUT ", Paint::WhiteOnRed);
    }
    assert(final(f)@ =~= old(f)@ + status_spans(*r));
}

fn push_counts(f: &mut Frame, s: &Snapshot)
    ensures
        final(f)@ == old(f)@ + counts_spans(*s),
{
    f.text("  Sent: ", Paint::Plain);
    f.string(dec_string(s.sent), Paint::Cyan);
    f.text(" | Received: ", Paint::Plain);
    f.string(dec_string(s.received), Paint::Green);
    f.text(" | Lost: ", Paint::Plain);
    f.string(dec_string(s.lost), Paint::Red);
    f.text(" (", Paint::Plain);
    let mut t = String::new();
    push_percent(&mut t, s.loss_tenths);
    t.append("%");
    f.string(t, Paint::Red);
    f.text(")", Paint::Plain);
    assert(final(f)@ =~= old(f)@ + counts_spans(*s));
}

fn push_latency(f: &mut Frame, s: &Snapshot)
    ensures
        final(f)@ == old(f)@ + latency_spans(*s),
{
    f.text("  Min: ", Paint::Plain);
    f.string(ms_string(s.min_us as u64), Paint::Green);
    f.text(" | Avg: ", Paint::Plain);
    f.string(ms_string(s.average_us as u64), Paint::Yellow);
    f.text(" | Max: ", Paint::Plain);
    f.string(ms_string(s.max_us as u64), Paint::Red);
    f.text(" | StdDev: ", Paint::Plain);
    f.string(ms_string(s.stddev_us), Paint::Cyan);
    assert(final(f)@ =~= old(f)@ + latency_spans(*s));
}

pub open spec fn lines_view(lines: Seq<String>) -> Seq<Seq<char>> {
    lines.map_values(|l: String| l@)
}

fn push_chart(f: &mut Frame, history_len: usize, lines: &Vec<String>)
    ensures
        final(f)@ == old(f)@ + chart_spans(history_len as nat, lines_view(lines@)),
{
    if history_len > 1 {
        f.text("Latency History (ms):", Paint::BrightCyanBold);
        push_end_line(f);
        let ghost base = f@;
        let ghost lv = lines_view(lines@);
        assert(lv.subrange(0, 0) =~= Seq::<Seq<char>>::empty());
        assert(base + chart_body(lv.subrange(0, 0)) =~= base);
        let n = lines.len();
        for i in 0..n
            invariant
                n == lines@.len(),
                lv == lines_view(lines@),
                f@ == base + chart_body(lv.subrange(0, i as int)),
        {
            assert(lv.subrange(0, i + 1).drop_last() =~= lv.subrange(0, i as int));
            if i > 0 {
                f.text("\n", Paint::Plain);
            }
            f.string(lines[i].clone(), Paint::Yellow);
            f.text("\x1B[K", Paint::Plain);
            assert(f@ =~= base + chart_body(lv.subrange(0, i + 1)));
        }
        assert(lv.subrange(0, n as int) =~= lv);
        assert(final(f)@ =~= old(f)@ + chart_spans(history_len as nat, lv));
    } else {
        assert(final(f)@ =~= old(f)@ + chart_spans(history_len as nat, lines_view(lines@)));
    }
}

/// The closing summary printed once when the session stops.
pub open spec fn final_summary(s: Snapshot) -> Seq<(Seq<char>, Paint)> {
    seq![
        plain("\n"@),
        ("\u{2713} Stopped"@, Paint::GreenBold),
        plain("\n"@),
        plain("\n"@),
        ("Final Statistics:"@, Paint::BrightYellowBold),
        plain("\n"@),
        plain(
            "  Packets: Sent = "@ + dec(s.sent as nat) + ", Received = "@ + dec(s.received as nat)
                + ", Lost = "@ + dec(s.lost as nat) + " ("@,
        ),
        (percent_text(s.loss_tenths as nat) + "%"@, Paint::Red),
        plain(")\n"@),
    ] + (if s.received > 0 {
        seq![
            plain("  Latency: Min = "@),
            (with_ms(s.min_us as nat), Paint::Green),
            plain(", Avg = "@),
            (with_ms(s.average_us as nat), Paint::Yellow),
            plain(", Max = "@),
            (with_ms(s.max_us as nat), Paint::Red),
            plain(", StdDev = "@),
            (with_ms(s.stddev_us as nat), Paint::Cyan),
            plain("\n"@),
        ]
    } else {
        Seq::empty()
    })
}

/// What is written once before the first tick: a header line in the static
/// mode, otherwise a full clear of the screen.
pub open spec fn preamble_spans(mode: Mode, host: Seq<char>) -> Seq<(Seq<char>, Paint)> {
    match mode {
        Mode::Static => seq![
            ("Pinging "@ + host + " ..."@, Paint::BrightMagentaBold),
            plain("\n"@),
        ],
        _ => seq![plain("\x1B[2J\x1B[H"@)],
    }
}

/// The output of one tick in the given mode.
pub open spec fn tick_spans(
    mode: Mode,
    host: Seq<char>,
    r: ProbeResult,
    s: Snapshot,
    history_len: nat,
    lines: Seq<Seq<char>>,
) -> Seq<(Seq<char>, Paint)> {
    match mode {
        Mode::Static => static_line(r, s),
        Mode::ChartOnly => chart_only_frame(host, r, history_len, lines),
        Mode::Dynamic => dynamic_frame(host, r, s, history_len, lines),
    }
}

/// The full dashboard for one tick, redrawn from the top-left corner.
pub fn render_dynamic_screen(
    host: &str,
    r: &ProbeResult,
    s: &Snapshot,
    history_len: usize,
    chart: &Vec<String>,
) -> (f: Frame)
    ensures
        f@ == dynamic_frame(host@, *r, *s, history_len as nat, lines_view(chart@)),
{
    let mut f = Frame::new();
    f.text("\x1B[H", Paint::Plain);
    let mut title = String::from_str("=== Real-time Ping Monitor: ");
    title.append(host);
    title.append(" ===");
    f.string(title, Paint::BrightMagentaBold);
    push_end_line(&mut f);
    push_status(&mut f, r);
    push_end_line(&mut f);
    f.text("Statistics:", Paint::BrightYellowBold);
    push_end_line(&mut f);
    push_counts(&mut f, s);
    push_end_line(&mut f);
    if s.received > 0 {
        push_latency(&mut f, s);
        push_end_line(&mut f);
    }
    push_chart(&mut f, history_len, chart);
    f.text("\x1B[J", Paint::Plain);
    assert(f@ =~= dynamic_frame(host@, *r, *s, history_len as nat, lines_view(chart@)));
    f
}

/// The chart-only view for one tick: status line and chart.
pub fn render_chart_only(host: &str, r: &ProbeResult, history_len: usize, chart: &Vec<String>) -> (f:
    Frame)
    ensures
        f@ == chart_only_frame(host@, *r, history_len as nat, lines_view(chart@)),
{
    let mut f = Frame::new();
    f.text("\x1B[H", Paint::Plain);
    push_status(&mut f, r);
    f.text(" | ", Paint::Plain);
    f.text("Host:", Paint::BrightMagentaBold);
    f.text(" ", Paint::Plain);
    f.text(host, Paint::Yellow);
    push_end_line(&mut f);
    push_chart(&mut f, history_len, chart);
    f.text("\x1B[J", Paint::Plain);
    assert(f@ =~= chart_only_frame(host@, *r, history_len as nat, lines_view(chart@)));
    f
}

/// The log line of one tick in the static mode.
pub fn render_static_line(r: &ProbeResult, s: &Snapshot) -> (f: Frame)
    ensures
        f@ == static_line(*r, *s),
{
    let mut f = Frame::new();
    f.text("seq=", Paint::Plain);
    f.string(dec_string(s.sent), Paint::Cyan);
    f.text(" ", Paint::Plain);
    if r.success {
        f.string(ms_string(r.latency_us as u64), Paint::Green);
    } else {
        f.text("TIMEOUT", Paint::Red);
    }
    f.text(" ", Paint::Plain);
    if r.success {
        let mut t = String::from_str("ttl=");
        push_dec(&mut t, r.ttl as u64);
        f.string(t, Paint::Yellow);
    } else {
        f.text("ttl=-", Paint::Yellow);
    }
    f.text(" ", Paint::Plain);
    if s.received > 0 {
        let mut t = String::from_str("(loss=");
        push_percent(&mut t, s.loss_tenths);
        t.append("% avg=");
        push_millis(&mut t, s.average_us as u64);
        t.append("ms");
        t.append(")");
        assert(t@ =~= "(loss="@ + percent_text(s.loss_tenths as nat) + "% avg="@ + with_ms(
            s.average_us as nat,
        ) + ")"@);
        f.string(t, Paint::Plain);
    }
    f.text("\n", Paint::Plain);
    assert(f@ =~= static_line(*r, *s));
    f
}

/// The closing summary.
pub fn render_final_stats(s: &Snapshot) -> (f: Frame)
    ensures
        f@ == final_summary(*s),
{
    let mut f = Frame::new();
    f.text("\n", Paint::Plain);
    f.text("\u{2713} Stopped", Paint::GreenBold);
    f.text("\n", Paint::Plain);
    f.text("\n", Paint::Plain);
    f.text("Final Statistics:", Paint::BrightYellowBold);
    f.text("\n", Paint::Plain);
    let mut t = String::from_str("  Packets: Sent = ");
    push_dec(&mut t, s.sent);
    t.append(", Received = ");
    push_dec(&mut t, s.received);
    t.append(", Lost = ");
    push_dec(&mut t, s.lost);
    t.append(" (");
    f.string(t, Paint::Plain);
    let mut p = String::new();
    push_percent(&mut p, s.loss_tenths);
    p.append("%");
    f.string(p, Paint::Red);
    f.text(")\n", Paint::Plain);
    if s.received > 0 {
        f.text("  Latency: Min = ", Paint::Plain);
        f.string(ms_string(s.min_us as u64), Paint::Green);
        f.text(", Avg = ", Paint::Plain);
        f.string(ms_string(s.average_us as u64), Paint::Yellow);
        f.text(", Max = ", Paint::Plain);
        f.string(ms_string(s.max_us as u64), Paint::Red);
        f.text(", StdDev = ", Paint::Plain);
        f.string(ms_string(s.stddev_us), Paint::Cyan);
        f.text("\n", Paint::Plain);
    }
    assert(f@ =~= final_summary(*s));
    f
}

/// What is written before the first tick.
pub fn render_preamble(mode: Mode, host: &str) -> (f: Frame)
    ensures
        f@ == preamble_spans(mode, host@),
{
    let mut f = Frame::new();
    match mode {
        Mode::Static => {
            let mut t = String::from_str("Pinging ");
            t.append(host);
            t.append(" ...");
            f.string(t, Paint::BrightMagentaBold);
            f.text("\n", Paint::Plain);
        },
        _ => {
            f.text("\x1B[2J\x1B[H", Paint::Plain);
        },
    }
    assert(f@ =~= preamble_spans(mode, host@));
    f
}

/// The output of one tick in the given mode.
pub fn render_tick(
    mode: Mode,
    host: &str,
    r: &ProbeResult,
    s: &Snapshot,
    history_len: usize,
    chart: &Vec<String>,
) -> (f: Frame)
    ensures
        f@ == tick_spans(mode, host@, *r, *s, history_len as nat, lines_view(chart@)),
{
    match mode {
        Mode::Static => render_static_line(r, s),
        Mode::ChartOnly => render_chart_only(host, r, history_len, chart),
        Mode::Dynamic => render_dynamic_screen(host, r, s, history_len, chart),
    }
}

} // verus!
