use pingmon::{
    chart_width, render_chart_only, render_dynamic_screen, render_final_stats, render_preamble,
    render_static_line, render_tick, Frame, Mode, Paint, ProbeResult, Snapshot, Stats,
};

fn joined(f: &Frame) -> String {
    f.spans.iter().map(|s| s.text.as_str()).collect()
}

fn snapshot_of(outcomes: &[ProbeResult]) -> Snapshot {
    let mut s = Stats::new();
    for r in outcomes {
        s.record(r);
    }
    s.snapshot()
}

const STATUS_OK: &str = "Latency:  12.35 ms  | TTL:  57  | Status:  CONNECTED ";

#[test]
fn chart_width_follows_configuration_or_terminal() {
    assert_eq!(chart_width(30, 200), 30);
    assert_eq!(chart_width(0, 80), 66);
    assert_eq!(chart_width(0, 65), 51);
    assert_eq!(chart_width(0, 64), 50);
    assert_eq!(chart_width(0, 40), 50);
    assert_eq!(chart_width(0, 0), 50);
}

#[test]
fn static_line_before_any_success() {
    let s = snapshot_of(&[ProbeResult::failed()]);
    let f = render_static_line(&ProbeResult::failed(), &s);
    assert_eq!(joined(&f), "seq=1 TIMEOUT ttl=- \n");
    assert_eq!(f.spans[3].paint, Paint::Red);
}

#[test]
fn static_line_with_running_figures() {
    let r = ProbeResult::reply(12_345, 57);
    let s = snapshot_of(&[ProbeResult::failed(), r]);
    let f = render_static_line(&r, &s);
    assert_eq!(joined(&f), "seq=2 12.35ms ttl=57 (loss=50.0% avg=12.35ms)\n");
    assert_eq!(f.spans[1].paint, Paint::Cyan);
    assert_eq!(f.spans[3].paint, Paint::Green);
    assert_eq!(f.spans[5].paint, Paint::Yellow);
}

#[test]
fn dynamic_screen_after_one_success() {
    let r = ProbeResult::reply(12_345, 57);
    let s = snapshot_of(&[r]);
    let f = render_dynamic_screen("h", &r, &s, 1, &vec!["ignored".to_string()]);
    let expected = format!(
        "\x1B[H=== Real-time Ping Monitor: h ===\x1B[K\n{}\x1B[K\nStatistics:\x1B[K\n  Sent: 1 | Received: 1 | Lost: 0 (0.0%)\x1B[K\n  Min: 12.35ms | Avg: 12.35ms | Max: 12.35ms | StdDev: 0.00ms\x1B[K\n\x1B[J",
        STATUS_OK
    );
    assert_eq!(joined(&f), expected);
}

#[test]
fn dynamic_screen_without_success_omits_latency_block() {
    let r = ProbeResult::failed();
    let s = snapshot_of(&[r, r]);
    let f = render_dynamic_screen("h", &r, &s, 2, &vec!["x".to_string(), "y".to_string()]);
    let expected = "\x1B[H=== Real-time Ping Monitor: h ===\x1B[K\nLatency:  TIMEOUT  | TTL:  0  | Status:  TIMEOUT \x1B[K\nStatistics:\x1B[K\n  Sent: 2 | Received: 0 | Lost: 2 (100.0%)\x1B[K\nLatency History (ms):\x1B[K\nx\x1B[K\ny\x1B[K\x1B[J";
    assert_eq!(joined(&f), expected);
}

#[test]
fn chart_only_view_with_chart() {
    let r = ProbeResult::reply(12_345, 57);
    let f = render_chart_only("host", &r, 2, &vec!["a".to_string(), "b".to_string()]);
    let expected = format!(
        "\x1B[H{} | Host: host\x1B[K\nLatency History (ms):\x1B[K\na\x1B[K\nb\x1B[K\x1B[J",
        STATUS_OK
    );
    assert_eq!(joined(&f), expected);
    let last_line = &f.spans[f.spans.len() - 3];
    assert_eq!(last_line.text, "b");
    assert_eq!(last_line.paint, Paint::Yellow);
}

#[test]
fn chart_is_skipped_for_a_single_value() {
    let r = ProbeResult::reply(12_345, 57);
    let f = render_chart_only("host", &r, 1, &vec!["a".to_string()]);
    let expected = format!("\x1B[H{} | Host: host\x1B[K\n\x1B[J", STATUS_OK);
    assert_eq!(joined(&f), expected);
}

#[test]
fn final_summary_with_latencies() {
    let s = snapshot_of(&[
        ProbeResult::reply(10_000, 64),
        ProbeResult::failed(),
        ProbeResult::reply(20_000, 64),
        ProbeResult::failed(),
        ProbeResult::failed(),
    ]);
    let f = render_final_stats(&s);
    assert_eq!(
        joined(&f),
        "\n\u{2713} Stopped\n\nFinal Statistics:\n  Packets: Sent = 5, Received = 2, Lost = 3 (60.0%)\n  Latency: Min = 10.00ms, Avg = 15.00ms, Max = 20.00ms, StdDev = 7.07ms\n"
    );
}

#[test]
fn final_summary_without_success() {
    let s = snapshot_of(&[]);
    let f = render_final_stats(&s);
    assert_eq!(
        joined(&f),
        "\n\u{2713} Stopped\n\nFinal Statistics:\n  Packets: Sent = 0, Received = 0, Lost = 0 (0.0%)\n"
    );
}

#[test]
fn percent_and_millis_rounding() {
    let mut s = snapshot_of(&[]);
    s.loss_bp = 5;
    s.loss_tenths = 1;
    s.sent = 7;
    s.received = 1;
    s.min_us = 4;
    s.max_us = 5;
    s.average_us = 999_995;
    s.stddev_us = 12_344;
    let f = render_final_stats(&s);
    assert_eq!(
        joined(&f),
        "\n\u{2713} Stopped\n\nFinal Statistics:\n  Packets: Sent = 7, Received = 1, Lost = 0 (0.1%)\n  Latency: Min = 0.00ms, Avg = 1000.00ms, Max = 0.01ms, StdDev = 12.34ms\n"
    );
}

#[test]
fn preamble_per_mode() {
    assert_eq!(joined(&render_preamble(Mode::Static, "h")), "Pinging h ...\n");
    assert_eq!(joined(&render_preamble(Mode::Dynamic, "h")), "\x1B[2J\x1B[H");
    assert_eq!(joined(&render_preamble(Mode::ChartOnly, "h")), "\x1B[2J\x1B[H");
}

#[test]
fn tick_output_follows_mode() {
    let r = ProbeResult::reply(12_345, 57);
    let s = snapshot_of(&[r]);
    let lines = vec!["a".to_string()];
    assert_eq!(joined(&render_tick(Mode::Static, "h", &r, &s, 1, &lines)), joined(&render_static_line(&r, &s)));
    assert_eq!(
        joined(&render_tick(Mode::ChartOnly, "h", &r, &s, 1, &lines)),
        joined(&render_chart_only("h", &r, 1, &lines))
    );
    assert_eq!(
        joined(&render_tick(Mode::Dynamic, "h", &r, &s, 1, &lines)),
        joined(&render_dynamic_screen("h", &r, &s, 1, &lines))
    );
}

#[test]
fn tiny_loss_is_shown_as_zero_in_every_view() {
    let mut st = Stats::new();
    st.record(&ProbeResult::failed());
    let r = ProbeResult::reply(10_000, 64);
    for _ in 0..2_000 {
        st.record(&r);
    }
    let s = st.snapshot();
    assert_eq!(joined(&render_static_line(&r, &s)), "seq=2001 10.00ms ttl=64 (loss=0.0% avg=10.00ms)\n");
    assert!(joined(&render_dynamic_screen("h", &r, &s, 1, &vec![])).contains("  Sent: 2001 | Received: 2000 | Lost: 1 (0.0%)"));
    assert!(joined(&render_final_stats(&s)).contains("Sent = 2001, Received = 2000, Lost = 1 (0.0%)"));
}
