//! Live network-reachability monitoring: probe outcomes, running statistics,
//! a bounded chart window, terminal frames and the tick-by-tick control loop.
//!
//! Latencies are carried as whole microseconds, so every computation here is
//! exact integer arithmetic.

pub mod probe;
pub mod render;
pub mod control;
pub mod history;
pub mod stats;
pub mod text;

pub use probe::ProbeResult;
pub use history::History;
pub use stats::{isqrt, Snapshot, Stats, StatsView};
pub use text::{Frame, Paint, Span};
pub use render::{
    chart_width, render_chart_only, render_dynamic_screen, render_final_stats, render_preamble,
    render_static_line, render_tick, Mode,
};
pub use control::{Command, Event, Monitor, Phase};
