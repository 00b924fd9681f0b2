use vstd::prelude::*;

use crate::history::{chart_value, pushed_window, History};
use crate::probe::ProbeResult;
use crate::stats::{Stats, StatsView};

verus! {

/// Where the monitoring loop stands.
#[derive(Clone, Copy, Debug, PartialEq, Eq)]
pub enum Phase {
    /// At the loop guard: before the first tick, or after a sleep.
    Waiting,
    /// A probe has been asked for.
    Probing,
    /// The tick's output has been asked for.
    Rendering,
    /// The final summary has been asked for.
    Stopping,
    /// The loop has ended.
    Done,
}

/// What the driver of the loop reports back.
#[derive(Clone, Copy, Debug, PartialEq, Eq)]
pub enum Event {
    /// The loop may go on: at start, or when a sleep has ended.
    Ready,
    /// The probe returned this outcome.
    Probed(ProbeResult),
    /// The tick's output was written.
    Rendered,
    /// The final summary was written.
    Summarized,
}

/// What the driver of the loop is to do next.
#[derive(Clone, Copy, Debug, PartialEq, Eq)]
pub enum Command {
    Probe,
    Render,
    Sleep,
    Summarize,
    Exit,
}

/// The command that a phase waits on; repeated for an event that does not fit.
pub open spec fn pending(p: Phase) -> Command {
    match p {
        Phase::Waiting => Command::Sleep,
        Phase::Probing => Command::Probe,
        Phase::Rendering => Command::Render,
        Phase::Stopping => Command::Summarize,
        Phase::Done => Command::Exit,
    }
}

/// Next phase and command. The cancellation flag is read at the loop guard
/// and after a tick's output; a probe outcome that arrives is always recorded
/// and rendered, cancelled or not.
pub open spec fn transition(p: Phase, e: Event, cancelled: bool) -> (Phase, Command) {
    match (p, e) {
        (Phase::Waiting, Event::Ready) => if cancelled {
            (Phase::Stopping, Command::Summarize)
        } else {
            (Phase::Probing, Command::Probe)
        },
        (Phase::Probing, Event::Probed(_)) => (Phase::Rendering, Command::Render),
        (Phase::Rendering, Event::Rendered) => if cancelled {
            (Phase::Stopping, Command::Summarize)
        } else {
            (Phase::Waiting, Command::Sleep)
        },
        (Phase::Stopping, Event::Summarized) => (Phase::Done, Command::Exit),
        _ => (p, pending(p)),
    }
}

/// Whether the event is a probe outcome that the phase takes in.
pub open spec fn takes_outcome(p: Phase, e: Event) -> bool {
    p == Phase::Probing && e is Probed
}

/// The statistics after an event: a probe outcome taken in counts as one
/// tick, every other event leaves them as they were.
pub open spec fn stats_after_event(v: StatsView, p: Phase, e: Event) -> StatsView {
    match e {
        Event::Probed(r) => if p == Phase::Probing {
            v.after(r)
        } else {
            v
        },
        _ => v,
    }
}

/// A cancellation that arrives while a probe is in flight does not discard
/// it: whatever the flag reads when the outcome comes back, the outcome is
/// counted and rendered. With the flag set after that output, the loop asks
/// for the summary, over statistics that include the tick, and then exits;
/// it asks for no further probe or sleep.
pub proof fn lemma_cancel_keeps_in_flight_tick(
    v: StatsView,
    r: ProbeResult,
    cancelled_at_outcome: bool,
    cancelled_at_summary: bool,
)
    ensures
        transition(Phase::Probing, Event::Probed(r), cancelled_at_outcome) == (
        Phase::Rendering,
        Command::Render,
        ),
        stats_after_event(v, Phase::Probing, Event::Probed(r)) == v.after(r),
        v.after(r).sent == v.sent + 1,
        r.success ==> v.after(r).received == v.received + 1 && v.after(r).lost == v.lost,
        !r.success ==> v.after(r).lost == v.lost + 1 && v.after(r).received == v.received,
        transition(Phase::Rendering, Event::Rendered, true) == (Phase::Stopping, Command::Summarize),
        stats_after_event(v.after(r), Phase::Rendering, Event::Rendered) == v.after(r),
        transition(Phase::Stopping, Event::Summarized, cancelled_at_summary) == (
        Phase::Done,
        Command::Exit,
        ),
        stats_after_event(v.after(r), Phase::Stopping, Event::Summarized) == v.after(r),
{
}

/// Once stopping, the loop only ever asks for the summary and then to exit:
/// it never probes, renders or sleeps again, leaves the statistics alone,
/// and after the summary it never asks for it again.
pub proof fn lemma_stopping_is_final(p: Phase, e: Event, cancelled: bool, v: StatsView)
    requires
        p == Phase::Stopping || p == Phase::Done,
    ensures
        transition(p, e, cancelled).0 == Phase::Stopping || transition(p, e, cancelled).0
            == Phase::Done,
        transition(p, e, cancelled).1 == Command::Summarize || transition(p, e, cancelled).1
            == Command::Exit,
        p == Phase::Done ==> transition(p, e, cancelled) == (Phase::Done, Command::Exit),
        stats_after_event(v, p, e) == v,
{
}

/// The monitoring session: statistics, chart window and loop phase.
pub struct Monitor {
    stats: Stats,
    history: History,
    phase: Phase,
}

impl Monitor {
    pub closed spec fn stats_view(&self) -> StatsView {
        self.stats@
    }

    pub closed spec fn history_view(&self) -> Seq<u32> {
        self.history@
    }

    pub closed spec fn capacity(&self) -> nat {
        self.history.capacity_spec()
    }

    pub closed spec fn phase_spec(&self) -> Phase {
        self.phase
    }

    pub closed spec fn inv(&self) -> bool {
        self.stats.inv() && self.history.wf()
    }

    /// A session before its first tick, with a chart window of `capacity` values.
    pub fn new(capacity: usize) -> (m: Monitor)
        ensures
            m.inv(),
            m.stats_view() == crate::stats::initial_view(),
            m.history_view() == Seq::<u32>::empty(),
            m.capacity() == capacity,
            m.phase_spec() == Phase::Waiting,
    {
        Monitor { stats: Stats::new(), history: History::new(capacity), phase: Phase::Waiting }
    }

    /// Takes in an event and says what to do next. A probe outcome taken in
    /// counts as one tick in the statistics and in the chart window.
    pub fn step(&mut self, e: Event, cancelled: bool) -> (c: Command)
        requires
            old(self).inv(),
            takes_outcome(old(self).phase_spec(), e) ==> old(self).stats_view().sent < u64::MAX,
        ensures
            final(self).inv(),
            (final(self).phase_spec(), c) == transition(old(self).phase_spec(), e, cancelled),
            final(self).capacity() == old(self).capacity(),
            final(self).stats_view() == stats_after_event(old(self).stats_view(), old(
                self,
            ).phase_spec(), e),
            match e {
                Event::Probed(r) => takes_outcome(old(self).phase_spec(), e) ==> {
                    &&& final(self).stats_view() == old(self).stats_view().after(r)
                    &&& final(self).history_view() == pushed_window(
                        old(self).history_view(),
                        chart_value(r),
                        old(self).capacity(),
                    )
                },
                _ => true,
            },
            !takes_outcome(old(self).phase_spec(), e) ==> final(self).stats_view()
                == old(self).stats_view() && final(self).history_view()
                == old(self).history_view(),
            final(self).stats_view().sent == final(self).stats_view().received
                + final(self).stats_view().lost,
    {
        proof {
            self.stats.lemma_consistent();
        }
        let c = match (self.phase, e) {
            (Phase::Waiting, Event::Ready) => {
                if cancelled {
                    self.phase = Phase::Stopping;
                    Command::Summarize
                } else {
                    self.phase = Phase::Probing;
                    Command::Probe
                }
            },
            (Phase::Probing, Event::Probed(r)) => {
                self.stats.record(&r);
                self.history.record(&r);
                self.phase = Phase::Rendering;
                Command::Render
            },
            (Phase::Rendering, Event::Rendered) => {
                if cancelled {
                    self.phase = Phase::Stopping;
                    Command::Summarize
                } else {
                    self.phase = Phase::Waiting;
                    Command::Sleep
                }
            },
            (Phase::Stopping, Event::Summarized) => {
                self.phase = Phase::Done;
                Command::Exit
            },
            (p, _) => match p {
                Phase::Waiting => Command::Sleep,
                Phase::Probing => Command::Probe,
                Phase::Rendering => Command::Render,
                Phase::Stopping => Command::Summarize,
                Phase::Done => Command::Exit,
            },
        };
        proof {
            self.stats.lemma_consistent();
        }
        c
    }

    pub fn phase(&self) -> (p: Phase)
        ensures
            p == self.phase_spec(),
    {
        self.phase
    }

    pub fn stats(&self) -> (s: &Stats)
        ensures
            s@ == self.stats_view(),
            self.inv() ==> s.inv(),
    {
        &self.stats
    }

    pub fn history(&self) -> (h: &History)
        ensures
            h@ == self.history_view(),
            h.capacity_spec() == self.capacity(),
            self.inv() ==> h.wf(),
    {
        &self.history
    }

    /// Whether another tick can be counted without the sent counter overflowing.
    pub fn can_tick(&self) -> (b: bool)
        ensures
            b == (self.stats_view().sent < u64::MAX),
    {
        self.stats.sent() < u64::MAX
    }
}

} // verus!
