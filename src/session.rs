use vstd::prelude::*;
use crate::controls::{Controls, exp_down, exp_up};
use crate::grid::Grid;
use crate::region::{lists_rect, square_cells};

verus! {

/// Steps between two diagnostic reports.
pub const REPORT_INTERVAL: u64 = 10;

/// Half-width of the square brush that paints obstacles under the pointer.
pub const BRUSH_RADIUS: u32 = 1;

/// A discrete input delivered by the input source between two steps.
#[derive(Debug, Clone, Copy, PartialEq, Eq, Structural)]
pub enum Event {
    Quit,
    GainUp,
    GainDown,
    SpeedUp,
    SpeedDown,
    /// The pointer is at `(x, y)`; `paint` tells whether painting is active.
    Pointer { x: i32, y: i32, paint: bool },
}

/// What the driver does in the step that has just begun.
#[derive(Debug, Clone, Copy, PartialEq, Eq, Structural)]
pub struct StepPlan {
    /// One-based index of the step, the argument of the source excitation.
    pub step: u64,
    /// Whether this step ends with a diagnostic report.
    pub report: bool,
}

/// The decisions of the frame loop: step counting, the control surface and
/// the reaction to input events. The driver performs the outside work.
#[derive(Debug, Clone, Copy, PartialEq, Eq, Structural)]
pub struct Session {
    pub step: u64,
    pub controls: Controls,
    pub running: bool,
}

/// Controls after one event.
pub open spec fn controls_after(c: Controls, e: Event) -> Controls {
    match e {
        Event::GainUp => Controls { gain_exp: exp_up(c.gain_exp), ..c },
        Event::GainDown => Controls { gain_exp: exp_down(c.gain_exp), ..c },
        Event::SpeedUp => Controls { speed_exp: exp_up(c.speed_exp), ..c },
        Event::SpeedDown => Controls { speed_exp: exp_down(c.speed_exp), ..c },
        _ => c,
    }
}

impl Session {
    /// Before the first step, running, with the initial controls.
    pub fn new() -> (r: Session)
        ensures
            r.step == 0,
            r.running,
            r.controls == Controls::new_spec(),
    {
        Session { step: 0, controls: Controls::new(), running: true }
    }

    /// Begins the next step: counts it and says whether it reports diagnostics.
    pub fn begin_step(&mut self) -> (r: StepPlan)
        requires
            old(self).step < u64::MAX,
        ensures
            final(self).step == old(self).step + 1,
            final(self).controls == old(self).controls,
            final(self).running == old(self).running,
            r.step == final(self).step,
            r.report == (final(self).step % REPORT_INTERVAL == 0),
    {
        self.step = self.step + 1;
        StepPlan { step: self.step, report: self.step % REPORT_INTERVAL == 0 }
    }

    /// Applies one event. Returns the cells of `g` that the obstacle brush covers,
    /// which is none unless the event is a pointer position with painting active.
    pub fn handle(&mut self, g: &Grid, e: Event) -> (r: Vec<usize>)
        requires
            g.wf(),
        ensures
            final(self).step == old(self).step,
            final(self).controls == controls_after(old(self).controls, e),
            final(self).running == (old(self).running && e != Event::Quit),
            match e {
                Event::Pointer { x, y, paint } => if paint {
                    lists_rect(
                        *g,
                        r@,
                        x - BRUSH_RADIUS,
                        y - BRUSH_RADIUS,
                        2 * BRUSH_RADIUS + 1,
                        2 * BRUSH_RADIUS + 1,
                    )
                } else {
                    r@.len() == 0
                },
                _ => r@.len() == 0,
            },
    {
        match e {
            Event::Quit => {
                self.running = false;
                Vec::new()
            },
            Event::GainUp => {
                self.controls.increase_gain();
                Vec::new()
            },
            Event::GainDown => {
                self.controls.decrease_gain();
                Vec::new()
            },
            Event::SpeedUp => {
                self.controls.increase_speed();
                Vec::new()
            },
            Event::SpeedDown => {
                self.controls.decrease_speed();
                Vec::new()
            },
            Event::Pointer { x, y, paint } => {
                if paint {
                    square_cells(g, x, y, BRUSH_RADIUS)
                } else {
                    Vec::new()
                }
            },
        }
    }
}

} // verus!
