use vstd::prelude::*;
use crate::history::{SampleHistory, history_samples, window_push};
use crate::sensor::PmsReading;
use crate::ui::{ViewMode, DrawOp, spec_next, render_ops, render_ui, SAMPLE_INTERVAL_SECS};

verus! {

/// Microseconds per second of the monotonic clock.
pub const MICROS_PER_SEC: u64 = 1_000_000;

/// Whether a reading at `now_us` is due for the history when the last sample
/// was taken at `last_us`: at least `SAMPLE_INTERVAL_SECS` whole seconds apart.
pub open spec fn sample_due(last_us: u64, now_us: u64) -> bool {
    (now_us - last_us) / (MICROS_PER_SEC as int) >= SAMPLE_INTERVAL_SECS
}

/// What the display loop has to do after one pass.
pub enum Refresh {
    /// Nothing changed on screen.
    Idle,
    /// Draw these steps, then push the frame buffer to the display.
    Draw(Vec<DrawOp>),
}

/// The state of the display loop: shown screen, pending full redraw, sample
/// history and the newest sensor frame.
pub struct Monitor {
    pub view: ViewMode,
    pub force_redraw: bool,
    pub last_sample_us: u64,
    pub last_frame: PmsReading,
    pub history: SampleHistory,
}

impl Monitor {
    /// The state at start-up, at time `now_us`: live screen, full redraw
    /// pending, empty history, an all-zero frame, and `now_us` counting as the
    /// time of the last sample.
    pub fn new(now_us: u64) -> (m: Monitor)
        ensures
            m.view == ViewMode::Live,
            m.force_redraw,
            m.last_sample_us == now_us,
            m.last_frame == (PmsReading { pm1_0_atm: 0, pm2_5_atm: 0, pm10_0_atm: 0 }),
            history_samples(m.history) == Seq::<u16>::empty(),
    {
        Monitor {
            view: ViewMode::Live,
            force_redraw: true,
            last_sample_us: now_us,
            last_frame: PmsReading { pm1_0_atm: 0, pm2_5_atm: 0, pm10_0_atm: 0 },
            history: SampleHistory::new(),
        }
    }

    /// A press of the button: the next screen, drawn from scratch.
    pub fn on_button(&mut self)
        ensures
            final(self).view == spec_next(old(self).view),
            final(self).force_redraw,
            final(self).last_sample_us == old(self).last_sample_us,
            final(self).last_frame == old(self).last_frame,
            history_samples(final(self).history) == history_samples(old(self).history),
    {
        self.view = self.view.next();
        self.force_redraw = true;
    }

    /// A sensor frame arrived at `now_us`: it becomes the newest frame, and its
    /// PM2.5 value is recorded when a sample is due. Returns whether it was.
    pub fn on_frame(&mut self, now_us: u64, frame: PmsReading) -> (sampled: bool)
        requires
            old(self).last_sample_us <= now_us,
        ensures
            sampled == sample_due(old(self).last_sample_us, now_us),
            final(self).last_frame == frame,
            final(self).view == old(self).view,
            final(self).force_redraw == old(self).force_redraw,
            sampled ==> final(self).last_sample_us == now_us,
            !sampled ==> final(self).last_sample_us == old(self).last_sample_us,
            history_samples(final(self).history) == if sampled {
                window_push(history_samples(old(self).history), frame.pm2_5_atm)
            } else {
                history_samples(old(self).history)
            },
    {
        let mut sampled = false;
        if (now_us - self.last_sample_us) / MICROS_PER_SEC >= SAMPLE_INTERVAL_SECS {
            self.history.record(frame.pm2_5_atm);
            self.last_sample_us = now_us;
            sampled = true;
        }
        self.last_frame = frame;
        sampled
    }

    /// Draws when a full redraw is pending or a new sample was recorded, and
    /// then clears the pending redraw.
    pub fn refresh(&mut self, sample_ready: bool) -> (r: Refresh)
        ensures
            final(self).view == old(self).view,
            final(self).last_sample_us == old(self).last_sample_us,
            final(self).last_frame == old(self).last_frame,
            history_samples(final(self).history) == history_samples(old(self).history),
            !final(self).force_redraw,
            !(old(self).force_redraw || sample_ready) ==> r is Idle,
            (old(self).force_redraw || sample_ready) ==> {
                &&& r is Draw
                &&& r->Draw_0@ == render_ops(old(self).last_frame, history_samples(old(self).history),
                    old(self).view, old(self).force_redraw)
            },
    {
        if self.force_redraw || sample_ready {
            let force = self.force_redraw;
            self.force_redraw = false;
            let samples = self.history.as_slice();
            Refresh::Draw(render_ui(&self.last_frame, samples, self.view, force))
        } else {
            Refresh::Idle
        }
    }

    /// One pass of the display loop at time `now_us`: a button press, then a
    /// sensor frame if one arrived, then the refresh they call for.
    pub fn tick(&mut self, now_us: u64, button_pressed: bool, frame: Option<PmsReading>) -> (r: Refresh)
        requires
            old(self).last_sample_us <= now_us,
        ensures
            ({
                let view = if button_pressed { spec_next(old(self).view) } else { old(self).view };
                let force = old(self).force_redraw || button_pressed;
                let sampled = frame is Some && sample_due(old(self).last_sample_us, now_us);
                let history = if sampled {
                    window_push(history_samples(old(self).history), frame->Some_0.pm2_5_atm)
                } else {
                    history_samples(old(self).history)
                };
                let shown = if frame is Some { frame->Some_0 } else { old(self).last_frame };
                &&& final(self).view == view
                &&& !final(self).force_redraw
                &&& final(self).last_frame == shown
                &&& final(self).last_sample_us == if sampled { now_us } else { old(self).last_sample_us }
                &&& history_samples(final(self).history) == history
                &&& !(force || sampled) ==> r is Idle
                &&& (force || sampled) ==> {
                    &&& r is Draw
                    &&& r->Draw_0@ == render_ops(shown, history, view, force)
                }
            }),
    {
        if button_pressed {
            self.on_button();
        }
        let mut sample_ready = false;
        if let Some(f) = frame {
            sample_ready = self.on_frame(now_us, f);
        }
        self.refresh(sample_ready)
    }
}

} // verus!
