use vstd::prelude::*;
use crate::monitor::MICROS_PER_SEC;

verus! {

/// Minutes the sensor measures in each duty cycle.
pub const ACTIVE_MINUTES: u64 = 120;
/// Minutes the sensor sleeps in each duty cycle.
pub const SLEEP_MINUTES: u64 = 10;
/// Backlight duty while the display is lit.
pub const BACKLIGHT_BRIGHTNESS: u8 = 10;
/// Backlight duty while the display is dimmed.
pub const DIMMED_BRIGHTNESS: u8 = 0;
/// Seconds without a button press after which the backlight dims.
pub const BACKLIGHT_TIMEOUT_SECS: u64 = 30;
/// Milliseconds to wait after a press before watching for the release.
pub const PRESS_DEBOUNCE_MS: u64 = 50;
/// Milliseconds between two looks at a held button.
pub const HOLD_POLL_MS: u64 = 10;
/// Milliseconds to wait after the release.
pub const RELEASE_DEBOUNCE_MS: u64 = 20;
/// Seconds to wait between two looks at the clock while the sensor sleeps.
pub const SLEEP_POLL_SECS: u64 = 1;

/// What the sensor task does next.
#[derive(Copy, Clone, Debug, PartialEq, Eq)]
pub enum DutyAction {
    /// Send the sleep command: the active period is over.
    PutToSleep,
    /// Read and publish one frame.
    ReadFrame,
    /// Send the wake-up command and start a new cycle.
    WakeUp,
    /// Wait `SLEEP_POLL_SECS` and look again.
    Wait,
}

/// The sensor's duty cycle: measuring for `ACTIVE_MINUTES`, then asleep until
/// `ACTIVE_MINUTES + SLEEP_MINUTES` after the cycle started.
pub struct SensorDuty {
    pub active: bool,
    pub cycle_start_us: u64,
}

/// The action the duty cycle calls for after `elapsed_secs` whole seconds of
/// the current cycle.
pub open spec fn duty_action(active: bool, elapsed_secs: int) -> DutyAction {
    if active {
        if elapsed_secs / 60 >= ACTIVE_MINUTES {
            DutyAction::PutToSleep
        } else {
            DutyAction::ReadFrame
        }
    } else if elapsed_secs >= (ACTIVE_MINUTES * 60 + SLEEP_MINUTES * 60) {
        DutyAction::WakeUp
    } else {
        DutyAction::Wait
    }
}

impl SensorDuty {
    /// A cycle that starts, measuring, at `now_us`.
    pub fn new(now_us: u64) -> (d: SensorDuty)
        ensures
            d.active,
            d.cycle_start_us == now_us,
    {
        SensorDuty { active: true, cycle_start_us: now_us }
    }

    /// Decides what to do at `now_us` and notes whether the sensor is
    /// measuring afterwards; a wake-up also starts a new cycle at `now_us`.
    pub fn step(&mut self, now_us: u64) -> (a: DutyAction)
        requires
            old(self).cycle_start_us <= now_us,
        ensures
            a == duty_action(old(self).active, (now_us - old(self).cycle_start_us) / (MICROS_PER_SEC as int)),
            final(self).active == (a is ReadFrame || a is WakeUp),
            a is WakeUp ==> final(self).cycle_start_us == now_us,
            !(a is WakeUp) ==> final(self).cycle_start_us == old(self).cycle_start_us,
    {
        let elapsed_secs: u64 = (now_us - self.cycle_start_us) / MICROS_PER_SEC;
        if self.active {
            if elapsed_secs / 60 >= ACTIVE_MINUTES {
                self.active = false;
                DutyAction::PutToSleep
            } else {
                DutyAction::ReadFrame
            }
        } else {
            if elapsed_secs >= (ACTIVE_MINUTES * 60) + (SLEEP_MINUTES * 60) {
                self.active = true;
                self.cycle_start_us = now_us;
                DutyAction::WakeUp
            } else {
                DutyAction::Wait
            }
        }
    }

    /// Moves the start of the current cycle to `at_us`, the time the wake-up
    /// command was done.
    pub fn restart_cycle(&mut self, at_us: u64)
        ensures
            final(self).active == old(self).active,
            final(self).cycle_start_us == at_us,
    {
        self.cycle_start_us = at_us;
    }
}

/// The sensor measures for the whole active period and sleeps exactly from its
/// end until the next cycle is due.
pub proof fn lemma_duty_cycle_periods(elapsed_secs: int)
    requires
        elapsed_secs >= 0,
    ensures
        elapsed_secs < ACTIVE_MINUTES * 60 ==> duty_action(true, elapsed_secs) == DutyAction::ReadFrame,
        elapsed_secs >= ACTIVE_MINUTES * 60 ==> duty_action(true, elapsed_secs) == DutyAction::PutToSleep,
        elapsed_secs < (ACTIVE_MINUTES + SLEEP_MINUTES) * 60 ==> duty_action(false, elapsed_secs) == DutyAction::Wait,
        elapsed_secs >= (ACTIVE_MINUTES + SLEEP_MINUTES) * 60 ==> duty_action(false, elapsed_secs) == DutyAction::WakeUp,
{
}

/// Whether the sensor measures after `a`.
pub open spec fn active_after(a: DutyAction) -> bool {
    a is ReadFrame || a is WakeUp
}

/// The actions of the sensor task for the cycle times (in whole seconds)
/// that it finds at successive steps, starting measuring or not.
pub open spec fn duty_trace(active: bool, elapsed: Seq<int>) -> Seq<DutyAction>
    decreases elapsed.len(),
{
    if elapsed.len() == 0 {
        seq![]
    } else {
        let a = duty_action(active, elapsed[0]);
        seq![a] + duty_trace(active_after(a), elapsed.drop_first())
    }
}

/// The commands sent to the sensor among some actions, in order.
pub open spec fn sent_commands(actions: Seq<DutyAction>) -> Seq<DutyAction>
    decreases actions.len(),
{
    if actions.len() == 0 {
        seq![]
    } else if actions[0] is PutToSleep || actions[0] is WakeUp {
        seq![actions[0]] + sent_commands(actions.drop_first())
    } else {
        sent_commands(actions.drop_first())
    }
}

/// While the sensor sleeps it is never read: the only actions are waiting,
/// which keeps it asleep, and waking it up.
pub proof fn lemma_no_reads_while_asleep(elapsed_secs: int)
    ensures
        duty_action(false, elapsed_secs) is Wait || duty_action(false, elapsed_secs) is WakeUp,
        duty_action(false, elapsed_secs) is Wait ==> !active_after(duty_action(false, elapsed_secs)),
        duty_action(true, elapsed_secs) is ReadFrame || duty_action(true, elapsed_secs) is PutToSleep,
{
}

/// The commands sent to the sensor alternate: sleep, wake, sleep, ... when it
/// starts measuring, and wake, sleep, ... when it starts asleep.
pub proof fn lemma_commands_alternate(active: bool, elapsed: Seq<int>)
    ensures
        forall|i: int| 0 <= i < sent_commands(duty_trace(active, elapsed)).len() ==>
            #[trigger] sent_commands(duty_trace(active, elapsed))[i]
                == if (i % 2 == 0) == active { DutyAction::PutToSleep } else { DutyAction::WakeUp },
    decreases elapsed.len(),
{
    if elapsed.len() > 0 {
        let a = duty_action(active, elapsed[0]);
        let rest = duty_trace(active_after(a), elapsed.drop_first());
        lemma_commands_alternate(active_after(a), elapsed.drop_first());
        let trace = duty_trace(active, elapsed);
        assert(trace[0] == a);
        assert(trace.drop_first() =~= rest);
        let cmds = sent_commands(trace);
        assert forall|i: int| 0 <= i < cmds.len() implies
            #[trigger] cmds[i] == if (i % 2 == 0) == active { DutyAction::PutToSleep } else { DutyAction::WakeUp } by {
            if a is PutToSleep || a is WakeUp {
                if i > 0 {
                    assert(cmds[i] == sent_commands(rest)[i - 1]);
                }
            } else {
                assert(cmds[i] == sent_commands(rest)[i]);
            }
        }
    }
}

/// Whether the backlight is lit.
#[derive(Copy, Clone, Debug, PartialEq, Eq)]
pub enum Backlight {
    /// Lit; it dims after `BACKLIGHT_TIMEOUT_SECS` without a press.
    Lit,
    /// Dimmed until the next press.
    Dimmed,
}

/// What the backlight task waited for.
#[derive(Copy, Clone, Debug, PartialEq, Eq)]
pub enum BacklightEvent {
    /// A button press was signalled.
    Woken,
    /// The wait ran out without a press.
    TimedOut,
}

impl Backlight {
    /// Seconds to wait for a press in this state; `None` waits with no limit.
    pub fn wait_limit_secs(self) -> (limit: Option<u64>)
        ensures
            limit == (match self {
                Backlight::Lit => Some(BACKLIGHT_TIMEOUT_SECS),
                Backlight::Dimmed => None::<u64>,
            }),
    {
        match self {
            Backlight::Lit => Some(BACKLIGHT_TIMEOUT_SECS),
            Backlight::Dimmed => None,
        }
    }

    /// The next state and the duty to set after `event`: a press lights the
    /// display, a timeout dims it.
    pub fn step(self, event: BacklightEvent) -> (r: (Backlight, u8))
        ensures
            event is Woken ==> r == (Backlight::Lit, BACKLIGHT_BRIGHTNESS),
            event is TimedOut ==> r == (Backlight::Dimmed, DIMMED_BRIGHTNESS),
    {
        match event {
            BacklightEvent::Woken => (Backlight::Lit, BACKLIGHT_BRIGHTNESS),
            BacklightEvent::TimedOut => (Backlight::Dimmed, DIMMED_BRIGHTNESS),
        }
    }
}

/// Where the button task stands.
#[derive(Copy, Clone, Debug, PartialEq, Eq)]
pub enum ButtonPhase {
    /// Waiting for a falling edge.
    Released,
    /// A press was signalled; waiting for the button to come up.
    Held,
}

/// What the button task does after one look at the button.
#[derive(Copy, Clone, Debug, PartialEq, Eq)]
pub struct ButtonStep {
    pub next: ButtonPhase,
    /// Signal a press to the display and the backlight.
    pub notify: bool,
    /// Milliseconds to wait before the next look.
    pub delay_ms: u64,
}

/// One look at the button. In `Released` the task has just seen a falling
/// edge: it signals the press once and waits out the bounce. In `Held` it
/// waits while the button is still down, and waits out the bounce of the
/// release once it is up.
pub fn button_step(phase: ButtonPhase, is_low: bool) -> (s: ButtonStep)
    ensures
        phase is Released ==> s == (ButtonStep { next: ButtonPhase::Held, notify: true, delay_ms: PRESS_DEBOUNCE_MS }),
        phase is Held && is_low ==> s == (ButtonStep { next: ButtonPhase::Held, notify: false, delay_ms: HOLD_POLL_MS }),
        phase is Held && !is_low ==> s == (ButtonStep { next: ButtonPhase::Released, notify: false, delay_ms: RELEASE_DEBOUNCE_MS }),
{
    match phase {
        ButtonPhase::Released => ButtonStep { next: ButtonPhase::Held, notify: true, delay_ms: PRESS_DEBOUNCE_MS },
        ButtonPhase::Held => {
            if is_low {
                ButtonStep { next: ButtonPhase::Held, notify: false, delay_ms: HOLD_POLL_MS }
            } else {
                ButtonStep { next: ButtonPhase::Released, notify: false, delay_ms: RELEASE_DEBOUNCE_MS }
            }
        },
    }
}

} // verus!
