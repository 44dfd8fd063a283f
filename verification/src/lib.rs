//! Verified core of a PMS5003 air-quality monitor: the sensor protocol, the
//! 24-hour sample history, the decisions of the duty cycle, backlight and
//! button, and what each screen of the display draws.
pub mod sensor;
pub mod color;
pub mod ui;
pub mod history;
pub mod monitor;
pub mod control;
pub mod text;
pub mod laws;

pub use sensor::{
    PmsReading, SyncState, SyncStep, to_command, sleep_command, wake_command, sync_step,
    MAGIC1, MAGIC2, COMMAND_SIZE, CHECKSUM_SIZE, PAYLOAD_SIZE, CMD_SLEEP_WAKE,
};
pub use color::{AqiLevel, Ink, aqi_level, get_aqi_color};
pub use ui::{
    ViewMode, Label, TextKind, DrawOp, render_ui,
    GRAPH_TOP, GRAPH_BOTTOM, GRAPH_LEFT, GRAPH_WIDTH, GRAPH_HEIGHT, HISTORY_HOURS,
    SAMPLE_INTERVAL_SECS, MAX_HISTORY, SAMPLES_PER_HOUR, LAST_HOUR_MINUTES, LAST_DAY_MINUTES,
};
pub use history::SampleHistory;
pub use monitor::{Monitor, Refresh, MICROS_PER_SEC};
pub use control::{
    SensorDuty, DutyAction, Backlight, BacklightEvent, ButtonPhase, ButtonStep, button_step,
    ACTIVE_MINUTES, SLEEP_MINUTES, BACKLIGHT_BRIGHTNESS, DIMMED_BRIGHTNESS, BACKLIGHT_TIMEOUT_SECS,
    PRESS_DEBOUNCE_MS, HOLD_POLL_MS, RELEASE_DEBOUNCE_MS, SLEEP_POLL_SECS,
};
