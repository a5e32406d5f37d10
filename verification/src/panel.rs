//! One control cycle: from the readings of the operator panel to the next
//! control state and to what has to be done to the stepper drive.

use crate::app::{App, AppState, Input, MotorState};
use crate::encoder::{detent_event, next_baseline, RotaryEncoder};
use crate::pulse::{pulse_interval, pulse_interval_us};
use vstd::prelude::*;

verus! {

/// What the panel reads in one cycle. Every level is `true` while its
/// control is actuated.
#[derive(Clone, Copy, Debug)]
pub struct Readings {
    /// The limit switch is triggered.
    pub limit_pressed: bool,
    /// The direction switch closes its left contact.
    pub dir_left: bool,
    /// The direction switch closes its right contact.
    pub dir_right: bool,
    /// The rapid-feed button is held.
    pub rapid_pressed: bool,
    /// The tick counter of the dial's encoder.
    pub dial_count: u16,
}

/// What a cycle asks of the stepper drive.
#[derive(Clone, Copy, Debug, PartialEq, Eq, Structural)]
pub enum DriveAction {
    /// The motor command has not changed: leave the drive as it is.
    Keep,
    /// Stop the step pulses.
    Disable,
    /// Set the direction output, set the period of the step pulses and let
    /// them run.
    Run {
        /// Level of the direction output: high turns the motor clockwise.
        direction_high: bool,
        /// Period of the step pulses in microseconds.
        period_us: u32,
    },
}

/// The position of the three-way direction switch, from its two contacts:
/// left where the left contact is closed, right where only the right one
/// is, the centre where neither is.
pub open spec fn direction_of(dir_left: bool, dir_right: bool) -> Input {
    if dir_left {
        Input::DirSwitchLeft
    } else if dir_right {
        Input::DirSwitchRight
    } else {
        Input::DirSwitchOff
    }
}

/// The control state after a cycle that read `readings` with the dial's
/// decoder at `baseline`: the limit switch is taken first, then the
/// direction switch, then the rapid button, and last the detents that the
/// dial has turned, if it has turned any.
pub open spec fn state_after_cycle(s: AppState, readings: Readings, baseline: u16) -> AppState {
    let switched = s.next(Input::LimitSwitch(readings.limit_pressed)).next(
        direction_of(readings.dir_left, readings.dir_right),
    ).next(Input::RapidButton(readings.rapid_pressed));
    match detent_event(baseline, readings.dial_count) {
        Some(diff) => switched.next(Input::DialChange(diff)),
        None => switched,
    }
}

/// What the drive has to do to carry out `state`.
pub open spec fn drive_for(state: MotorState, steps_per_rev: u16) -> DriveAction {
    match state {
        MotorState::Stop => DriveAction::Disable,
        MotorState::CW(rpm) => DriveAction::Run {
            direction_high: true,
            period_us: pulse_interval(rpm, steps_per_rev) as u32,
        },
        MotorState::CCW(rpm) => DriveAction::Run {
            direction_high: false,
            period_us: pulse_interval(rpm, steps_per_rev) as u32,
        },
    }
}

/// What the drive has to do when the motor command goes from `before` to
/// `after`: nothing where the two are the same.
pub open spec fn drive_change(before: MotorState, after: MotorState, steps_per_rev: u16)
    -> DriveAction {
    if before == after {
        DriveAction::Keep
    } else {
        drive_for(after, steps_per_rev)
    }
}

/// Mathematical model of the controller.
pub struct ControllerState {
    pub app: AppState,
    /// Baseline of the dial's decoder.
    pub baseline: u16,
    /// The motor command that the drive was last set to.
    pub driven: MotorState,
    pub steps_per_rev: u16,
}

/// A triggered limit switch wins the cycle: whatever the other readings
/// are, the motor is commanded to stop, and the drive is stopped unless it
/// already stands.
pub proof fn lemma_limit_stops_within_cycle(
    s: AppState,
    readings: Readings,
    baseline: u16,
    driven: MotorState,
    steps_per_rev: u16,
)
    requires
        readings.limit_pressed,
    ensures
        state_after_cycle(s, readings, baseline).motor_state() == MotorState::Stop,
        drive_change(
            driven,
            state_after_cycle(s, readings, baseline).motor_state(),
            steps_per_rev,
        ) == if driven == MotorState::Stop {
            DriveAction::Keep
        } else {
            DriveAction::Disable
        },
{
}

/// An alarm outlasts every cycle in which the direction switch is not in
/// its centre position, whether the limit switch is still triggered or not.
pub proof fn lemma_alarm_outlasts_cycle(s: AppState, readings: Readings, baseline: u16)
    requires
        s.mode is Alarm,
        readings.dir_left || readings.dir_right,
    ensures
        state_after_cycle(s, readings, baseline).mode is Alarm,
{
}

/// A cycle keeps both feed rates in range.
pub proof fn lemma_cycle_keeps_rates_in_range(s: AppState, readings: Readings, baseline: u16)
    requires
        s.rates_in_range(),
    ensures
        state_after_cycle(s, readings, baseline).rates_in_range(),
{
}

/// Reads the position of the direction switch from its two contacts.
pub fn read_direction(dir_left: bool, dir_right: bool) -> (input: Input)
    ensures
        input == direction_of(dir_left, dir_right),
{
    if dir_left {
        Input::DirSwitchLeft
    } else if dir_right {
        Input::DirSwitchRight
    } else {
        Input::DirSwitchOff
    }
}

/// The setting of the drive that carries out `state` on a motor with
/// `steps_per_rev` steps per revolution.
pub fn drive_setting(state: MotorState, steps_per_rev: u16) -> (action: DriveAction)
    ensures
        action == drive_for(state, steps_per_rev),
{
    match state {
        MotorState::Stop => DriveAction::Disable,
        MotorState::CW(rpm) => DriveAction::Run {
            direction_high: true,
            period_us: pulse_interval_us(rpm, steps_per_rev),
        },
        MotorState::CCW(rpm) => DriveAction::Run {
            direction_high: false,
            period_us: pulse_interval_us(rpm, steps_per_rev),
        },
    }
}

/// The control core as the polling loop holds it: the control state, the
/// dial's decoder and the motor command that the drive was last set to.
pub struct Controller {
    app: App,
    encoder: RotaryEncoder,
    driven: MotorState,
    steps_per_rev: u16,
}

impl View for Controller {
    type V = ControllerState;

    closed spec fn view(&self) -> ControllerState {
        ControllerState {
            app: self.app@,
            baseline: self.encoder@,
            driven: self.driven,
            steps_per_rev: self.steps_per_rev,
        }
    }
}

impl Controller {
    /// The controller at power-up: the control state at its defaults, the
    /// decoder's baseline at `dial_count`, the drive stopped.
    pub fn new(dial_count: u16, steps_per_rev: u16) -> (controller: Controller)
        ensures
            controller@ == (ControllerState {
                app: AppState::initial(),
                baseline: dial_count,
                driven: MotorState::Stop,
                steps_per_rev,
            }),
    {
        Controller {
            app: App::default(),
            encoder: RotaryEncoder::new(dial_count),
            driven: MotorState::Stop,
            steps_per_rev,
        }
    }

    /// The control state, for the display.
    pub fn app(&self) -> (app: &App)
        ensures
            app@ == self@.app,
    {
        &self.app
    }

    /// Runs one cycle on `readings` and says what to do to the drive.
    pub fn cycle(&mut self, readings: Readings) -> (action: DriveAction)
        ensures
            final(self)@.app == state_after_cycle(old(self)@.app, readings, old(self)@.baseline),
            final(self)@.app.rates_in_range(),
            final(self)@.baseline == next_baseline(old(self)@.baseline, readings.dial_count),
            final(self)@.driven == final(self)@.app.motor_state(),
            final(self)@.steps_per_rev == old(self)@.steps_per_rev,
            action == drive_change(
                old(self)@.driven,
                final(self)@.app.motor_state(),
                old(self)@.steps_per_rev,
            ),
    {
        self.app.input_limit_switch(readings.limit_pressed);
        self.app.input(read_direction(readings.dir_left, readings.dir_right));
        self.app.input_rapid_button(readings.rapid_pressed);
        if let Some(diff) = self.encoder.poll(readings.dial_count) {
            self.app.input_dial_change(diff);
        }
        let motor_state = self.app.motor_state();
        if motor_state != self.driven {
            self.driven = motor_state;
            drive_setting(motor_state, self.steps_per_rev)
        } else {
            DriveAction::Keep
        }
    }
}

} // verus!
