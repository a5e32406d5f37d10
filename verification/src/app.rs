//! The mode state machine: how the operator's switches and dial move the
//! feed between stopped, running and alarmed, and which motor command each
//! state asks for.

use crate::status::{line_text, rate_line, rate_text, status_line, status_text};
use vstd::prelude::*;

verus! {

/// Feed rate of the normal setting after power-up.
pub const DEFAULT_FEED_RATE: u16 = 10;

/// Feed rate of the rapid setting after power-up.
pub const DEFAULT_RAPID_FEED_RATE: u16 = 75;

/// Lowest feed rate the dial can reach.
pub const MIN_FEED_RATE: u16 = 1;

/// Highest feed rate the dial can reach.
pub const MAX_FEED_RATE: u16 = 100;

/// Why the feed is alarmed.
#[derive(Clone, Copy, Debug, PartialEq, Eq, Structural)]
pub enum Alarm {
    /// The limit switch has been triggered.
    Limit,
}

/// Operating mode of the feed.
#[derive(Clone, Copy, Debug, PartialEq, Eq, Structural)]
pub enum Mode {
    Stop,
    /// Feeding towards the chuck.
    RunForward,
    /// Feeding towards the tailstock.
    RunReverse,
    /// The motor is held stopped until the direction switch returns to off.
    Alarm(Alarm),
}

/// What the motor is asked to do.
#[derive(Clone, Copy, Debug, PartialEq, Eq, Structural)]
pub enum MotorState {
    /// The motor is not running.
    Stop,
    /// Turn clockwise at the given RPM.
    CW(u16),
    /// Turn counter-clockwise at the given RPM.
    CCW(u16),
}

/// One operator input, as the state machine sees it.
#[derive(Clone, Copy, Debug, PartialEq, Eq, Structural)]
pub enum Input {
    /// The direction switch stands in its centre position.
    DirSwitchOff,
    /// The direction switch stands to the left.
    DirSwitchLeft,
    /// The direction switch stands to the right.
    DirSwitchRight,
    /// Level of the rapid-feed button: `true` while it is held.
    RapidButton(bool),
    /// Level of the limit switch: `true` while it is triggered.
    LimitSwitch(bool),
    /// The dial moved by this many detents.
    DialChange(i16),
}

/// `x` brought into the range of feed rates.
pub open spec fn clamp_rate(x: int) -> int {
    if x < MIN_FEED_RATE as int {
        MIN_FEED_RATE as int
    } else if x > MAX_FEED_RATE as int {
        MAX_FEED_RATE as int
    } else {
        x
    }
}

/// Mathematical model of the control state.
pub struct AppState {
    pub mode: Mode,
    pub feed_rate: int,
    pub rapid_feed_rate: int,
    pub rapid: bool,
}

impl AppState {
    /// The state after power-up.
    pub open spec fn initial() -> AppState {
        AppState {
            mode: Mode::Stop,
            feed_rate: DEFAULT_FEED_RATE as int,
            rapid_feed_rate: DEFAULT_RAPID_FEED_RATE as int,
            rapid: false,
        }
    }

    /// Both feed rates lie between the lowest and the highest rate.
    pub open spec fn rates_in_range(self) -> bool {
        &&& MIN_FEED_RATE <= self.feed_rate <= MAX_FEED_RATE
        &&& MIN_FEED_RATE <= self.rapid_feed_rate <= MAX_FEED_RATE
    }

    /// The rate in force: the rapid rate while the button is held, the
    /// normal rate otherwise.
    pub open spec fn active_rate(self) -> int {
        if self.rapid {
            self.rapid_feed_rate
        } else {
            self.feed_rate
        }
    }

    /// The state that follows `self` on `input`.
    pub open spec fn next(self, input: Input) -> AppState {
        match input {
            Input::DirSwitchOff => AppState { mode: Mode::Stop, ..self },
            Input::DirSwitchLeft => if self.mode == Mode::Stop {
                AppState { mode: Mode::RunForward, ..self }
            } else {
                self
            },
            Input::DirSwitchRight => if self.mode == Mode::Stop {
                AppState { mode: Mode::RunReverse, ..self }
            } else {
                self
            },
            Input::RapidButton(pressed) => AppState { rapid: pressed, ..self },
            Input::LimitSwitch(pressed) => if pressed {
                AppState { mode: Mode::Alarm(Alarm::Limit), ..self }
            } else {
                self
            },
            Input::DialChange(diff) => if self.rapid {
                AppState { rapid_feed_rate: clamp_rate(self.rapid_feed_rate + diff), ..self }
            } else {
                AppState { feed_rate: clamp_rate(self.feed_rate + diff), ..self }
            },
        }
    }

    /// The state reached from `self` after all of `inputs`, first to last.
    pub open spec fn run(self, inputs: Seq<Input>) -> AppState
        decreases inputs.len(),
    {
        if inputs.len() == 0 {
            self
        } else {
            self.run(inputs.drop_last()).next(inputs.last())
        }
    }

    /// The command the motor gets in this state. Forward feed turns the
    /// motor counter-clockwise, reverse feed clockwise.
    pub open spec fn motor_state(self) -> MotorState {
        match self.mode {
            Mode::Stop => MotorState::Stop,
            Mode::RunForward => MotorState::CCW(self.active_rate() as u16),
            Mode::RunReverse => MotorState::CW(self.active_rate() as u16),
            Mode::Alarm(_) => MotorState::Stop,
        }
    }
}

/// No input is the centre position of the direction switch.
pub open spec fn none_is_switch_off(inputs: Seq<Input>) -> bool {
    forall|i: int| 0 <= i < inputs.len() ==> inputs[i] != Input::DirSwitchOff
}

/// Clamp invariant: no input takes a feed rate out of its range.
pub proof fn lemma_next_keeps_rates_in_range(s: AppState, input: Input)
    requires
        s.rates_in_range(),
    ensures
        s.next(input).rates_in_range(),
{
}

/// Clamp invariant: from a state whose rates are in range, both feed rates
/// stay in range after every input of every sequence.
pub proof fn lemma_rates_always_in_range(s: AppState, inputs: Seq<Input>)
    requires
        s.rates_in_range(),
    ensures
        s.run(inputs).rates_in_range(),
        forall|k: int| 0 <= k <= inputs.len() ==> (#[trigger] s.run(inputs.take(k))).rates_in_range(),
    decreases inputs.len(),
{
    if inputs.len() > 0 {
        lemma_rates_always_in_range(s, inputs.drop_last());
        lemma_next_keeps_rates_in_range(s.run(inputs.drop_last()), inputs.last());
    }
    assert forall|k: int| 0 <= k <= inputs.len() implies (#[trigger] s.run(
        inputs.take(k),
    )).rates_in_range() by {
        if k == inputs.len() {
            assert(inputs.take(k) =~= inputs);
        } else {
            assert(inputs.take(k) =~= inputs.drop_last().take(k));
        }
    }
}

/// Clamp invariant from power-up: whatever inputs follow, both feed rates
/// are in range at the start and after each of them.
pub proof fn lemma_rates_in_range_from_power_up(inputs: Seq<Input>)
    ensures
        AppState::initial().rates_in_range(),
        forall|k: int|
            0 <= k <= inputs.len() ==> (#[trigger] AppState::initial().run(
                inputs.take(k),
            )).rates_in_range(),
{
    lemma_rates_always_in_range(AppState::initial(), inputs);
}

/// Interlock: the direction switch starts the feed from `Stop` only. In any
/// other mode its left and right positions change nothing, and an input that
/// brings the feed into a run mode found it stopped.
pub proof fn lemma_direction_interlock(s: AppState, input: Input)
    ensures
        (input == Input::DirSwitchLeft || input == Input::DirSwitchRight) && s.mode != Mode::Stop
            ==> s.next(input) == s,
        s.mode == Mode::Stop ==> s.next(Input::DirSwitchLeft).mode == Mode::RunForward,
        s.mode == Mode::Stop ==> s.next(Input::DirSwitchRight).mode == Mode::RunReverse,
        (s.next(input).mode == Mode::RunForward || s.next(input).mode == Mode::RunReverse)
            && s.next(input).mode != s.mode ==> s.mode == Mode::Stop,
{
}

/// A triggered limit switch alarms the feed from every mode and leaves the
/// rates and the rapid level as they were.
pub proof fn lemma_limit_switch_alarms(s: AppState)
    ensures
        s.next(Input::LimitSwitch(true)) == (AppState { mode: Mode::Alarm(Alarm::Limit), ..s }),
        s.next(Input::LimitSwitch(true)).motor_state() == MotorState::Stop,
{
}

/// Alarm latching: only the centre position of the direction switch ends an
/// alarm. Every other input, a released limit switch among them, leaves the
/// feed alarmed, and so does every sequence of such inputs.
pub proof fn lemma_alarm_latches(s: AppState, inputs: Seq<Input>)
    requires
        s.mode is Alarm,
        none_is_switch_off(inputs),
    ensures
        s.run(inputs).mode is Alarm,
        s.run(inputs).motor_state() == MotorState::Stop,
        s.next(Input::DirSwitchOff).mode == Mode::Stop,
    decreases inputs.len(),
{
    if inputs.len() > 0 {
        lemma_alarm_latches(s, inputs.drop_last());
        assert(inputs.last() == inputs[inputs.len() - 1]);
    }
}

/// One input that is not the centre position leaves an alarmed feed alarmed.
pub proof fn lemma_alarm_survives_input(s: AppState, input: Input)
    requires
        s.mode is Alarm,
        input != Input::DirSwitchOff,
    ensures
        s.next(input).mode == s.mode,
{
}

/// The motor stands still exactly when the feed is stopped or alarmed;
/// forward feed turns it counter-clockwise and reverse feed clockwise, at
/// the rate in force, which is never zero.
pub proof fn lemma_motor_state(s: AppState)
    requires
        s.rates_in_range(),
    ensures
        s.motor_state() == MotorState::Stop <==> s.mode == Mode::Stop || s.mode is Alarm,
        s.mode == Mode::RunForward ==> s.motor_state() == MotorState::CCW(s.active_rate() as u16),
        s.mode == Mode::RunReverse ==> s.motor_state() == MotorState::CW(s.active_rate() as u16),
        MIN_FEED_RATE <= s.active_rate() as u16 <= MAX_FEED_RATE,
        s.active_rate() as u16 == s.active_rate(),
{
}

/// The centre position of the direction switch is idempotent: taken twice
/// in a row it leaves the state that it left the first time.
pub proof fn lemma_switch_off_idempotent(s: AppState)
    ensures
        s.next(Input::DirSwitchOff).next(Input::DirSwitchOff) == s.next(Input::DirSwitchOff),
        s.next(Input::DirSwitchOff).mode == Mode::Stop,
{
}

/// `rate + diff`, computed without wrapping and brought into the range of
/// feed rates.
fn clamped_sum(rate: u16, diff: i16) -> (clamped: u16)
    ensures
        clamped == clamp_rate(rate + diff),
{
    let sum: i32 = rate as i32 + diff as i32;
    if sum < MIN_FEED_RATE as i32 {
        MIN_FEED_RATE
    } else if sum > MAX_FEED_RATE as i32 {
        MAX_FEED_RATE
    } else {
        sum as u16
    }
}

/// The control state: operating mode, the two feed rates and the level of
/// the rapid-feed button.
pub struct App {
    mode: Mode,
    feed_rate: u16,
    rapid_feed_rate: u16,
    rapid: bool,
}

impl View for App {
    type V = AppState;

    closed spec fn view(&self) -> AppState {
        AppState {
            mode: self.mode,
            feed_rate: self.feed_rate as int,
            rapid_feed_rate: self.rapid_feed_rate as int,
            rapid: self.rapid,
        }
    }
}

impl Default for App {
    fn default() -> (app: App)
        ensures
            app@ == AppState::initial(),
            app@.rates_in_range(),
    {
        App {
            mode: Mode::Stop,
            feed_rate: DEFAULT_FEED_RATE,
            rapid_feed_rate: DEFAULT_RAPID_FEED_RATE,
            rapid: false,
        }
    }
}

impl App {
    #[verifier::type_invariant]
    spec fn inv(self) -> bool {
        self@.rates_in_range()
    }

    /// The direction switch stands in its centre position: the feed stops,
    /// and an alarm is cleared.
    pub fn input_dir_switch_off(&mut self)
        ensures
            final(self)@ == old(self)@.next(Input::DirSwitchOff),
            final(self)@.mode == Mode::Stop,
            final(self)@.rates_in_range(),
    {
        proof {
            use_type_invariant(&*self);
        }
        self.mode = Mode::Stop
    }

    /// The direction switch stands to the left: a stopped feed starts
    /// forward; in any other mode nothing changes.
    pub fn input_dir_switch_left(&mut self)
        ensures
            final(self)@ == old(self)@.next(Input::DirSwitchLeft),
            old(self)@.mode != Mode::Stop ==> final(self)@ == old(self)@,
            final(self)@.rates_in_range(),
    {
        proof {
            use_type_invariant(&*self);
        }
        if self.mode == Mode::Stop {
            self.mode = Mode::RunForward
        }
    }

    /// The direction switch stands to the right: a stopped feed starts in
    /// reverse; in any other mode nothing changes.
    pub fn input_dir_switch_right(&mut self)
        ensures
            final(self)@ == old(self)@.next(Input::DirSwitchRight),
            old(self)@.mode != Mode::Stop ==> final(self)@ == old(self)@,
            final(self)@.rates_in_range(),
    {
        proof {
            use_type_invariant(&*self);
        }
        if self.mode == Mode::Stop {
            self.mode = Mode::RunReverse
        }
    }

    /// Takes the level of the rapid-feed button, whatever the mode.
    pub fn input_rapid_button(&mut self, pressed: bool)
        ensures
            final(self)@ == old(self)@.next(Input::RapidButton(pressed)),
            final(self)@.rapid == pressed,
            final(self)@.mode == old(self)@.mode,
            final(self)@.rates_in_range(),
    {
        proof {
            use_type_invariant(&*self);
        }
        self.rapid = pressed;
    }

    /// Takes the level of the limit switch: a triggered switch alarms the
    /// feed from any mode, a released one changes nothing.
    pub fn input_limit_switch(&mut self, pressed: bool)
        ensures
            final(self)@ == old(self)@.next(Input::LimitSwitch(pressed)),
            pressed ==> final(self)@.mode == Mode::Alarm(Alarm::Limit),
            !pressed ==> final(self)@ == old(self)@,
            final(self)@.rates_in_range(),
    {
        proof {
            use_type_invariant(&*self);
        }
        if pressed {
            self.mode = Mode::Alarm(Alarm::Limit);
        }
    }

    /// The dial moved by `diff` detents: the rate in force moves with it and
    /// stops at the lowest and the highest rate.
    pub fn input_dial_change(&mut self, diff: i16)
        ensures
            final(self)@ == old(self)@.next(Input::DialChange(diff)),
            final(self)@.rates_in_range(),
            final(self)@.active_rate() == clamp_rate(old(self)@.active_rate() + diff),
    {
        proof {
            use_type_invariant(&*self);
        }
        if self.rapid {
            self.rapid_feed_rate = clamped_sum(self.rapid_feed_rate, diff);
        } else {
            self.feed_rate = clamped_sum(self.feed_rate, diff);
        }
    }

    /// Takes one input, whichever it is.
    pub fn input(&mut self, input: Input)
        ensures
            final(self)@ == old(self)@.next(input),
            final(self)@.rates_in_range(),
    {
        match input {
            Input::DirSwitchOff => self.input_dir_switch_off(),
            Input::DirSwitchLeft => self.input_dir_switch_left(),
            Input::DirSwitchRight => self.input_dir_switch_right(),
            Input::RapidButton(pressed) => self.input_rapid_button(pressed),
            Input::LimitSwitch(pressed) => self.input_limit_switch(pressed),
            Input::DialChange(diff) => self.input_dial_change(diff),
        }
    }

    /// The operating mode.
    pub fn mode(&self) -> (mode: Mode)
        ensures
            mode == self@.mode,
    {
        self.mode
    }

    /// The normal feed rate.
    pub fn feed_rate(&self) -> (rate: u16)
        ensures
            rate == self@.feed_rate,
            MIN_FEED_RATE <= rate <= MAX_FEED_RATE,
    {
        proof {
            use_type_invariant(self);
        }
        self.feed_rate
    }

    /// The rapid feed rate.
    pub fn rapid_feed_rate(&self) -> (rate: u16)
        ensures
            rate == self@.rapid_feed_rate,
            MIN_FEED_RATE <= rate <= MAX_FEED_RATE,
    {
        proof {
            use_type_invariant(self);
        }
        self.rapid_feed_rate
    }

    /// Whether the rapid-feed button is held.
    pub fn rapid(&self) -> (rapid: bool)
        ensures
            rapid == self@.rapid,
    {
        self.rapid
    }

    /// The rate in force: the rapid rate while the button is held, the
    /// normal rate otherwise.
    pub fn active_rate(&self) -> (rate: u16)
        ensures
            rate == self@.active_rate(),
            MIN_FEED_RATE <= rate <= MAX_FEED_RATE,
    {
        proof {
            use_type_invariant(self);
        }
        if self.rapid {
            self.rapid_feed_rate
        } else {
            self.feed_rate
        }
    }

    /// The two lines of the status display: the mode, and below it the rate
    /// in force or the cause of the alarm.
    pub fn render_status(&self) -> (lines: (&'static str, heapless::String<32>))
        ensures
            lines.0@ == status_text(self@.mode),
            line_text(lines.1) == rate_text(self@.mode, self@.active_rate() as u16),
    {
        (status_line(self.mode), rate_line(self.mode, self.active_rate()))
    }

    /// The motor command for the current state.
    pub fn motor_state(&self) -> (state: MotorState)
        ensures
            self@.rates_in_range(),
            state == self@.motor_state(),
    {
        proof {
            use_type_invariant(self);
        }
        match self.mode {
            Mode::Stop => MotorState::Stop,
            Mode::RunForward => {
                if self.rapid {
                    MotorState::CCW(self.rapid_feed_rate)
                } else {
                    MotorState::CCW(self.feed_rate)
                }
            },
            Mode::RunReverse => {
                if self.rapid {
                    MotorState::CW(self.rapid_feed_rate)
                } else {
                    MotorState::CW(self.feed_rate)
                }
            },
            Mode::Alarm(_) => MotorState::Stop,
        }
    }
}

} // verus!
