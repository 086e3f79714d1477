//! The LED firmware of the ATtiny85 demos: stay idle, blink at a fixed rate,
//! or blink at a rate set by a light dependent resistor.
//!
//! The firmware is a loop that alternates work on the pins (set the LED,
//! read the ADC, busy-wait) with decisions. [`LedController`] holds the
//! decisions: it says which action comes next and how it moves on once that
//! action is done; the board support code performs the actions.

use vstd::prelude::*;

verus! {

/// How long the LED stays on, and then off, in the plain blink demo.
pub const BLINK_HALF_PERIOD_MS: u16 = 500;

/// How long each busy-wait lasts in the idle firmware.
pub const IDLE_DELAY_MS: u16 = 1000;

/// The longest half period of the sensor-driven blink (total darkness).
pub const SENSOR_MAX_DELAY_MS: u16 = 2000;

/// The part of the half period that light can take away.
pub const SENSOR_MAX_REDUCTION_MS: u16 = 1900;

/// The highest reading whose double still fits in 16 bits.
pub const SENSOR_MAX_READING: u16 = 32767;

/// The smaller of two integers.
pub open spec fn min_int(a: int, b: int) -> int {
    if a <= b {
        a
    } else {
        b
    }
}

/// The half period of the sensor-driven blink for a light reading:
/// `2000 - min(2 * light, 1900)` milliseconds.
pub open spec fn sensor_delay(light: int) -> int {
    SENSOR_MAX_DELAY_MS - min_int(2 * light, SENSOR_MAX_REDUCTION_MS as int)
}

/// The half period, in milliseconds, for which the LED stays on and then off
/// after the light sensor read `light`: the brighter, the faster it blinks.
pub fn sensor_delay_ms(light: u16) -> (delay: u16)
    requires
        light <= SENSOR_MAX_READING,
    ensures
        delay == sensor_delay(light as int),
{
    let doubled: u16 = light * 2;
    let reduction: u16 = if doubled < SENSOR_MAX_REDUCTION_MS {
        doubled
    } else {
        SENSOR_MAX_REDUCTION_MS
    };
    SENSOR_MAX_DELAY_MS - reduction
}

/// The sensor-driven half period lies between 100 ms and 2 s.
pub proof fn lemma_sensor_delay_bounds(light: int)
    requires
        0 <= light,
    ensures
        100 <= sensor_delay(light) <= 2000,
{
}

/// More light never makes the LED blink slower.
pub proof fn lemma_sensor_delay_monotonic(dim: int, bright: int)
    requires
        0 <= dim <= bright,
    ensures
        sensor_delay(bright) <= sensor_delay(dim),
{
}

/// In the dim range each unit of light takes 2 ms off the full 2 s half
/// period: a reading of `l` up to 950 gives `2000 - 2 * l` ms, and one more
/// unit of light gives exactly 2 ms less.
pub proof fn lemma_sensor_delay_linear(light: int)
    requires
        0 <= light <= 950,
    ensures
        sensor_delay(light) == 2000 - 2 * light,
        sensor_delay(light) + 2 * light == 2000,
        light < 950 ==> sensor_delay(light) - sensor_delay(light + 1) == 2,
{
}

/// The half period and the part that light takes off it always add up to
/// 2 s, and light never takes off more than 1.9 s.
pub proof fn lemma_sensor_delay_sum(light: int)
    requires
        0 <= light,
    ensures
        sensor_delay(light) + (if 2 * light <= 1900 { 2 * light } else { 1900 }) == 2000,
{
}

/// From a reading of 950 on, the LED blinks at its fastest, 100 ms.
pub proof fn lemma_sensor_delay_saturates(light: int)
    requires
        light >= 950,
    ensures
        sensor_delay(light) == 100,
{
}

/// Which of the three ATtiny firmwares runs.
#[derive(PartialEq, Eq, Structural, Clone, Copy, Debug)]
pub enum LedProgram {
    /// Leaves the LED alone and waits one second at a time.
    Idle,
    /// Blinks the LED: 500 ms on, 500 ms off.
    Blink,
    /// Reads the light sensor, then blinks once with the half period it sets.
    SensorBlink,
}

/// The level of the LED pin.
#[derive(PartialEq, Eq, Structural, Clone, Copy, Debug)]
pub enum LedLevel {
    Low,
    High,
}

/// Where the firmware stands in its loop.
#[derive(PartialEq, Eq, Structural, Clone, Copy, Debug)]
pub enum LedStep {
    /// Read the light sensor.
    Measure,
    /// Switch the LED on.
    TurnOn,
    /// Wait with the LED on.
    HoldOn,
    /// Switch the LED off.
    TurnOff,
    /// Wait with the LED off.
    HoldOff,
}

/// What the board has to do next.
#[derive(PartialEq, Eq, Structural, Clone, Copy, Debug)]
pub enum LedAction {
    /// Take an ADC reading of the light dependent resistor.
    MeasureLight,
    /// Drive the LED pin to this level.
    SetLed(LedLevel),
    /// Busy-wait this many milliseconds.
    DelayMs(u16),
}

/// What the board reports once it has performed the action.
#[derive(PartialEq, Eq, Structural, Clone, Copy, Debug)]
pub enum LedEvent {
    /// The action is done and gave nothing back.
    Done,
    /// The ADC read this value.
    LightMeasured(u16),
}

/// The decision state of an ATtiny firmware.
#[derive(PartialEq, Eq, Structural, Clone, Copy, Debug)]
pub struct LedController {
    pub program: LedProgram,
    pub step: LedStep,
    /// How long each wait lasts, in milliseconds.
    pub half_period_ms: u16,
}

/// The controller a firmware starts with.
pub open spec fn spec_start(program: LedProgram) -> LedController {
    match program {
        LedProgram::Idle => LedController {
            program,
            step: LedStep::HoldOff,
            half_period_ms: IDLE_DELAY_MS,
        },
        LedProgram::Blink => LedController {
            program,
            step: LedStep::TurnOn,
            half_period_ms: BLINK_HALF_PERIOD_MS,
        },
        LedProgram::SensorBlink => LedController {
            program,
            step: LedStep::Measure,
            half_period_ms: SENSOR_MAX_DELAY_MS,
        },
    }
}

/// The action that a controller asks for.
pub open spec fn spec_action(c: LedController) -> LedAction {
    match c.step {
        LedStep::Measure => LedAction::MeasureLight,
        LedStep::TurnOn => LedAction::SetLed(LedLevel::High),
        LedStep::HoldOn => LedAction::DelayMs(c.half_period_ms),
        LedStep::TurnOff => LedAction::SetLed(LedLevel::Low),
        LedStep::HoldOff => LedAction::DelayMs(c.half_period_ms),
    }
}

/// The controller after the board reports `event` for the current action.
/// A measurement sets the half period; without a reading the firmware
/// measures again. After the off-phase the idle firmware keeps waiting, the
/// blink firmware switches the LED on again and the sensor firmware measures.
pub open spec fn spec_next(c: LedController, event: LedEvent) -> LedController {
    match c.step {
        LedStep::Measure => match event {
            LedEvent::LightMeasured(light) => LedController {
                step: LedStep::TurnOn,
                half_period_ms: sensor_delay(light as int) as u16,
                ..c
            },
            LedEvent::Done => c,
        },
        LedStep::TurnOn => LedController { step: LedStep::HoldOn, ..c },
        LedStep::HoldOn => LedController { step: LedStep::TurnOff, ..c },
        LedStep::TurnOff => LedController { step: LedStep::HoldOff, ..c },
        LedStep::HoldOff => match c.program {
            LedProgram::Idle => c,
            LedProgram::Blink => LedController { step: LedStep::TurnOn, ..c },
            LedProgram::SensorBlink => LedController { step: LedStep::Measure, ..c },
        },
    }
}

/// A reading that the firmware can take without overflowing.
pub open spec fn event_in_range(event: LedEvent) -> bool {
    match event {
        LedEvent::LightMeasured(light) => light <= SENSOR_MAX_READING,
        LedEvent::Done => true,
    }
}

/// The blink firmware repeats one cycle forever: LED on, 500 ms, LED off,
/// 500 ms, and back where it started.
pub proof fn lemma_blink_cycle(c: LedController)
    requires
        c.wf(),
        c.program == LedProgram::Blink,
        c.step == LedStep::TurnOn,
    ensures
        spec_action(c) == LedAction::SetLed(LedLevel::High),
        spec_action(spec_next(c, LedEvent::Done)) == LedAction::DelayMs(BLINK_HALF_PERIOD_MS),
        spec_action(spec_next(spec_next(c, LedEvent::Done), LedEvent::Done)) == LedAction::SetLed(
            LedLevel::Low,
        ),
        spec_action(spec_next(spec_next(spec_next(c, LedEvent::Done), LedEvent::Done), LedEvent::Done))
            == LedAction::DelayMs(BLINK_HALF_PERIOD_MS),
        spec_next(
            spec_next(spec_next(spec_next(c, LedEvent::Done), LedEvent::Done), LedEvent::Done),
            LedEvent::Done,
        ) == c,
{
}

/// The sensor firmware repeats one cycle: it measures the light, switches the
/// LED on, waits the half period that the reading sets, switches the LED off,
/// waits the same half period, and measures again.
pub proof fn lemma_sensor_blink_cycle(c: LedController, light: u16)
    requires
        c.wf(),
        c.program == LedProgram::SensorBlink,
        c.step == LedStep::Measure,
        light <= SENSOR_MAX_READING,
    ensures
        ({
            let c1 = spec_next(c, LedEvent::LightMeasured(light));
            let c2 = spec_next(c1, LedEvent::Done);
            let c3 = spec_next(c2, LedEvent::Done);
            let c4 = spec_next(c3, LedEvent::Done);
            let c5 = spec_next(c4, LedEvent::Done);
            &&& spec_action(c) == LedAction::MeasureLight
            &&& spec_action(c1) == LedAction::SetLed(LedLevel::High)
            &&& spec_action(c2) == LedAction::DelayMs(sensor_delay(light as int) as u16)
            &&& spec_action(c3) == LedAction::SetLed(LedLevel::Low)
            &&& spec_action(c4) == LedAction::DelayMs(sensor_delay(light as int) as u16)
            &&& c5.program == LedProgram::SensorBlink
            &&& c5.step == LedStep::Measure
        }),
{
}

/// A report without a reading does not answer a measurement: the sensor
/// firmware stays at the measurement and does not blink.
pub proof fn lemma_sensor_waits_for_reading(c: LedController)
    requires
        c.program == LedProgram::SensorBlink,
        c.step == LedStep::Measure,
    ensures
        spec_next(c, LedEvent::Done) == c,
{
}

/// The idle firmware does nothing but wait one second, whatever it is told.
pub proof fn lemma_idle_forever(c: LedController, event: LedEvent)
    requires
        c.wf(),
        c.program == LedProgram::Idle,
    ensures
        spec_action(c) == LedAction::DelayMs(IDLE_DELAY_MS),
        spec_next(c, event) == c,
{
}

/// The blink firmware starts with the LED about to go on and waits 500 ms
/// in each phase; the idle firmware waits one second at a time; the sensor
/// firmware starts by measuring.
pub proof fn lemma_program_timings()
    ensures
        spec_action(spec_start(LedProgram::Blink)) == LedAction::SetLed(LedLevel::High),
        spec_action(spec_next(spec_start(LedProgram::Blink), LedEvent::Done))
            == LedAction::DelayMs(500),
        spec_action(spec_start(LedProgram::Idle)) == LedAction::DelayMs(1000),
        spec_action(spec_start(LedProgram::SensorBlink)) == LedAction::MeasureLight,
{
}

/// After a measurement of `light` the sensor firmware switches the LED on and
/// then waits `2000 - min(2 * light, 1900)` ms.
pub proof fn lemma_sensor_blink_wait(c: LedController, light: u16)
    requires
        c.program == LedProgram::SensorBlink,
        c.step == LedStep::Measure,
        light <= SENSOR_MAX_READING,
    ensures
        spec_action(spec_next(c, LedEvent::LightMeasured(light))) == LedAction::SetLed(
            LedLevel::High,
        ),
        spec_action(spec_next(spec_next(c, LedEvent::LightMeasured(light)), LedEvent::Done))
            == LedAction::DelayMs(
            (2000 - (if 2 * light <= 1900 { 2 * light } else { 1900 })) as u16,
        ),
{
}

impl LedController {
    /// The states that the firmwares go through: the idle firmware only
    /// waits a second at a time, the blink firmware keeps 500 ms, and the
    /// sensor firmware keeps a half period between 100 ms and 2 s.
    pub open spec fn wf(self) -> bool {
        match self.program {
            LedProgram::Idle => self.step == LedStep::HoldOff && self.half_period_ms
                == IDLE_DELAY_MS,
            LedProgram::Blink => self.step != LedStep::Measure && self.half_period_ms
                == BLINK_HALF_PERIOD_MS,
            LedProgram::SensorBlink => 100 <= self.half_period_ms <= 2000,
        }
    }

    /// The controller at power-on.
    pub fn start(program: LedProgram) -> (c: LedController)
        ensures
            c == spec_start(program),
            c.wf(),
    {
        match program {
            LedProgram::Idle => LedController {
                program,
                step: LedStep::HoldOff,
                half_period_ms: IDLE_DELAY_MS,
            },
            LedProgram::Blink => LedController {
                program,
                step: LedStep::TurnOn,
                half_period_ms: BLINK_HALF_PERIOD_MS,
            },
            LedProgram::SensorBlink => LedController {
                program,
                step: LedStep::Measure,
                half_period_ms: SENSOR_MAX_DELAY_MS,
            },
        }
    }

    /// The action to perform now.
    pub fn action(&self) -> (a: LedAction)
        ensures
            a == spec_action(*self),
    {
        match self.step {
            LedStep::Measure => LedAction::MeasureLight,
            LedStep::TurnOn => LedAction::SetLed(LedLevel::High),
            LedStep::HoldOn => LedAction::DelayMs(self.half_period_ms),
            LedStep::TurnOff => LedAction::SetLed(LedLevel::Low),
            LedStep::HoldOff => LedAction::DelayMs(self.half_period_ms),
        }
    }

    /// Moves on once the board has performed the current action.
    pub fn on_event(&mut self, event: LedEvent)
        requires
            old(self).wf(),
            event_in_range(event),
        ensures
            *final(self) == spec_next(*old(self), event),
            final(self).wf(),
    {
        match self.step {
            LedStep::Measure => {
                if let LedEvent::LightMeasured(light) = event {
                    self.half_period_ms = sensor_delay_ms(light);
                    self.step = LedStep::TurnOn;
                }
            },
            LedStep::TurnOn => {
                self.step = LedStep::HoldOn;
            },
            LedStep::HoldOn => {
                self.step = LedStep::TurnOff;
            },
            LedStep::TurnOff => {
                self.step = LedStep::HoldOff;
            },
            LedStep::HoldOff => {
                match self.program {
                    LedProgram::Idle => {},
                    LedProgram::Blink => {
                        self.step = LedStep::TurnOn;
                    },
                    LedProgram::SensorBlink => {
                        self.step = LedStep::Measure;
                    },
                }
            },
        }
    }
}

} // verus!
