//! The light monitor of the ESP32 demos: greet on the OLED screen, then
//! read the light sensor in a loop, publish each reading to the web server
//! and show it on the screen.
//!
//! The firmware alternates hardware work (ADC reads, drawing and flushing
//! the display, sleeping) with decisions. [`Monitor`] holds the decisions:
//! the action to perform next, and how it moves on once the action is done.

use vstd::prelude::*;
use vstd::string::*;
use crate::decimal::{decimal, push_decimal};

verus! {

/// The greeting that the display demos show first.
pub const GREETING: &'static str = "Hello, world";

/// The label in front of a reading on the screen of the later display demo.
pub const LIGHT_LABEL: &'static str = "Light: ";

/// The left edge of the text in the display demos.
pub const TEXT_X: i32 = 5;

/// The left edge of the bare reading on the first web demo's screen.
pub const READING_X: i32 = 10;

/// The baseline of the text on every screen.
pub const TEXT_Y: i32 = 40;

/// How long the later display demo leaves its greeting up, in milliseconds.
pub const GREETING_HOLD_MS: u32 = 5000;

/// The pause between two readings in the later demos, in milliseconds.
pub const READ_PERIOD_MS: u32 = 500;

/// The pause between two readings in the first web demo, in milliseconds.
pub const CDL_READ_PERIOD_MS: u32 = 300;

/// What the OLED screen shows: it is cleared, then one line of text is
/// drawn with its baseline starting at (`x`, `y`).
pub struct Screen {
    pub text: String,
    pub x: i32,
    pub y: i32,
}

/// A screen as values.
pub struct ScreenView {
    pub text: Seq<char>,
    pub x: i32,
    pub y: i32,
}

impl View for Screen {
    type V = ScreenView;

    open spec fn view(&self) -> ScreenView {
        ScreenView { text: self.text@, x: self.x, y: self.y }
    }
}

/// The greeting screen.
pub open spec fn greeting_screen_view() -> ScreenView {
    ScreenView { text: GREETING@, x: TEXT_X, y: TEXT_Y }
}

/// The cleared screen.
pub open spec fn blank_screen_view() -> ScreenView {
    ScreenView { text: Seq::empty(), x: TEXT_X, y: TEXT_Y }
}

/// The screen of the later display demo for a reading: `Light: <value>`.
pub open spec fn light_screen_view(value: nat) -> ScreenView {
    ScreenView { text: LIGHT_LABEL@ + decimal(value), x: TEXT_X, y: TEXT_Y }
}

/// The screen of the first web demo for a reading: the bare number.
pub open spec fn reading_screen_view(value: nat) -> ScreenView {
    ScreenView { text: decimal(value), x: READING_X, y: TEXT_Y }
}

pub fn greeting_screen() -> (s: Screen)
    ensures
        s@ == greeting_screen_view(),
{
    Screen { text: String::from_str(GREETING), x: TEXT_X, y: TEXT_Y }
}

pub fn blank_screen() -> (s: Screen)
    ensures
        s@ == blank_screen_view(),
{
    Screen { text: String::new(), x: TEXT_X, y: TEXT_Y }
}

pub fn light_screen(value: u16) -> (s: Screen)
    ensures
        s@ == light_screen_view(value as nat),
{
    let mut text = String::from_str(LIGHT_LABEL);
    push_decimal(&mut text, value);
    Screen { text, x: TEXT_X, y: TEXT_Y }
}

pub fn reading_screen(value: u16) -> (s: Screen)
    ensures
        s@ == reading_screen_view(value as nat),
{
    let mut text = String::new();
    push_decimal(&mut text, value);
    assert(text@ =~= decimal(value as nat));
    Screen { text, x: READING_X, y: TEXT_Y }
}

/// Which ESP32 firmware runs.
#[derive(PartialEq, Eq, Structural, Clone, Copy, Debug)]
pub enum MonitorProgram {
    /// Shows the greeting, then stops.
    Greeting,
    /// Clears the screen, then stops.
    Clear,
    /// Shows the greeting for 5 s, then every 500 ms reads the sensor,
    /// publishes the reading and shows `Light: <value>`.
    DisplayLight,
    /// Every 300 ms reads the sensor, publishes the reading and shows the
    /// bare number.
    DisplayReading,
    /// Every 500 ms reads the sensor and publishes the reading.
    PublishOnly,
}

/// Where the firmware stands in its work.
#[derive(PartialEq, Eq, Structural, Clone, Copy, Debug)]
pub enum MonitorStep {
    /// Show the first screen (the greeting, or a cleared screen).
    Splash,
    /// Leave the greeting up.
    HoldGreeting,
    /// Read the light sensor.
    Read,
    /// Hand the reading to the web server.
    Publish(u16),
    /// Show the reading.
    ShowReading(u16),
    /// Pause before the next reading.
    Pause,
    /// Nothing more to do.
    Finished,
    /// A step failed: the firmware ends with that failure.
    Aborted,
}

/// What the board has to do next.
pub enum MonitorAction {
    /// Clear the display, draw the screen and flush it.
    Show(Screen),
    /// Sleep this many milliseconds.
    SleepMs(u32),
    /// Take an ADC reading of the light sensor.
    ReadLight,
    /// Store the reading where the web server finds it.
    Publish(u16),
    /// Return from the firmware's main function.
    Stop,
    /// End the firmware with the failure that the board reported.
    Abort,
}

/// An action as values.
pub enum MonitorActionView {
    Show(ScreenView),
    SleepMs(u32),
    ReadLight,
    Publish(u16),
    Stop,
    Abort,
}

impl View for MonitorAction {
    type V = MonitorActionView;

    open spec fn view(&self) -> MonitorActionView {
        match self {
            MonitorAction::Show(s) => MonitorActionView::Show(s@),
            MonitorAction::SleepMs(ms) => MonitorActionView::SleepMs(*ms),
            MonitorAction::ReadLight => MonitorActionView::ReadLight,
            MonitorAction::Publish(v) => MonitorActionView::Publish(*v),
            MonitorAction::Stop => MonitorActionView::Stop,
            MonitorAction::Abort => MonitorActionView::Abort,
        }
    }
}

/// What the board reports once it has performed the action.
#[derive(PartialEq, Eq, Structural, Clone, Copy, Debug)]
pub enum MonitorEvent {
    /// The action is done and gave nothing back.
    Done,
    /// The ADC read this value.
    LightRead(u16),
    /// The action failed (the ADC could not be read, the screen could not
    /// be drawn).
    Failed,
}

/// The decision state of an ESP32 light monitor.
#[derive(PartialEq, Eq, Structural, Clone, Copy, Debug)]
pub struct Monitor {
    pub program: MonitorProgram,
    pub step: MonitorStep,
}

/// Whether the program shows readings on the screen.
pub open spec fn shows_readings(program: MonitorProgram) -> bool {
    program == MonitorProgram::DisplayLight || program == MonitorProgram::DisplayReading
}

/// The pause between two readings of a program.
pub open spec fn read_period(program: MonitorProgram) -> u32 {
    if program == MonitorProgram::DisplayReading {
        CDL_READ_PERIOD_MS
    } else {
        READ_PERIOD_MS
    }
}

/// The screen that shows a reading in a program.
pub open spec fn reading_view(program: MonitorProgram, value: nat) -> ScreenView {
    if program == MonitorProgram::DisplayReading {
        reading_screen_view(value)
    } else {
        light_screen_view(value)
    }
}

/// The monitor a firmware starts with: the programs that greet or clear
/// start with their first screen, the others with a reading.
pub open spec fn spec_start(program: MonitorProgram) -> Monitor {
    Monitor {
        program,
        step: if program == MonitorProgram::DisplayReading || program
            == MonitorProgram::PublishOnly {
            MonitorStep::Read
        } else {
            MonitorStep::Splash
        },
    }
}

/// The action that a monitor asks for.
pub open spec fn spec_action(m: Monitor) -> MonitorActionView {
    match m.step {
        MonitorStep::Splash => MonitorActionView::Show(
            if m.program == MonitorProgram::Clear {
                blank_screen_view()
            } else {
                greeting_screen_view()
            },
        ),
        MonitorStep::HoldGreeting => MonitorActionView::SleepMs(GREETING_HOLD_MS),
        MonitorStep::Read => MonitorActionView::ReadLight,
        MonitorStep::Publish(v) => MonitorActionView::Publish(v),
        MonitorStep::ShowReading(v) => MonitorActionView::Show(reading_view(m.program, v as nat)),
        MonitorStep::Pause => MonitorActionView::SleepMs(read_period(m.program)),
        MonitorStep::Finished => MonitorActionView::Stop,
        MonitorStep::Aborted => MonitorActionView::Abort,
    }
}

/// The monitor after the board reports `event` for the current action. The
/// final steps stay put; a failed action ends the firmware; at a read, only
/// a reading moves it on.
pub open spec fn spec_next(m: Monitor, event: MonitorEvent) -> Monitor {
    let step = if m.step == MonitorStep::Finished || m.step == MonitorStep::Aborted {
        m.step
    } else if event == MonitorEvent::Failed {
        MonitorStep::Aborted
    } else {
        match m.step {
        MonitorStep::Splash => if m.program == MonitorProgram::DisplayLight {
            MonitorStep::HoldGreeting
        } else {
            MonitorStep::Finished
        },
        MonitorStep::HoldGreeting => MonitorStep::Read,
        MonitorStep::Read => match event {
            MonitorEvent::LightRead(v) => MonitorStep::Publish(v),
            _ => MonitorStep::Read,
        },
        MonitorStep::Publish(v) => if shows_readings(m.program) {
            MonitorStep::ShowReading(v)
        } else {
            MonitorStep::Pause
        },
        MonitorStep::ShowReading(_) => MonitorStep::Pause,
        MonitorStep::Pause => MonitorStep::Read,
        _ => m.step,
        }
    };
    Monitor { step, ..m }
}

/// Whether the program reads the sensor over and over.
pub open spec fn is_loop(program: MonitorProgram) -> bool {
    program == MonitorProgram::DisplayLight || program == MonitorProgram::DisplayReading
        || program == MonitorProgram::PublishOnly
}

/// Each round of a looping firmware reads the sensor, publishes exactly the
/// value it read, shows that value where the program has a screen for it,
/// pauses for the program's period, and reads again.
pub proof fn lemma_reading_round(m: Monitor, value: u16)
    requires
        is_loop(m.program),
        m.step == MonitorStep::Read,
    ensures
        ({
            let m1 = spec_next(m, MonitorEvent::LightRead(value));
            let m2 = spec_next(m1, MonitorEvent::Done);
            let m3 = spec_next(m2, MonitorEvent::Done);
            &&& spec_action(m) == MonitorActionView::ReadLight
            &&& spec_action(m1) == MonitorActionView::Publish(value)
            &&& if shows_readings(m.program) {
                &&& spec_action(m2) == MonitorActionView::Show(reading_view(m.program, value as nat))
                &&& spec_action(m3) == MonitorActionView::SleepMs(read_period(m.program))
                &&& spec_next(m3, MonitorEvent::Done) == m
            } else {
                &&& spec_action(m2) == MonitorActionView::SleepMs(read_period(m.program))
                &&& m3 == m
            }
        }),
{
}

/// A report without a reading does not answer a read: the firmware stays at
/// the read and publishes nothing.
pub proof fn lemma_read_needs_reading(m: Monitor)
    requires
        m.step == MonitorStep::Read,
    ensures
        spec_next(m, MonitorEvent::Done) == m,
{
}

/// A failed action (a reading that could not be taken, a screen that could
/// not be drawn) ends the firmware for good, with that failure.
pub proof fn lemma_failure_ends_firmware(m: Monitor, event: MonitorEvent)
    requires
        m.step != MonitorStep::Finished,
    ensures
        spec_next(m, MonitorEvent::Failed).step == MonitorStep::Aborted,
        spec_action(spec_next(m, MonitorEvent::Failed)) == MonitorActionView::Abort,
        spec_next(spec_next(m, MonitorEvent::Failed), event) == spec_next(m, MonitorEvent::Failed),
{
}

/// What each looping firmware shows and how long it pauses: the later
/// display demo shows `Light: <reading>` at (5, 40) and pauses 500 ms, the
/// first web demo shows the bare reading at (10, 40) and pauses 300 ms, the
/// later web demo shows nothing and pauses 500 ms.
pub proof fn lemma_round_screens_and_periods(value: u16)
    ensures
        spec_action(Monitor { program: MonitorProgram::DisplayLight, step: MonitorStep::ShowReading(value) })
            == MonitorActionView::Show(
            ScreenView { text: "Light: "@ + decimal(value as nat), x: 5, y: 40 },
        ),
        spec_action(Monitor { program: MonitorProgram::DisplayLight, step: MonitorStep::Pause })
            == MonitorActionView::SleepMs(500),
        spec_action(
            Monitor { program: MonitorProgram::DisplayReading, step: MonitorStep::ShowReading(value) },
        ) == MonitorActionView::Show(ScreenView { text: decimal(value as nat), x: 10, y: 40 }),
        spec_action(Monitor { program: MonitorProgram::DisplayReading, step: MonitorStep::Pause })
            == MonitorActionView::SleepMs(300),
        spec_action(Monitor { program: MonitorProgram::PublishOnly, step: MonitorStep::Pause })
            == MonitorActionView::SleepMs(500),
        spec_next(
            Monitor { program: MonitorProgram::PublishOnly, step: MonitorStep::Publish(value) },
            MonitorEvent::Done,
        ).step == MonitorStep::Pause,
{
}

/// The greeting is "Hello, world" at (5, 40), left up for 5 s by the later
/// display demo; the clearing firmware shows an empty screen.
pub proof fn lemma_first_screens()
    ensures
        spec_action(spec_start(MonitorProgram::Greeting)) == MonitorActionView::Show(
            ScreenView { text: "Hello, world"@, x: 5, y: 40 },
        ),
        spec_action(spec_start(MonitorProgram::DisplayLight)) == MonitorActionView::Show(
            ScreenView { text: "Hello, world"@, x: 5, y: 40 },
        ),
        spec_action(spec_next(spec_start(MonitorProgram::DisplayLight), MonitorEvent::Done))
            == MonitorActionView::SleepMs(5000),
        spec_action(spec_start(MonitorProgram::Clear)) matches MonitorActionView::Show(screen)
            && screen.text.len() == 0,
{
}

/// The later display demo greets, leaves the greeting up for 5 s, and then
/// starts reading.
pub proof fn lemma_display_light_opening()
    ensures
        ({
            let m0 = spec_start(MonitorProgram::DisplayLight);
            let m1 = spec_next(m0, MonitorEvent::Done);
            &&& spec_action(m0) == MonitorActionView::Show(greeting_screen_view())
            &&& spec_action(m1) == MonitorActionView::SleepMs(GREETING_HOLD_MS)
            &&& spec_next(m1, MonitorEvent::Done).step == MonitorStep::Read
        }),
{
}

/// The greeting and clearing firmwares show one screen and then stop for good.
pub proof fn lemma_one_screen_then_stop(program: MonitorProgram, event: MonitorEvent)
    requires
        program == MonitorProgram::Greeting || program == MonitorProgram::Clear,
    ensures
        spec_action(spec_start(program)) == MonitorActionView::Show(
            if program == MonitorProgram::Clear {
                blank_screen_view()
            } else {
                greeting_screen_view()
            },
        ),
        spec_action(spec_next(spec_start(program), MonitorEvent::Done)) == MonitorActionView::Stop,
        spec_next(spec_next(spec_start(program), MonitorEvent::Done), event) == spec_next(
            spec_start(program),
            MonitorEvent::Done,
        ),
{
}

/// The web firmwares start by reading the sensor, with no greeting.
pub proof fn lemma_loops_start_reading(program: MonitorProgram)
    requires
        program == MonitorProgram::DisplayReading || program == MonitorProgram::PublishOnly,
    ensures
        spec_action(spec_start(program)) == MonitorActionView::ReadLight,
{
}

impl Monitor {
    /// The monitor at power-on.
    pub fn start(program: MonitorProgram) -> (m: Monitor)
        ensures
            m == spec_start(program),
    {
        let step = if program == MonitorProgram::DisplayReading || program
            == MonitorProgram::PublishOnly {
            MonitorStep::Read
        } else {
            MonitorStep::Splash
        };
        Monitor { program, step }
    }

    /// The action to perform now.
    pub fn action(&self) -> (a: MonitorAction)
        ensures
            a@ == spec_action(*self),
    {
        match self.step {
            MonitorStep::Splash => MonitorAction::Show(
                if self.program == MonitorProgram::Clear {
                    blank_screen()
                } else {
                    greeting_screen()
                },
            ),
            MonitorStep::HoldGreeting => MonitorAction::SleepMs(GREETING_HOLD_MS),
            MonitorStep::Read => MonitorAction::ReadLight,
            MonitorStep::Publish(v) => MonitorAction::Publish(v),
            MonitorStep::ShowReading(v) => MonitorAction::Show(
                if self.program == MonitorProgram::DisplayReading {
                    reading_screen(v)
                } else {
                    light_screen(v)
                },
            ),
            MonitorStep::Pause => MonitorAction::SleepMs(
                if self.program == MonitorProgram::DisplayReading {
                    CDL_READ_PERIOD_MS
                } else {
                    READ_PERIOD_MS
                },
            ),
            MonitorStep::Finished => MonitorAction::Stop,
            MonitorStep::Aborted => MonitorAction::Abort,
        }
    }

    /// Moves on once the board has performed the current action.
    pub fn on_event(&mut self, event: MonitorEvent)
        ensures
            *final(self) == spec_next(*old(self), event),
    {
        if self.step == MonitorStep::Finished || self.step == MonitorStep::Aborted {
            return;
        }
        if event == MonitorEvent::Failed {
            self.step = MonitorStep::Aborted;
            return;
        }
        let step = match self.step {
            MonitorStep::Splash => if self.program == MonitorProgram::DisplayLight {
                MonitorStep::HoldGreeting
            } else {
                MonitorStep::Finished
            },
            MonitorStep::HoldGreeting => MonitorStep::Read,
            MonitorStep::Read => match event {
                MonitorEvent::LightRead(v) => MonitorStep::Publish(v),
                _ => MonitorStep::Read,
            },
            MonitorStep::Publish(v) => if self.program == MonitorProgram::DisplayLight
                || self.program == MonitorProgram::DisplayReading {
                MonitorStep::ShowReading(v)
            } else {
                MonitorStep::Pause
            },
            MonitorStep::ShowReading(_) => MonitorStep::Pause,
            MonitorStep::Pause => MonitorStep::Read,
            _ => self.step,
        };
        self.step = step;
    }
}

} // verus!
