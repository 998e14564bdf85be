//! The timer state machine: the configured length, the time left, and
//! whether a countdown is running. Times are in milliseconds and timestamps
//! are readings, in milliseconds, of a clock that the host chooses.
use vstd::prelude::*;
use crate::parse::{length_from_text, length_ms_from_text};

verus! {

/// Milliseconds in one second.
pub const SECOND_MS: u64 = 1000;

/// The length a new timer starts with: two minutes.
pub const DEFAULT_LENGTH_MS: u64 = 120000;

/// Seconds in one minute, for the clock display.
pub const MINUTE_SECS: u64 = 60;

/// Seconds in one hour, for the clock display.
pub const HOUR_SECS: u64 = 3600;

/// Whether a countdown is running, and if so when it last took a tick.
#[derive(Clone, Copy, Debug, PartialEq, Eq, Structural)]
pub enum PomoState {
    Idle,
    Ticking { last_tick: u64 },
}

/// What the host hands the engine.
#[derive(Clone, Debug)]
pub enum Message {
    /// The single start/cancel button was pressed.
    TogglePressed,
    /// A separate start button was pressed.
    StartPressed,
    /// A separate cancel button was pressed.
    CancelPressed,
    /// The host's periodic tick, with the clock reading at that moment.
    Tick(u64),
    /// The length field now holds this text (whole minutes).
    PomoLengthChanged(String),
}

/// What the host must do after a message has been handled.
#[derive(Clone, Copy, Debug, PartialEq, Eq, Structural)]
pub enum Effect {
    Nothing,
    /// The countdown reached zero: sound the alert.
    Completed,
}

/// The engine's data as a plain value.
pub struct PomoModel {
    pub length: u64,
    pub remaining: u64,
    pub state: PomoState,
}

impl PomoModel {
    /// The time left never exceeds the configured length.
    pub open spec fn wf(self) -> bool {
        self.remaining <= self.length
    }

    pub open spec fn initial() -> PomoModel {
        PomoModel { length: DEFAULT_LENGTH_MS, remaining: DEFAULT_LENGTH_MS, state: PomoState::Idle }
    }

    /// Starting begins a countdown at `now`; it changes nothing while one runs.
    pub open spec fn start(self, now: u64) -> PomoModel {
        match self.state {
            PomoState::Idle => PomoModel { state: PomoState::Ticking { last_tick: now }, ..self },
            PomoState::Ticking { .. } => self,
        }
    }

    /// Cancelling stops a running countdown and restores the full length; it
    /// changes nothing while idle.
    pub open spec fn cancel(self) -> PomoModel {
        match self.state {
            PomoState::Idle => self,
            PomoState::Ticking { .. } => PomoModel {
                remaining: self.length,
                state: PomoState::Idle,
                ..self
            },
        }
    }

    pub open spec fn toggle(self, now: u64) -> PomoModel {
        match self.state {
            PomoState::Idle => self.start(now),
            PomoState::Ticking { .. } => self.cancel(),
        }
    }

    /// The time since the last tick; a reading earlier than the last one
    /// counts as no time.
    pub open spec fn elapsed(last_tick: u64, now: u64) -> u64 {
        if now >= last_tick {
            (now - last_tick) as u64
        } else {
            0
        }
    }

    /// The time left once `delta` has passed, clamped at zero.
    pub open spec fn left_after(self, delta: u64) -> u64 {
        if delta <= self.remaining {
            (self.remaining - delta) as u64
        } else {
            0
        }
    }

    /// A tick takes the elapsed time off the time left. Once less than a
    /// whole second is left the countdown completes: the engine goes idle
    /// with the full length restored and signals completion. An idle engine
    /// ignores ticks.
    pub open spec fn tick(self, now: u64) -> (PomoModel, Effect) {
        match self.state {
            PomoState::Idle => (self, Effect::Nothing),
            PomoState::Ticking { last_tick } => {
                let left = self.left_after(PomoModel::elapsed(last_tick, now));
                if left < SECOND_MS {
                    (
                        PomoModel { remaining: self.length, state: PomoState::Idle, ..self },
                        Effect::Completed,
                    )
                } else {
                    (
                        PomoModel { remaining: left, state: PomoState::Ticking { last_tick: now }, ..self },
                        Effect::Nothing,
                    )
                }
            },
        }
    }

    /// A new length: while idle the time left becomes the new length; while
    /// ticking the time left is cut down to it where it was longer.
    pub open spec fn set_length(self, length: u64) -> PomoModel {
        match self.state {
            PomoState::Idle => PomoModel { length, remaining: length, ..self },
            PomoState::Ticking { .. } => PomoModel {
                length,
                remaining: if self.remaining <= length { self.remaining } else { length },
                ..self
            },
        }
    }

    /// Typed length text: applied where it reads as a length, else ignored.
    pub open spec fn length_text(self, text: Seq<char>) -> PomoModel {
        match length_from_text(text) {
            Some(length) => self.set_length(length),
            None => self,
        }
    }

    /// The new data and the effect after handling `msg`, with `now` the
    /// clock reading at which it is handled.
    pub open spec fn step(self, msg: Message, now: u64) -> (PomoModel, Effect) {
        match msg {
            Message::TogglePressed => (self.toggle(now), Effect::Nothing),
            Message::StartPressed => (self.start(now), Effect::Nothing),
            Message::CancelPressed => (self.cancel(), Effect::Nothing),
            Message::Tick(t) => self.tick(t),
            Message::PomoLengthChanged(text) => (self.length_text(text@), Effect::Nothing),
        }
    }
}

/// The timer engine.
pub struct Pomo {
    length: u64,
    remaining: u64,
    state: PomoState,
}

impl View for Pomo {
    type V = PomoModel;

    closed spec fn view(&self) -> PomoModel {
        PomoModel { length: self.length, remaining: self.remaining, state: self.state }
    }
}

impl Pomo {
    /// An idle timer with the default length and all of it left.
    pub fn new() -> (r: Pomo)
        ensures
            r@ == PomoModel::initial(),
            r@.wf(),
    {
        Pomo { length: DEFAULT_LENGTH_MS, remaining: DEFAULT_LENGTH_MS, state: PomoState::Idle }
    }

    fn start(&mut self, now: u64)
        ensures
            final(self)@ == old(self)@.start(now),
    {
        if let PomoState::Idle = self.state {
            self.state = PomoState::Ticking { last_tick: now };
        }
    }

    fn cancel(&mut self)
        ensures
            final(self)@ == old(self)@.cancel(),
    {
        if let PomoState::Ticking { .. } = self.state {
            self.remaining = self.length;
            self.state = PomoState::Idle;
        }
    }

    fn tick(&mut self, now: u64) -> (e: Effect)
        ensures
            (final(self)@, e) == old(self)@.tick(now),
    {
        match self.state {
            PomoState::Idle => Effect::Nothing,
            PomoState::Ticking { last_tick } => {
                let delta = now.saturating_sub(last_tick);
                let left = self.remaining.saturating_sub(delta);
                if left < SECOND_MS {
                    self.remaining = self.length;
                    self.state = PomoState::Idle;
                    Effect::Completed
                } else {
                    self.remaining = left;
                    self.state = PomoState::Ticking { last_tick: now };
                    Effect::Nothing
                }
            },
        }
    }

    fn set_length(&mut self, length: u64)
        ensures
            final(self)@ == old(self)@.set_length(length),
    {
        match self.state {
            PomoState::Idle => {
                self.length = length;
                self.remaining = length;
            },
            PomoState::Ticking { .. } => {
                self.length = length;
                if self.remaining > length {
                    self.remaining = length;
                }
            },
        }
    }

    /// Handles one message. `now` is the clock reading at which it is
    /// handled, used where a countdown starts. Returns what the host must
    /// do next. The time left stays within the length.
    pub fn update(&mut self, message: Message, now: u64) -> (e: Effect)
        requires
            old(self)@.wf(),
        ensures
            (final(self)@, e) == old(self)@.step(message, now),
            final(self)@.wf(),
    {
        match message {
            Message::TogglePressed => {
                match self.state {
                    PomoState::Idle => self.start(now),
                    PomoState::Ticking { .. } => self.cancel(),
                }
                Effect::Nothing
            },
            Message::StartPressed => {
                self.start(now);
                Effect::Nothing
            },
            Message::CancelPressed => {
                self.cancel();
                Effect::Nothing
            },
            Message::Tick(t) => self.tick(t),
            Message::PomoLengthChanged(text) => {
                if let Some(length) = length_ms_from_text(text.as_str()) {
                    self.set_length(length);
                }
                Effect::Nothing
            },
        }
    }

    /// The configured length.
    pub fn length_ms(&self) -> (r: u64)
        ensures
            r == self@.length,
    {
        self.length
    }

    /// The time left in the current countdown.
    pub fn remaining_ms(&self) -> (r: u64)
        ensures
            r == self@.remaining,
    {
        self.remaining
    }

    /// Whether a countdown runs, and since which tick.
    pub fn state(&self) -> (r: PomoState)
        ensures
            r == self@.state,
    {
        self.state
    }

    /// Whether the host should deliver periodic ticks: exactly while a
    /// countdown runs.
    pub fn wants_ticks(&self) -> (r: bool)
        ensures
            r == self@.state is Ticking,
    {
        match self.state {
            PomoState::Idle => false,
            PomoState::Ticking { .. } => true,
        }
    }

    /// The minutes and seconds shown on the clock face for the time left,
    /// in whole seconds: minutes within the hour, and seconds within the
    /// minute.
    pub fn clock_parts(&self) -> (r: (u64, u64))
        ensures
            r.0 == (self@.remaining / SECOND_MS % HOUR_SECS) / MINUTE_SECS,
            r.1 == self@.remaining / SECOND_MS % MINUTE_SECS,
            r.0 < 60,
            r.1 < 60,
    {
        let secs = self.remaining / SECOND_MS;
        ((secs % HOUR_SECS) / MINUTE_SECS, secs % MINUTE_SECS)
    }

    /// The label of the single start/cancel button.
    pub fn toggle_label(&self) -> (r: &'static str)
        ensures
            self@.state is Idle ==> r@ == "Start"@,
            self@.state is Ticking ==> r@ == "Cancel"@,
    {
        match self.state {
            PomoState::Idle => "Start",
            PomoState::Ticking { .. } => "Cancel",
        }
    }
}

} // verus!
