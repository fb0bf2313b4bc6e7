//! The events that reach the render loop, and what a key asks of it.

use vstd::prelude::*;

verus! {

/// A key press as the terminal reports it.
#[derive(Clone, Copy, Debug, PartialEq, Eq, Structural)]
pub enum Key {
    Backspace,
    Left,
    Right,
    Up,
    Down,
    Home,
    End,
    PageUp,
    PageDown,
    BackTab,
    Delete,
    Insert,
    /// A function key, by its number.
    F(u8),
    /// A plain character.
    Char(char),
    /// A character typed with Alt held.
    Alt(char),
    /// A character typed with Ctrl held.
    Ctrl(char),
    Null,
    Esc,
    /// A key that the terminal layer reports without naming it.
    Unsupported,
}

/// What a key press asks of the render loop.
#[derive(Clone, Copy, Debug, PartialEq, Eq, Structural)]
pub enum Command {
    /// Leave the loop.
    Quit,
    /// Move the cursor one row towards the end.
    Down,
    /// Move the cursor one row towards the start.
    Up,
    /// Nothing: the key is not bound.
    Other,
}

impl Key {
    /// The binding of a key: `q` quits, the down and up arrows move the
    /// cursor, and every other key is inert.
    pub open spec fn binding(self) -> Command {
        match self {
            Key::Char(c) => if c == 'q' {
                Command::Quit
            } else {
                Command::Other
            },
            Key::Down => Command::Down,
            Key::Up => Command::Up,
            _ => Command::Other,
        }
    }

    /// Looks up the binding of a key.
    #[verifier::when_used_as_spec(binding)]
    pub fn command(self) -> (command: Command)
        ensures
            command == self.binding(),
    {
        match self {
            Key::Char('q') => Command::Quit,
            Key::Down => Command::Down,
            Key::Up => Command::Up,
            _ => Command::Other,
        }
    }
}

/// One event of the merged stream: a key press, or a tick of the refresh
/// timer, which says only that time has passed.
#[derive(Clone, Copy, Debug, PartialEq, Eq, Structural)]
pub enum Event {
    Input(Key),
    Tick,
}

impl Event {
    /// An event ends the loop exactly when it is a press of the quit key.
    pub open spec fn quits(self) -> bool {
        match self {
            Event::Input(key) => key.binding() == Command::Quit,
            Event::Tick => false,
        }
    }
}

/// What one blocking read of the keyboard came back with.
#[derive(Clone, Copy, Debug, PartialEq, Eq, Structural)]
pub enum Reading {
    /// A key was pressed.
    Pressed(Key),
    /// The read failed.
    Failed,
    /// The input has come to its end.
    Closed,
}

impl Reading {
    /// What the keyboard reader sends on after a read: the key press as an
    /// event, or nothing at all once the input has failed or ended. The
    /// reader then stops for good, and the loop goes on with ticks alone.
    pub fn event(self) -> (event: Option<Event>)
        ensures
            event == match self {
                Reading::Pressed(key) => Some(Event::Input(key)),
                Reading::Failed | Reading::Closed => None,
            },
    {
        match self {
            Reading::Pressed(key) => Some(Event::Input(key)),
            Reading::Failed => None,
            Reading::Closed => None,
        }
    }
}

/// The refresh interval in milliseconds when none is configured.
pub const DEFAULT_TICK_RATE_MS: u64 = 250;

/// The one option of the event stream: the interval between two ticks, in
/// milliseconds. It sets how often the screen is refreshed without input.
#[derive(Clone, Copy, Debug, PartialEq, Eq)]
pub struct Config {
    pub tick_rate_ms: u64,
}

impl Default for Config {
    fn default() -> (config: Config)
        ensures
            config.tick_rate_ms == DEFAULT_TICK_RATE_MS,
    {
        Config { tick_rate_ms: DEFAULT_TICK_RATE_MS }
    }
}

} // verus!
