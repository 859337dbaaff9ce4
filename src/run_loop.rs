//! The decisions of the draw/input loop: which key does what to the selection
//! store, when the loop ends, and how long it may wait for input.

use vstd::prelude::*;
use crate::selection::{App, advanced, retreated};

verus! {

/// The longest the loop waits for input before it draws again, in milliseconds.
pub const TICK_INTERVAL_MS: u64 = 50;

/// A key as the loop sees it.
#[derive(Clone, Copy, Debug, PartialEq, Eq, Structural)]
pub enum Key {
    Char(char),
    Up,
    Down,
    Other,
}

/// What a key asks of the loop.
#[derive(Clone, Copy, Debug, PartialEq, Eq, Structural)]
pub enum Command {
    Advance,
    Retreat,
    Quit,
    Ignore,
}

/// Whether the loop goes on; `Terminated` is final.
#[derive(Clone, Copy, Debug, PartialEq, Eq, Structural)]
pub enum LoopState {
    Running,
    Terminated,
}

/// The dispatch table: `q` quits, `j` and Down step forward, `k` and Up step
/// back, any other key is ignored.
pub open spec fn command_of(key: Key) -> Command {
    match key {
        Key::Char(c) => if c == 'q' {
            Command::Quit
        } else if c == 'j' {
            Command::Advance
        } else if c == 'k' {
            Command::Retreat
        } else {
            Command::Ignore
        },
        Key::Down => Command::Advance,
        Key::Up => Command::Retreat,
        Key::Other => Command::Ignore,
    }
}

/// The cursor over `n` records after a command.
pub open spec fn cursor_after(n: nat, c: Option<nat>, cmd: Command) -> Option<nat> {
    match cmd {
        Command::Advance => advanced(n, c),
        Command::Retreat => retreated(n, c),
        _ => c,
    }
}

/// The loop's state after a command: only a quit ends it, and an ended loop
/// stays ended.
pub open spec fn state_after(s: LoopState, cmd: Command) -> LoopState {
    if s == LoopState::Running && cmd == Command::Quit {
        LoopState::Terminated
    } else {
        s
    }
}

/// Looks a key up in the dispatch table.
pub fn command_for(key: Key) -> (r: Command)
    ensures
        r == command_of(key),
{
    match key {
        Key::Char('q') => Command::Quit,
        Key::Char('j') => Command::Advance,
        Key::Char('k') => Command::Retreat,
        Key::Down => Command::Advance,
        Key::Up => Command::Retreat,
        _ => Command::Ignore,
    }
}

/// How long to wait for input: what is left of the tick, and nothing once the
/// tick has run out. Both durations are in one unit.
pub fn remaining_wait(tick: u64, elapsed: u64) -> (r: u64)
    ensures
        r == (if elapsed < tick {
            tick - elapsed
        } else {
            0
        }),
{
    if elapsed < tick {
        tick - elapsed
    } else {
        0
    }
}

/// Whether the tick has run out, so that its start moves to now.
pub fn tick_elapsed(tick: u64, elapsed: u64) -> (r: bool)
    ensures
        r == (elapsed >= tick),
{
    elapsed >= tick
}

/// The loop's own state: the selection store it owns and whether it goes on.
pub struct RunLoop {
    app: App,
    state: LoopState,
}

impl RunLoop {
    /// The selection store.
    pub closed spec fn store(&self) -> App {
        self.app
    }

    /// Whether the loop goes on.
    pub closed spec fn phase(&self) -> LoopState {
        self.state
    }

    /// The store's cursor is unset or on a record.
    pub open spec fn wf(&self) -> bool {
        self.store().wf()
    }

    /// A running loop over a store.
    pub fn new(app: App) -> (r: RunLoop)
        requires
            app.wf(),
        ensures
            r.wf(),
            r.store() == app,
            r.phase() == LoopState::Running,
    {
        RunLoop { app, state: LoopState::Running }
    }

    /// The selection store, to be drawn.
    pub fn app(&self) -> (r: &App)
        ensures
            *r == self.store(),
    {
        &self.app
    }

    /// Whether the loop goes on.
    pub fn is_running(&self) -> (r: bool)
        ensures
            r == (self.phase() == LoopState::Running),
    {
        match self.state {
            LoopState::Running => true,
            LoopState::Terminated => false,
        }
    }

    /// Handles one key: a running loop moves the cursor or ends as the
    /// dispatch table says; an ended loop changes nothing. Returns the state
    /// after the key.
    pub fn handle_key(&mut self, key: Key) -> (r: LoopState)
        requires
            old(self).wf(),
        ensures
            final(self).wf(),
            r == final(self).phase(),
            final(self).phase() == state_after(old(self).phase(), command_of(key)),
            final(self).store().cursor() == (if old(self).phase() == LoopState::Running {
                cursor_after(old(self).store().len(), old(self).store().cursor(), command_of(key))
            } else {
                old(self).store().cursor()
            }),
            final(self).store().record_view() == old(self).store().record_view(),
            final(self).store().filter_view() == old(self).store().filter_view(),
    {
        if let LoopState::Terminated = self.state {
            return LoopState::Terminated;
        }
        match command_for(key) {
            Command::Advance => self.app.next(),
            Command::Retreat => self.app.previous(),
            Command::Quit => self.state = LoopState::Terminated,
            Command::Ignore => {},
        }
        self.state
    }
}

} // verus!
