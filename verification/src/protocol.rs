//! What the library asks of the system, and what the system answers.

use vstd::prelude::*;

verus! {

/// Which kind of entry a handle stands for.
#[derive(Clone, Copy, PartialEq, Eq, Debug, Structural)]
pub enum Kind {
    /// A directory, removed with everything beneath it.
    Directory,
    /// A single file, created empty.
    File,
}

/// How long a pause lasts, in microseconds: long enough for the clock to
/// move on, and no longer.
pub const PAUSE_MICROS: u64 = 1;

/// One step that the caller performs for the library.
#[derive(PartialEq, Eq, Debug)]
pub enum Action {
    /// Read the wall clock: microseconds since the Unix epoch.
    ReadClock,
    /// Ask whether anything exists at `path`. Absence is an answer, not an
    /// error.
    Probe { path: String },
    /// Wait for `micros` microseconds, so that the clock moves on.
    Pause { micros: u64 },
    /// Create the entry at `path` in one step that fails if anything exists
    /// there: a directory, or an empty file that is closed again at once.
    Create { kind: Kind, path: String },
    /// Remove the entry at `path`: a directory with all that it holds, a
    /// file alone.
    Remove { kind: Kind, path: String },
}

/// What the system answered to a step.
#[derive(PartialEq, Eq, Debug)]
pub enum Event {
    /// The clock read `micros`.
    Clock { micros: u128 },
    /// The probed path exists (`present`) or does not.
    Probed { present: bool },
    /// The pause is over.
    Paused,
    /// The entry was created or removed as asked.
    Done,
    /// The system refused to create or to remove, with its own words.
    Refused { message: String },
}

/// An [`Action`] with its texts as sequences of characters.
pub enum ActionView {
    ReadClock,
    Probe { path: Seq<char> },
    Pause { micros: u64 },
    Create { kind: Kind, path: Seq<char> },
    Remove { kind: Kind, path: Seq<char> },
}

/// An [`Event`] with its text as a sequence of characters.
pub enum EventView {
    Clock { micros: nat },
    Probed { present: bool },
    Paused,
    Done,
    Refused { message: Seq<char> },
}

impl View for Action {
    type V = ActionView;

    open spec fn view(&self) -> ActionView {
        match *self {
            Action::ReadClock => ActionView::ReadClock,
            Action::Probe { path } => ActionView::Probe { path: path@ },
            Action::Pause { micros } => ActionView::Pause { micros },
            Action::Create { kind, path } => ActionView::Create { kind, path: path@ },
            Action::Remove { kind, path } => ActionView::Remove { kind, path: path@ },
        }
    }
}

impl View for Event {
    type V = EventView;

    open spec fn view(&self) -> EventView {
        match *self {
            Event::Clock { micros } => EventView::Clock { micros: micros as nat },
            Event::Probed { present } => EventView::Probed { present },
            Event::Paused => EventView::Paused,
            Event::Done => EventView::Done,
            Event::Refused { message } => EventView::Refused { message: message@ },
        }
    }
}

} // verus!
