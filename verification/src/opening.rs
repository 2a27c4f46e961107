//! Opening a handle, step by step.
//!
//! An [`Opening`] always awaits the answer to one [`Action`]. The caller
//! performs [`Opening::pending`], reports what came of it to
//! [`Opening::advance`], and goes on until a handle or a failure comes out:
//!
//! 1. read the clock;
//! 2. probe the candidate path of that timestamp;
//! 3. if something is there, pause for a microsecond and start over; if not,
//!    create the entry;
//! 4. bind a handle to the path, or fail with the system's message.
//!
//! A creation that the system refuses is final, also where the entry
//! appeared between the probe and the creation: only a probe that finds the
//! path taken leads to another candidate.

use vstd::prelude::*;
use crate::handle::{TempDir, TempFile};
use crate::path::{candidate_path, distinct_stamps_distinct_paths, path_text};
use crate::protocol::{Action, ActionView, Event, EventView, Kind, PAUSE_MICROS};
use crate::system::Exchange;

verus! {

/// A handle in the making.
#[derive(Debug)]
pub struct Opening {
    kind: Kind,
    dir: String,
    prefix: String,
    suffix: String,
    pending: Action,
}

/// What came of one step of an [`Opening`].
#[derive(Debug)]
pub enum OpenStep {
    /// More is to be done: perform the pending action of this opening.
    Pending(Opening),
    /// The directory was created.
    Dir(TempDir),
    /// The file was created.
    File(TempFile),
    /// The system refused the creation, with this message. Nothing was
    /// created, and nothing is to be removed.
    Failed(String),
}

/// An [`Opening`] as a plain value.
pub struct OpeningView {
    pub kind: Kind,
    pub dir: Seq<char>,
    pub prefix: Seq<char>,
    pub suffix: Seq<char>,
    pub pending: ActionView,
}

/// An [`OpenStep`] as a plain value. A handle is its bound path.
pub enum OpenStepView {
    Pending(OpeningView),
    Dir(Seq<char>),
    File(Seq<char>),
    Failed(Seq<char>),
}

impl View for Opening {
    type V = OpeningView;

    closed spec fn view(&self) -> OpeningView {
        OpeningView {
            kind: self.kind,
            dir: self.dir@,
            prefix: self.prefix@,
            suffix: self.suffix@,
            pending: self.pending@,
        }
    }
}

impl View for OpenStep {
    type V = OpenStepView;

    open spec fn view(&self) -> OpenStepView {
        match *self {
            OpenStep::Pending(opening) => OpenStepView::Pending(opening@),
            OpenStep::Dir(handle) => OpenStepView::Dir(handle@),
            OpenStep::File(handle) => OpenStepView::File(handle@),
            OpenStep::Failed(message) => OpenStepView::Failed(message@),
        }
    }
}

impl OpeningView {
    /// The opening of a `kind` in `dir`, before anything was done: the clock
    /// is to be read.
    pub open spec fn start(
        kind: Kind,
        dir: Seq<char>,
        prefix: Seq<char>,
        suffix: Seq<char>,
    ) -> OpeningView {
        OpeningView { kind, dir, prefix, suffix, pending: ActionView::ReadClock }
    }

    /// The candidate path of this opening for a timestamp.
    pub open spec fn candidate(self, micros: nat) -> Seq<char> {
        path_text(self.dir, self.prefix, micros, self.suffix)
    }

    /// This opening, awaiting another action.
    pub open spec fn awaiting(self, pending: ActionView) -> OpeningView {
        OpeningView { pending, ..self }
    }

    /// The handle of this opening's kind, bound to `path`.
    pub open spec fn handle(self, path: Seq<char>) -> OpenStepView {
        match self.kind {
            Kind::Directory => OpenStepView::Dir(path),
            Kind::File => OpenStepView::File(path),
        }
    }

    /// What comes of an event.
    ///
    /// An event that does not answer the pending action changes nothing: the
    /// same action is still pending.
    pub open spec fn step(self, event: EventView) -> OpenStepView {
        match (self.pending, event) {
            (ActionView::ReadClock, EventView::Clock { micros }) => OpenStepView::Pending(
                self.awaiting(ActionView::Probe { path: self.candidate(micros) }),
            ),
            (ActionView::Probe { path }, EventView::Probed { present }) => OpenStepView::Pending(
                if present {
                    self.awaiting(ActionView::Pause { micros: PAUSE_MICROS })
                } else {
                    self.awaiting(ActionView::Create { kind: self.kind, path })
                },
            ),
            (ActionView::Pause { micros }, EventView::Paused) => OpenStepView::Pending(
                self.awaiting(ActionView::ReadClock),
            ),
            (ActionView::Create { kind, path }, EventView::Done) => self.handle(path),
            (ActionView::Create { kind, path }, EventView::Refused { message }) => {
                OpenStepView::Failed(message)
            },
            _ => OpenStepView::Pending(self),
        }
    }

    /// What holds of every opening that was started and advanced: it never
    /// asks for a removal, and the path that it probes or creates is one of
    /// its own candidates, created as the kind that was asked for.
    pub open spec fn inv(self) -> bool {
        match self.pending {
            ActionView::ReadClock => true,
            ActionView::Pause { micros } => micros == PAUSE_MICROS,
            ActionView::Probe { path } => {
                exists|micros: nat| path == #[trigger] self.candidate(micros)
            },
            ActionView::Create { kind, path } => {
                &&& kind == self.kind
                &&& exists|micros: nat| path == #[trigger] self.candidate(micros)
            },
            ActionView::Remove { kind, path } => false,
        }
    }
}

impl Opening {
    #[verifier::type_invariant]
    spec fn sound(&self) -> bool {
        self@.inv()
    }

    /// The opening of a `kind` in `dir`, with nothing done yet.
    pub(crate) fn start(kind: Kind, dir: &str, prefix: &str, suffix: &str) -> (opening: Opening)
        ensures
            opening@ == OpeningView::start(kind, dir@, prefix@, suffix@),
    {
        Opening {
            kind,
            dir: String::from_str(dir),
            prefix: String::from_str(prefix),
            suffix: String::from_str(suffix),
            pending: Action::ReadClock,
        }
    }

    /// The action whose answer this opening awaits. It is always one that
    /// [`OpeningView::inv`] allows.
    pub fn pending(&self) -> (action: &Action)
        ensures
            action@ == self@.pending,
            self@.inv(),
    {
        proof {
            use_type_invariant(self);
        }
        &self.pending
    }

    /// Takes the answer to the pending action and says what is next.
    pub fn advance(self, event: Event) -> (step: OpenStep)
        ensures
            step@ == self@.step(event@),
    {
        proof {
            use_type_invariant(&self);
            step_keeps_inv(self@, event@);
        }
        let Opening { kind, dir, prefix, suffix, pending } = self;
        match (pending, event) {
            (Action::ReadClock, Event::Clock { micros }) => {
                let path = candidate_path(dir.as_str(), prefix.as_str(), micros, suffix.as_str());
                OpenStep::Pending(
                    Opening { kind, dir, prefix, suffix, pending: Action::Probe { path } },
                )
            },
            (Action::Probe { path }, Event::Probed { present }) => {
                let pending = if present {
                    Action::Pause { micros: PAUSE_MICROS }
                } else {
                    Action::Create { kind, path }
                };
                OpenStep::Pending(Opening { kind, dir, prefix, suffix, pending })
            },
            (Action::Pause { micros: _ }, Event::Paused) => OpenStep::Pending(
                Opening { kind, dir, prefix, suffix, pending: Action::ReadClock },
            ),
            (Action::Create { kind: _, path }, Event::Done) => match kind {
                Kind::Directory => OpenStep::Dir(TempDir::bound(path)),
                Kind::File => OpenStep::File(TempFile::bound(path)),
            },
            (Action::Create { kind: _, path: _ }, Event::Refused { message }) => OpenStep::Failed(
                message,
            ),
            (pending, _) => OpenStep::Pending(Opening { kind, dir, prefix, suffix, pending }),
        }
    }
}

/// A step leaves an opening as sound as it found it.
pub proof fn step_keeps_inv(opening: OpeningView, event: EventView)
    requires
        opening.inv(),
    ensures
        opening.step(event) matches OpenStepView::Pending(next) ==> next.inv(),
{
    match (opening.pending, event) {
        (ActionView::ReadClock, EventView::Clock { micros }) => {
            let next = opening.awaiting(ActionView::Probe { path: opening.candidate(micros) });
            assert(next.candidate(micros) == opening.candidate(micros));
        },
        (ActionView::Probe { path }, EventView::Probed { present }) => {
            if !present {
                let micros = choose|micros: nat| path == #[trigger] opening.candidate(micros);
                let next = opening.awaiting(ActionView::Create { kind: opening.kind, path });
                assert(path == next.candidate(micros));
            }
        },
        _ => {},
    }
}

/// A step never changes what was asked for: the kind, the directory, the
/// prefix and the suffix stay.
pub proof fn step_keeps_request(opening: OpeningView, event: EventView)
    ensures
        opening.step(event) matches OpenStepView::Pending(next) ==> next == opening.awaiting(
            next.pending,
        ),
{
}

/// A handle comes out of a step only when the system reports a creation as
/// done, and it is bound to the very path that was to be created.
pub proof fn handle_comes_from_creation(opening: OpeningView, event: EventView, path: Seq<char>)
    requires
        opening.step(event).binds(path),
    ensures
        event == EventView::Done,
        opening.pending matches ActionView::Create { kind: _, path: created } && created == path,
        opening.step(event) is Dir <==> opening.kind == Kind::Directory,
{
}

/// A creation becomes pending only on the news that nothing exists at the
/// path that was probed, and it is for that path.
pub proof fn creation_follows_absence(opening: OpeningView, event: EventView, next: OpeningView)
    requires
        opening.step(event) == OpenStepView::Pending(next),
        next.pending is Create,
        !(opening.pending is Create),
    ensures
        event == (EventView::Probed { present: false }),
        opening.pending matches ActionView::Probe { path } && next.pending == (ActionView::Create {
            kind: opening.kind,
            path,
        }),
{
}

impl OpeningView {
    /// What comes of a series of events, taken one after the other until a
    /// handle or a failure comes out.
    pub open spec fn run(self, events: Seq<EventView>) -> OpenStepView
        decreases events.len(),
    {
        if events.len() == 0 {
            OpenStepView::Pending(self)
        } else {
            match self.step(events[0]) {
                OpenStepView::Pending(next) => next.run(events.drop_first()),
                done => done,
            }
        }
    }

    /// The exchanges of such a series: each event that was taken, with the
    /// action that was pending when it came.
    pub open spec fn trace(self, events: Seq<EventView>) -> Seq<Exchange>
        decreases events.len(),
    {
        if events.len() == 0 {
            Seq::<Exchange>::empty()
        } else {
            seq![Exchange { action: self.pending, event: events[0] }] + match self.step(events[0]) {
                OpenStepView::Pending(next) => next.trace(events.drop_first()),
                _ => Seq::<Exchange>::empty(),
            }
        }
    }
}

impl OpenStepView {
    /// Whether this is a handle bound to `path`.
    pub open spec fn binds(self, path: Seq<char>) -> bool {
        self == OpenStepView::Dir(path) || self == OpenStepView::File(path)
    }
}

/// The answers of rounds in which the candidate was found taken: for each
/// timestamp the clock's reading, a probe that finds the path, and the pause.
pub open spec fn collisions(stamps: Seq<nat>) -> Seq<EventView>
    decreases stamps.len(),
{
    if stamps.len() == 0 {
        Seq::<EventView>::empty()
    } else {
        seq![
            EventView::Clock { micros: stamps[0] },
            EventView::Probed { present: true },
            EventView::Paused,
        ] + collisions(stamps.drop_first())
    }
}

/// A series of events can be taken in two parts: the second part goes to
/// the opening that the first part left pending.
pub proof fn run_in_parts(opening: OpeningView, first: Seq<EventView>, second: Seq<EventView>)
    ensures
        opening.run(first + second) == match opening.run(first) {
            OpenStepView::Pending(next) => next.run(second),
            done => done,
        },
    decreases first.len(),
{
    if first.len() == 0 {
        assert(first + second =~= second);
    } else {
        assert((first + second).drop_first() =~= first.drop_first() + second);
        assert((first + second)[0] == first[0]);
        match opening.step(first[0]) {
            OpenStepView::Pending(next) => {
                run_in_parts(next, first.drop_first(), second);
            },
            _ => {},
        }
    }
}

/// Candidates that are found taken cost nothing but time: after any number
/// of such rounds the opening is where it was, about to read the clock, and
/// no creation was asked for.
pub proof fn collisions_change_nothing(opening: OpeningView, stamps: Seq<nat>)
    requires
        opening.pending == ActionView::ReadClock,
    ensures
        opening.run(collisions(stamps)) == OpenStepView::Pending(opening),
    decreases stamps.len(),
{
    if stamps.len() > 0 {
        let round = seq![
            EventView::Clock { micros: stamps[0] },
            EventView::Probed { present: true },
            EventView::Paused,
        ];
        let probing = opening.awaiting(ActionView::Probe { path: opening.candidate(stamps[0]) });
        let pausing = opening.awaiting(ActionView::Pause { micros: PAUSE_MICROS });
        assert(opening.run(round) == OpenStepView::Pending(opening)) by {
            reveal_with_fuel(OpeningView::run, 4);
            assert(round.drop_first() =~= seq![
                EventView::Probed { present: true },
                EventView::Paused,
            ]);
            assert(round.drop_first().drop_first() =~= seq![EventView::Paused]);
            assert(round.drop_first().drop_first().drop_first() =~= Seq::<EventView>::empty());
            assert(opening.step(round[0]) == OpenStepView::Pending(probing));
            assert(probing.step(round[1]) == OpenStepView::Pending(pausing));
            assert(pausing.step(round[2]) == OpenStepView::Pending(opening));
        }
        run_in_parts(opening, round, collisions(stamps.drop_first()));
        collisions_change_nothing(opening, stamps.drop_first());
    }
}

/// The last round of an opening: the clock reads `micros`, nothing exists at
/// the candidate, and the system answers the creation with `answer`.
pub open spec fn last_round(micros: nat, answer: EventView) -> Seq<EventView> {
    seq![EventView::Clock { micros }, EventView::Probed { present: false }, answer]
}

/// The last round comes to what the system answers to the creation of the
/// candidate of `micros`, however many candidates were found taken before.
pub proof fn last_round_decides(
    opening: OpeningView,
    taken: Seq<nat>,
    micros: nat,
    answer: EventView,
)
    requires
        opening.pending == ActionView::ReadClock,
    ensures
        opening.run(collisions(taken) + last_round(micros, answer)) == opening.awaiting(
            ActionView::Create { kind: opening.kind, path: opening.candidate(micros) },
        ).step(answer),
{
    let round = last_round(micros, answer);
    let probing = opening.awaiting(ActionView::Probe { path: opening.candidate(micros) });
    let creating = opening.awaiting(
        ActionView::Create { kind: opening.kind, path: opening.candidate(micros) },
    );
    collisions_change_nothing(opening, taken);
    run_in_parts(opening, collisions(taken), round);
    assert(opening.run(round) == creating.step(answer)) by {
        reveal_with_fuel(OpeningView::run, 4);
        assert(round.drop_first() =~= seq![EventView::Probed { present: false }, answer]);
        assert(round.drop_first().drop_first() =~= seq![answer]);
        assert(round.drop_first().drop_first().drop_first() =~= Seq::<EventView>::empty());
        assert(opening.step(round[0]) == OpenStepView::Pending(probing));
        assert(probing.step(round[1]) == OpenStepView::Pending(creating));
    }
}

/// However many candidates are found taken, the handle is bound to the
/// first candidate at which nothing exists, once the system has created the
/// entry there: a directory for a directory's opening, a file for a file's.
pub proof fn opens_at_first_absent_candidate(opening: OpeningView, taken: Seq<nat>, micros: nat)
    requires
        opening.pending == ActionView::ReadClock,
    ensures
        opening.run(collisions(taken) + last_round(micros, EventView::Done)) == opening.handle(
            opening.candidate(micros),
        ),
{
    last_round_decides(opening, taken, micros, EventView::Done);
}

/// Two handles that come of one request at two timestamps that differ are
/// bound to two paths that differ.
pub proof fn handles_of_distinct_stamps_differ(
    opening: OpeningView,
    taken_before_a: Seq<nat>,
    a: nat,
    taken_before_b: Seq<nat>,
    b: nat,
)
    requires
        opening.pending == ActionView::ReadClock,
        a != b,
    ensures
        opening.run(collisions(taken_before_a) + last_round(a, EventView::Done)) != opening.run(
            collisions(taken_before_b) + last_round(b, EventView::Done),
        ),
{
    opens_at_first_absent_candidate(opening, taken_before_a, a);
    opens_at_first_absent_candidate(opening, taken_before_b, b);
    distinct_stamps_distinct_paths(opening.dir, opening.prefix, opening.suffix, a, b);
}

/// A creation that the system refuses ends the opening with the system's
/// message: no handle comes out, and no other candidate is tried.
pub proof fn refused_creation_fails(
    opening: OpeningView,
    taken: Seq<nat>,
    micros: nat,
    message: Seq<char>,
)
    requires
        opening.pending == ActionView::ReadClock,
    ensures
        opening.run(collisions(taken) + last_round(micros, EventView::Refused { message }))
            == OpenStepView::Failed(message),
{
    last_round_decides(opening, taken, micros, EventView::Refused { message });
}

} // verus!
