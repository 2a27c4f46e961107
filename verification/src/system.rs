//! The system as the library takes it to be, and what opening and closing
//! come to on such a system.
//!
//! The library never touches a filesystem. What it is for can still be
//! stated: on a system that answers as [`answers`] says, and that changes as
//! [`after`] says, a handle is bound to an entry that is new, a failure
//! leaves nothing behind, and a closing leaves nothing at the bound path.
//! Nothing here is taken on trust: the system is a premise of each law.

use vstd::prelude::*;
use crate::closing::{CloseStepView, ClosingView};
use crate::opening::{collisions, last_round, last_round_decides, OpenStepView, OpeningView};
use crate::protocol::{ActionView, EventView, Kind};

verus! {

/// An action and the answer to it.
pub struct Exchange {
    pub action: ActionView,
    pub event: EventView,
}

/// Whether `entry` is `dir` itself or lies beneath it.
pub open spec fn within(dir: Seq<char>, entry: Seq<char>) -> bool {
    entry == dir || (dir + seq!['/']).is_prefix_of(entry)
}

/// Whether a system that holds `entries` may give `event` in answer to
/// `action`.
///
/// A probe is answered truly. A creation is done only where nothing exists
/// yet; the system may refuse it for reasons of its own, and a removal too.
pub open spec fn answers(entries: Set<Seq<char>>, action: ActionView, event: EventView) -> bool {
    match action {
        ActionView::ReadClock => event is Clock,
        ActionView::Probe { path } => event == (EventView::Probed {
            present: entries.contains(path),
        }),
        ActionView::Pause { micros } => event == EventView::Paused,
        ActionView::Create { kind, path } => {
            ||| event == EventView::Done && !entries.contains(path)
            ||| event is Refused
        },
        ActionView::Remove { kind, path } => event == EventView::Done || event is Refused,
    }
}

/// What the system holds after it gave `event` in answer to `action`.
///
/// Only a creation or a removal that was done changes anything: the one adds
/// its path, the other takes its path away, and with a directory all that
/// lies beneath it.
pub open spec fn after(
    entries: Set<Seq<char>>,
    action: ActionView,
    event: EventView,
) -> Set<Seq<char>> {
    match (action, event) {
        (ActionView::Create { kind, path }, EventView::Done) => entries.insert(path),
        (ActionView::Remove { kind: Kind::File, path }, EventView::Done) => entries.remove(path),
        (ActionView::Remove { kind: Kind::Directory, path }, EventView::Done) => entries.filter(
            |entry: Seq<char>| !within(path, entry),
        ),
        _ => entries,
    }
}

/// Whether a system that starts with `entries` may give each answer of
/// `trace` to its action, one exchange after the other.
pub open spec fn lawful(entries: Set<Seq<char>>, trace: Seq<Exchange>) -> bool
    decreases trace.len(),
{
    trace.len() == 0 || {
        &&& answers(entries, trace[0].action, trace[0].event)
        &&& lawful(after(entries, trace[0].action, trace[0].event), trace.drop_first())
    }
}

/// What the system holds after the exchanges of `trace`.
pub open spec fn left(entries: Set<Seq<char>>, trace: Seq<Exchange>) -> Set<Seq<char>>
    decreases trace.len(),
{
    if trace.len() == 0 {
        entries
    } else {
        left(after(entries, trace[0].action, trace[0].event), trace.drop_first())
    }
}

/// The trace of one exchange followed by `rest` starts with that exchange
/// and goes on with `rest`.
proof fn trace_unfolds(first: Exchange, rest: Seq<Exchange>)
    ensures
        (seq![first] + rest).len() > 0,
        (seq![first] + rest)[0] == first,
        (seq![first] + rest).drop_first() == rest,
{
    assert((seq![first] + rest).drop_first() =~= rest);
}

/// What an opening does to the system. Until it ends, and when it fails,
/// nothing has changed. When it ends with a handle, nothing existed at the
/// bound path before, and the entry at that path is all that was added.
pub proof fn opening_effect(opening: OpeningView, entries: Set<Seq<char>>, events: Seq<EventView>)
    requires
        opening.inv(),
        lawful(entries, opening.trace(events)),
    ensures
        match opening.run(events) {
            OpenStepView::Pending(next) => left(entries, opening.trace(events)) == entries,
            OpenStepView::Failed(message) => left(entries, opening.trace(events)) == entries,
            OpenStepView::Dir(path) => {
                &&& !entries.contains(path)
                &&& left(entries, opening.trace(events)) == entries.insert(path)
            },
            OpenStepView::File(path) => {
                &&& !entries.contains(path)
                &&& left(entries, opening.trace(events)) == entries.insert(path)
            },
        },
    decreases events.len(),
{
    if events.len() > 0 {
        let exchange = Exchange { action: opening.pending, event: events[0] };
        match opening.step(events[0]) {
            OpenStepView::Pending(next) => {
                trace_unfolds(exchange, next.trace(events.drop_first()));
                crate::opening::step_keeps_inv(opening, events[0]);
                opening_effect(next, entries, events.drop_first());
            },
            _ => {
                trace_unfolds(exchange, Seq::<Exchange>::empty());
                assert(left(after(entries, exchange.action, exchange.event), Seq::empty())
                    == after(entries, exchange.action, exchange.event));
            },
        }
    }
}

/// A handle is bound to an entry that exists once the opening has ended, and
/// that did not exist before.
pub proof fn opened_entry_exists(
    opening: OpeningView,
    entries: Set<Seq<char>>,
    events: Seq<EventView>,
    path: Seq<char>,
)
    requires
        opening.inv(),
        lawful(entries, opening.trace(events)),
        opening.run(events).binds(path),
    ensures
        !entries.contains(path),
        left(entries, opening.trace(events)).contains(path),
{
    opening_effect(opening, entries, events);
}

/// Where the system grants the creation, a handle comes out, and the entry
/// at its path exists from then on: however many candidates were found
/// taken before, the handle is bound to the candidate that was found absent.
pub proof fn granted_creation_opens(
    opening: OpeningView,
    entries: Set<Seq<char>>,
    taken: Seq<nat>,
    micros: nat,
)
    requires
        opening.pending == ActionView::ReadClock,
        lawful(
            entries,
            opening.trace(collisions(taken) + last_round(micros, EventView::Done)),
        ),
    ensures
        ({
            let events = collisions(taken) + last_round(micros, EventView::Done);
            let path = opening.candidate(micros);
            &&& opening.run(events) == opening.handle(path)
            &&& left(entries, opening.trace(events)).contains(path)
        }),
{
    let events = collisions(taken) + last_round(micros, EventView::Done);
    last_round_decides(opening, taken, micros, EventView::Done);
    opening_effect(opening, entries, events);
}

/// Where the system refuses the creation, the opening fails with the
/// system's message and leaves the system as it found it.
pub proof fn refused_creation_leaves_nothing(
    opening: OpeningView,
    entries: Set<Seq<char>>,
    taken: Seq<nat>,
    micros: nat,
    message: Seq<char>,
)
    requires
        opening.pending == ActionView::ReadClock,
        lawful(
            entries,
            opening.trace(collisions(taken) + last_round(micros, EventView::Refused { message })),
        ),
    ensures
        ({
            let events = collisions(taken) + last_round(micros, EventView::Refused { message });
            &&& opening.run(events) == OpenStepView::Failed(message)
            &&& left(entries, opening.trace(events)) == entries
        }),
{
    let events = collisions(taken) + last_round(micros, EventView::Refused { message });
    last_round_decides(opening, taken, micros, EventView::Refused { message });
    opening_effect(opening, entries, events);
}

/// An opening that fails leaves the system as it found it.
pub proof fn failed_opening_leaves_nothing(
    opening: OpeningView,
    entries: Set<Seq<char>>,
    events: Seq<EventView>,
)
    requires
        opening.inv(),
        lawful(entries, opening.trace(events)),
        opening.run(events) is Failed,
    ensures
        left(entries, opening.trace(events)) == entries,
{
    opening_effect(opening, entries, events);
}

/// An opening that was run to a handle: the events that it took, and the
/// path that the handle is bound to.
pub struct Opened {
    pub opening: OpeningView,
    pub events: Seq<EventView>,
    pub path: Seq<char>,
}

/// Whether the handles were opened one after the other on a system that
/// started with `entries`, each on what the one before left, and none of
/// them closed in between.
pub open spec fn opened_in_turn(entries: Set<Seq<char>>, handles: Seq<Opened>) -> bool
    decreases handles.len(),
{
    handles.len() == 0 || {
        let first = handles[0];
        &&& first.opening.inv()
        &&& lawful(entries, first.opening.trace(first.events))
        &&& first.opening.run(first.events).binds(first.path)
        &&& opened_in_turn(
            left(entries, first.opening.trace(first.events)),
            handles.drop_first(),
        )
    }
}

/// Handles that are held at one time never share a path: however many are
/// opened one after the other, and however fast, each is bound to a path
/// that did not exist before, and no two to the same.
pub proof fn handles_held_together_differ(entries: Set<Seq<char>>, handles: Seq<Opened>)
    requires
        opened_in_turn(entries, handles),
    ensures
        forall|i: int| 0 <= i < handles.len() ==> !entries.contains(#[trigger] handles[i].path),
        forall|i: int, j: int|
            0 <= i < j < handles.len() ==> #[trigger] handles[i].path != #[trigger] handles[j].path,
    decreases handles.len(),
{
    if handles.len() > 0 {
        let first = handles[0];
        let rest = handles.drop_first();
        opening_effect(first.opening, entries, first.events);
        handles_held_together_differ(left(entries, first.opening.trace(first.events)), rest);
        assert forall|i: int| 0 <= i < handles.len() implies !entries.contains(
            #[trigger] handles[i].path,
        ) by {
            if i > 0 {
                assert(handles[i] == rest[i - 1]);
            }
        }
        assert forall|i: int, j: int| 0 <= i < j < handles.len() implies #[trigger] handles[i].path
            != #[trigger] handles[j].path by {
            assert(handles[j] == rest[j - 1]);
            if i > 0 {
                assert(handles[i] == rest[i - 1]);
            }
        }
    }
}

/// What a closing does to the system. Until it ends, and when it ends
/// fatally, nothing has changed. When it ends cleanly, nothing is left at
/// the bound path, and nothing was added anywhere.
pub proof fn closing_effect(closing: ClosingView, entries: Set<Seq<char>>, events: Seq<EventView>)
    requires
        closing.inv(),
        lawful(entries, closing.trace(events)),
    ensures
        match closing.run(events) {
            CloseStepView::Pending(next) => left(entries, closing.trace(events)) == entries,
            CloseStepView::Fatal(message) => left(entries, closing.trace(events)) == entries,
            CloseStepView::Clean => {
                &&& !left(entries, closing.trace(events)).contains(closing.path())
                &&& left(entries, closing.trace(events)).subset_of(entries)
            },
        },
    decreases events.len(),
{
    if events.len() > 0 {
        let exchange = Exchange { action: closing.pending, event: events[0] };
        match closing.step(events[0]) {
            CloseStepView::Pending(next) => {
                trace_unfolds(exchange, next.trace(events.drop_first()));
                crate::closing::step_keeps_inv(closing, events[0]);
                closing_effect(next, entries, events.drop_first());
            },
            _ => {
                trace_unfolds(exchange, Seq::<Exchange>::empty());
                assert(left(after(entries, exchange.action, exchange.event), Seq::empty())
                    == after(entries, exchange.action, exchange.event));
            },
        }
    }
}

/// Once a handle's closing has ended cleanly, nothing exists at the bound
/// path.
pub proof fn closed_entry_is_gone(
    kind: Kind,
    path: Seq<char>,
    entries: Set<Seq<char>>,
    events: Seq<EventView>,
)
    requires
        lawful(entries, ClosingView::start(kind, path).trace(events)),
        ClosingView::start(kind, path).run(events) == CloseStepView::Clean,
    ensures
        !left(entries, ClosingView::start(kind, path).trace(events)).contains(path),
{
    closing_effect(ClosingView::start(kind, path), entries, events);
}

/// The bound path of a handle exists once the handle is opened, and does
/// not exist once the handle is closed.
pub proof fn path_exists_from_opening_to_closing(
    entries: Set<Seq<char>>,
    opening: OpeningView,
    opening_events: Seq<EventView>,
    path: Seq<char>,
    closing_events: Seq<EventView>,
)
    requires
        opening.inv(),
        lawful(entries, opening.trace(opening_events)),
        opening.run(opening_events).binds(path),
        lawful(
            left(entries, opening.trace(opening_events)),
            ClosingView::start(opening.kind, path).trace(closing_events),
        ),
        ClosingView::start(opening.kind, path).run(closing_events) == CloseStepView::Clean,
    ensures
        ({
            let opened = left(entries, opening.trace(opening_events));
            let closed = left(opened, ClosingView::start(opening.kind, path).trace(closing_events));
            &&& opened.contains(path)
            &&& !closed.contains(path)
        }),
{
    opened_entry_exists(opening, entries, opening_events, path);
    closed_entry_is_gone(
        opening.kind,
        path,
        left(entries, opening.trace(opening_events)),
        closing_events,
    );
}

/// Where nothing exists at the bound path any more, the closing ends
/// cleanly on the probe's answer: no removal is asked for, nothing fails,
/// and the system is left as it was.
pub proof fn gone_entry_costs_one_probe(
    kind: Kind,
    path: Seq<char>,
    entries: Set<Seq<char>>,
    events: Seq<EventView>,
)
    requires
        !entries.contains(path),
        events.len() > 0,
        lawful(entries, ClosingView::start(kind, path).trace(events)),
    ensures
        ClosingView::start(kind, path).run(events) == CloseStepView::Clean,
        ClosingView::start(kind, path).trace(events) == seq![
            Exchange {
                action: ActionView::Probe { path },
                event: EventView::Probed { present: false },
            },
        ],
        left(entries, ClosingView::start(kind, path).trace(events)) == entries,
{
    let closing = ClosingView::start(kind, path);
    let exchange = Exchange { action: closing.pending, event: events[0] };
    let trace = closing.trace(events);
    trace_unfolds(exchange, Seq::<Exchange>::empty());
    assert(trace =~= seq![exchange]);
    assert(left(entries, trace.drop_first()) == entries);
}

} // verus!
