//! Giving a handle up, step by step.
//!
//! A [`Closing`] first has the bound path probed. What is not there any more
//! is left alone; what is there is removed, and a removal that the system
//! refuses is fatal.

use vstd::prelude::*;
use crate::protocol::{Action, ActionView, Event, EventView, Kind};
use crate::system::Exchange;

verus! {

/// The removal of what a handle is bound to, in progress.
#[derive(Debug)]
pub struct Closing {
    kind: Kind,
    pending: Action,
}

/// What came of one step of a [`Closing`].
#[derive(Debug)]
pub enum CloseStep {
    /// More is to be done: perform the pending action of this closing.
    Pending(Closing),
    /// Nothing is left at the bound path: it was removed now, or was gone
    /// already.
    Clean,
    /// The system refused the removal, with this message. There is no way
    /// to go on.
    Fatal(String),
}

/// A [`Closing`] as a plain value.
pub struct ClosingView {
    pub kind: Kind,
    pub pending: ActionView,
}

/// A [`CloseStep`] as a plain value.
pub enum CloseStepView {
    Pending(ClosingView),
    Clean,
    Fatal(Seq<char>),
}

impl View for Closing {
    type V = ClosingView;

    closed spec fn view(&self) -> ClosingView {
        ClosingView { kind: self.kind, pending: self.pending@ }
    }
}

impl View for CloseStep {
    type V = CloseStepView;

    open spec fn view(&self) -> CloseStepView {
        match *self {
            CloseStep::Pending(closing) => CloseStepView::Pending(closing@),
            CloseStep::Clean => CloseStepView::Clean,
            CloseStep::Fatal(message) => CloseStepView::Fatal(message@),
        }
    }
}

impl ClosingView {
    /// The closing of a `kind` bound to `path`, before anything was done:
    /// the path is to be probed.
    pub open spec fn start(kind: Kind, path: Seq<char>) -> ClosingView {
        ClosingView { kind, pending: ActionView::Probe { path } }
    }

    /// What comes of an event.
    ///
    /// An event that does not answer the pending action changes nothing: the
    /// same action is still pending.
    pub open spec fn step(self, event: EventView) -> CloseStepView {
        match (self.pending, event) {
            (ActionView::Probe { path }, EventView::Probed { present }) => if present {
                CloseStepView::Pending(
                    ClosingView {
                        kind: self.kind,
                        pending: ActionView::Remove { kind: self.kind, path },
                    },
                )
            } else {
                CloseStepView::Clean
            },
            (ActionView::Remove { kind, path }, EventView::Done) => CloseStepView::Clean,
            (ActionView::Remove { kind, path }, EventView::Refused { message }) => {
                CloseStepView::Fatal(message)
            },
            _ => CloseStepView::Pending(self),
        }
    }

    /// What comes of a series of events, taken one after the other until
    /// the closing ends.
    pub open spec fn run(self, events: Seq<EventView>) -> CloseStepView
        decreases events.len(),
    {
        if events.len() == 0 {
            CloseStepView::Pending(self)
        } else {
            match self.step(events[0]) {
                CloseStepView::Pending(next) => next.run(events.drop_first()),
                done => done,
            }
        }
    }

    /// The exchanges of such a series: each event that was taken, with the
    /// action that was pending when it came.
    pub open spec fn trace(self, events: Seq<EventView>) -> Seq<Exchange>
        decreases events.len(),
    {
        if events.len() == 0 {
            Seq::<Exchange>::empty()
        } else {
            seq![Exchange { action: self.pending, event: events[0] }] + match self.step(events[0]) {
                CloseStepView::Pending(next) => next.trace(events.drop_first()),
                _ => Seq::<Exchange>::empty(),
            }
        }
    }

    /// The path that this closing is about: the one in its pending action.
    pub open spec fn path(self) -> Seq<char> {
        match self.pending {
            ActionView::Probe { path } => path,
            ActionView::Create { kind, path } => path,
            ActionView::Remove { kind, path } => path,
            _ => Seq::<char>::empty(),
        }
    }

    /// What holds of every closing that was started and advanced: it asks
    /// for nothing but a probe, or the removal of an entry of its own kind.
    pub open spec fn inv(self) -> bool {
        match self.pending {
            ActionView::Probe { path } => true,
            ActionView::Remove { kind, path } => kind == self.kind,
            _ => false,
        }
    }
}

impl Closing {
    #[verifier::type_invariant]
    spec fn sound(&self) -> bool {
        self@.inv()
    }

    /// The closing of a `kind` bound to `path`, with nothing done yet.
    pub(crate) fn start(kind: Kind, path: String) -> (closing: Closing)
        ensures
            closing@ == ClosingView::start(kind, path@),
    {
        Closing { kind, pending: Action::Probe { path } }
    }

    /// The action whose answer this closing awaits. It is always one that
    /// [`ClosingView::inv`] allows.
    pub fn pending(&self) -> (action: &Action)
        ensures
            action@ == self@.pending,
            self@.inv(),
    {
        proof {
            use_type_invariant(self);
        }
        &self.pending
    }

    /// Takes the answer to the pending action and says what is next.
    pub fn advance(self, event: Event) -> (step: CloseStep)
        ensures
            step@ == self@.step(event@),
    {
        proof {
            use_type_invariant(&self);
        }
        let Closing { kind, pending } = self;
        match (pending, event) {
            (Action::Probe { path }, Event::Probed { present }) => {
                if present {
                    CloseStep::Pending(Closing { kind, pending: Action::Remove { kind, path } })
                } else {
                    CloseStep::Clean
                }
            },
            (Action::Remove { kind: _, path: _ }, Event::Done) => CloseStep::Clean,
            (Action::Remove { kind: _, path: _ }, Event::Refused { message }) => CloseStep::Fatal(
                message,
            ),
            (pending, _) => CloseStep::Pending(Closing { kind, pending }),
        }
    }
}

/// A step leaves a closing as sound as it found it, and about the same
/// path and kind.
pub proof fn step_keeps_inv(closing: ClosingView, event: EventView)
    requires
        closing.inv(),
    ensures
        closing.step(event) matches CloseStepView::Pending(next) ==> {
            &&& next.inv()
            &&& next.kind == closing.kind
            &&& next.path() == closing.path()
        },
{
}

/// What is gone is left alone: where the probe finds nothing at the bound
/// path, the closing ends at once, with no removal asked for and no failure.
pub proof fn gone_is_left_alone(kind: Kind, path: Seq<char>)
    ensures
        ClosingView::start(kind, path).step(EventView::Probed { present: false })
            == CloseStepView::Clean,
{
}

/// What is there is removed: where the probe finds the bound path, its
/// removal is asked for, as the handle's kind, and the closing ends when the
/// system reports it done.
pub proof fn present_is_removed(kind: Kind, path: Seq<char>)
    ensures
        ({
            let removing = ClosingView { kind, pending: ActionView::Remove { kind, path } };
            &&& ClosingView::start(kind, path).step(EventView::Probed { present: true })
                == CloseStepView::Pending(removing)
            &&& removing.step(EventView::Done) == CloseStepView::Clean
        }),
{
}

/// A removal that the system refuses is fatal, and carries the system's
/// message.
pub proof fn refused_removal_is_fatal(kind: Kind, path: Seq<char>, message: Seq<char>)
    ensures
        (ClosingView { kind, pending: ActionView::Remove { kind, path } }).step(
            EventView::Refused { message },
        ) == CloseStepView::Fatal(message),
{
}

/// A removal becomes pending only on the news that the probed path exists,
/// and it is for that path.
pub proof fn removal_follows_presence(closing: ClosingView, event: EventView, next: ClosingView)
    requires
        closing.step(event) == CloseStepView::Pending(next),
        next.pending is Remove,
        !(closing.pending is Remove),
    ensures
        event == (EventView::Probed { present: true }),
        closing.pending matches ActionView::Probe { path } && next.pending == (ActionView::Remove {
            kind: closing.kind,
            path,
        }),
{
}

} // verus!
