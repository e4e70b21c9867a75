//! The toolkit's one-shot lifecycle and the state that lives inside it.
//!
//! The host performs the native work; this module decides what that work is
//! and in which order it happens. A [`Toolkit`] starts closed. Each call of
//! [`Toolkit::advance`] reports that the work of the current phase is done,
//! moves to the next phase and returns it, which tells the host what to do
//! now:
//!
//! | phase         | native work of the host                          |
//! |---------------|--------------------------------------------------|
//! | `Opening`     | initialise the toolkit and report its status     |
//! | `Configuring` | switch the toolkit to UTF-8 text                 |
//! | `Showing`     | build the main dialog and show it                |
//! | `Looping`     | run the native event loop until it returns       |
//! | `Closing`     | shut the toolkit down                            |
//! | `Closed`      | nothing is left to do                            |
//!
//! Widget operations are defined only while the toolkit is running, that is
//! from the moment the main dialog is being built until the shutdown has
//! returned.

use crate::handle::Handle;
use crate::store::lookup;
use crate::store::WidgetStore;
use vstd::prelude::*;

verus! {

/// Where the toolkit is in its lifecycle.
#[derive(Clone, Copy, Debug, PartialEq, Eq, Structural)]
pub enum Phase {
    /// The toolkit is not initialised: before the first start, and again after
    /// each shutdown.
    Closed,
    /// The toolkit is being initialised.
    Opening,
    /// The toolkit is initialised and is being switched to UTF-8 text.
    Configuring,
    /// The main dialog is being built and shown.
    Showing,
    /// The native event loop is running.
    Looping,
    /// The event loop has returned and the toolkit is being shut down.
    Closing,
}

/// The phase that follows `phase`.
pub open spec fn next_phase(phase: Phase) -> Phase {
    match phase {
        Phase::Closed => Phase::Opening,
        Phase::Opening => Phase::Configuring,
        Phase::Configuring => Phase::Showing,
        Phase::Showing => Phase::Looping,
        Phase::Looping => Phase::Closing,
        Phase::Closing => Phase::Closed,
    }
}

/// Whether widget operations are defined in `phase`.
pub open spec fn is_running(phase: Phase) -> bool {
    phase == Phase::Showing || phase == Phase::Looping || phase == Phase::Closing
}

/// The state of the binding: the lifecycle phase and the named widget store.
///
/// Outside the running phases the store is empty.
pub struct Toolkit {
    phase: Phase,
    widgets: WidgetStore,
}

impl Toolkit {
    #[verifier::type_invariant]
    spec fn idle_holds_nothing(self) -> bool {
        !is_running(self.phase) ==> self.widgets@ == Map::<Seq<char>, Handle>::empty()
    }

    /// The current phase.
    pub closed spec fn current(&self) -> Phase {
        self.phase
    }

    /// The named widget store as a mapping.
    pub closed spec fn entries(&self) -> Map<Seq<char>, Handle> {
        self.widgets@
    }

    /// Whether widget operations are currently defined.
    pub open spec fn running(&self) -> bool {
        is_running(self.current())
    }

    /// A closed toolkit with an empty store.
    pub fn new() -> (toolkit: Toolkit)
        ensures
            toolkit.current() == Phase::Closed,
            !toolkit.running(),
            toolkit.entries() == Map::<Seq<char>, Handle>::empty(),
    {
        Toolkit { phase: Phase::Closed, widgets: WidgetStore::new() }
    }

    /// The current phase.
    pub fn phase(&self) -> (phase: Phase)
        ensures
            phase == self.current(),
    {
        self.phase
    }

    /// Reports that the native work of the current phase is done and moves on.
    /// The phase returned is the new current phase.
    ///
    /// `status` is the integer the native work returned, zero where it returns
    /// nothing. A toolkit that failed to initialise (a status other than zero
    /// while opening) cannot be advanced.
    ///
    /// The store is kept as it is, except that the step that completes the
    /// shutdown empties it.
    pub fn advance(&mut self, status: i32) -> (phase: Phase)
        requires
            old(self).current() == Phase::Opening ==> status == 0,
        ensures
            final(self).current() == next_phase(old(self).current()),
            phase == final(self).current(),
            final(self).entries() == if old(self).current() == Phase::Closing {
                Map::<Seq<char>, Handle>::empty()
            } else {
                old(self).entries()
            },
    {
        proof {
            use_type_invariant(&*self);
        }
        let next = match self.phase {
            Phase::Closed => Phase::Opening,
            Phase::Opening => Phase::Configuring,
            Phase::Configuring => Phase::Showing,
            Phase::Showing => Phase::Looping,
            Phase::Looping => Phase::Closing,
            Phase::Closing => {
                self.widgets = WidgetStore::new();
                Phase::Closed
            },
        };
        self.phase = next;
        next
    }

    /// Stores `widget` under `name` and returns what was stored there before,
    /// if anything. Only a running toolkit stores widgets.
    pub fn store(&mut self, name: String, widget: Handle) -> (previous: Option<Handle>)
        requires
            old(self).running(),
        ensures
            final(self).current() == old(self).current(),
            final(self).entries() == old(self).entries().insert(name@, widget),
            previous == lookup(old(self).entries(), name@),
    {
        proof {
            use_type_invariant(&*self);
        }
        // The store is worked on outside `self`, which therefore is whole at
        // every point at which a call below could unwind.
        let mut widgets = WidgetStore::new();
        core::mem::swap(&mut self.widgets, &mut widgets);
        let previous = widgets.store(name, widget);
        core::mem::swap(&mut self.widgets, &mut widgets);
        previous
    }

    /// The widget stored under `name`, if there is one. Only a running toolkit
    /// is asked.
    pub fn load(&self, name: &str) -> (found: Option<Handle>)
        requires
            self.running(),
        ensures
            found == lookup(self.entries(), name@),
    {
        self.widgets.load(name)
    }
}

/// Whether widget operations are currently defined. Where they are not, the
/// named widget store is empty.
pub fn kiss_running(toolkit: &Toolkit) -> (running: bool)
    ensures
        running == toolkit.running(),
        !running ==> toolkit.entries() == Map::<Seq<char>, Handle>::empty(),
{
    proof {
        use_type_invariant(toolkit);
    }
    match toolkit.phase {
        Phase::Showing | Phase::Looping | Phase::Closing => true,
        Phase::Closed | Phase::Opening | Phase::Configuring => false,
    }
}

/// Six steps lead from a closed toolkit back to a closed toolkit, and the
/// toolkit runs exactly in the three phases before the last step.
pub proof fn lemma_lifecycle_is_a_cycle()
    ensures
        next_phase(next_phase(next_phase(next_phase(next_phase(next_phase(Phase::Closed))))))
            == Phase::Closed,
        !is_running(Phase::Closed),
        !is_running(next_phase(Phase::Closed)),
        !is_running(next_phase(next_phase(Phase::Closed))),
        forall|phase: Phase| is_running(phase) && !is_running(next_phase(phase)) ==> phase == Phase::Closing,
        forall|phase: Phase| !is_running(phase) && is_running(next_phase(phase)) ==> phase == Phase::Configuring,
{
}

} // verus!
