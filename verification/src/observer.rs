//! The observer bridge: a process-wide registry of diagnostic-event
//! listeners and the dispatch of host-originated events to them.
//!
//! The registry starts empty, listeners accumulate for the life of the
//! process and are never removed, and the host's dispatcher hook is
//! installed at most once, on the first registration.  Dispatch is a pure
//! plan: given an event, the registry says which listeners to invoke and
//! in what order, all with the same event values; the embedder runs the
//! plan, shielding the host's error path from listener failures.

use vstd::prelude::*;

verus! {

/// One host-originated diagnostic event: kind, file identifier, line
/// number and message, as the host hands them to the dispatcher hook.
#[derive(Debug, PartialEq, Eq)]
pub struct DiagnosticEvent {
    /// The host's error kind for the event.
    pub error_type: i32,
    /// The file the host attributes the event to.
    pub file: Vec<u8>,
    /// The line the host attributes the event to.
    pub line: u32,
    /// The event message.
    pub message: Vec<u8>,
}

/// The dispatch a triggered event asks for: every listed listener is to
/// be invoked once, in order, each with the same event values.
#[derive(Debug, PartialEq, Eq)]
pub struct DispatchPlan {
    /// Listener tokens, in the order they are to be invoked: registration
    /// order, each exactly once.
    pub order: Vec<u64>,
    /// The event every listed listener receives.
    pub event: DiagnosticEvent,
}

/// The process-wide registry of diagnostic-event listeners.
///
/// Registration is the only mutator; the one-time installation of the
/// host's dispatcher hook is reported to the caller exactly once.
pub struct ObserverRegistry {
    entries: Vec<u64>,
    installed: bool,
}

/// What one registration does: the listener is appended to the ones
/// already held, the hook ends up installed, and installation is asked
/// for exactly when the hook was not installed before.
pub open spec fn registered(
    pre: ObserverRegistry,
    listener: u64,
    post: ObserverRegistry,
    install: bool,
) -> bool {
    &&& post.listeners() == pre.listeners().push(listener)
    &&& post.hook_installed()
    &&& install == !pre.hook_installed()
}

impl ObserverRegistry {
    /// The registered listener tokens, in registration order.
    pub closed spec fn listeners(self) -> Seq<u64> {
        self.entries@
    }

    /// Whether the host's dispatcher hook has been installed.
    pub closed spec fn hook_installed(self) -> bool {
        self.installed
    }

    /// The empty registry, as at process start: no listeners, no hook.
    pub fn new() -> (r: ObserverRegistry)
        ensures
            r.listeners() == Seq::<u64>::empty(),
            !r.hook_installed(),
    {
        ObserverRegistry { entries: Vec::new(), installed: false }
    }

    /// Number of registered listeners.
    pub fn listener_count(&self) -> (n: usize)
        ensures
            n == self.listeners().len(),
    {
        self.entries.len()
    }

    /// Registers an error observer, appending it to the registry.
    ///
    /// Returns whether the caller must now install the host's dispatcher
    /// hook: true on the very first registration and never again, no
    /// matter how many listeners register afterwards.
    pub fn register_error_observer(&mut self, listener: u64) -> (install: bool)
        ensures
            registered(*old(self), listener, *final(self), install),
    {
        let install = !self.installed;
        self.installed = true;
        self.entries.push(listener);
        install
    }

    /// Plans the dispatch of one host-originated diagnostic event: every
    /// currently registered listener, in registration order, each with
    /// the same four event values.  An empty registry yields an empty
    /// plan, a no-op.
    pub fn error_observer_dispatcher(&self, event: DiagnosticEvent) -> (p: DispatchPlan)
        ensures
            p.order@ == self.listeners(),
            p.event == event,
    {
        let mut order: Vec<u64> = Vec::new();
        let mut i: usize = 0;
        let n = self.entries.len();
        while i < n
            invariant
                0 <= i <= n,
                n == self.entries@.len(),
                order@ == self.entries@.take(i as int),
            decreases n - i,
        {
            order.push(self.entries[i]);
            i += 1;
        }
        proof {
            assert(order@ == self.entries@);
        }
        DispatchPlan { order, event }
    }
}

/// The dispatcher hook is installed at most once: the registration that
/// finds the hook already installed never asks for another installation,
/// so across any chain of registrations only the first can install.
pub proof fn lemma_hook_installed_at_most_once(
    r1: ObserverRegistry,
    r2: ObserverRegistry,
    r3: ObserverRegistry,
    l1: u64,
    l2: u64,
    i1: bool,
    i2: bool,
)
    requires
        registered(r1, l1, r2, i1),
        registered(r2, l2, r3, i2),
    ensures
        !i2,
        r3.listeners() == r1.listeners().push(l1).push(l2),
{
}

/// A triggered event reaches all listeners exactly once, in registration
/// order: after any sequence of registrations, the dispatch plan lists
/// precisely the registered tokens, in the order they registered.
pub proof fn lemma_dispatch_reaches_all(
    pre: ObserverRegistry,
    listener: u64,
    post: ObserverRegistry,
    install: bool,
    p: DispatchPlan,
)
    requires
        registered(pre, listener, post, install),
        p.order@ == post.listeners(),
    ensures
        p.order@.len() == pre.listeners().len() + 1,
        p.order@.last() == listener,
        forall|i: int| 0 <= i < pre.listeners().len() ==> p.order@[i] == pre.listeners()[i],
{
}

} // verus!
