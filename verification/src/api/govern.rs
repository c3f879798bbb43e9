//! The governing subsystem, which paces the engine.
use vstd::prelude::*;
use crate::api::BackendKind;
use crate::backends::govern_dummy::DummyGovernor;
use crate::backends::govern_winit::WinitGovernor;
use crate::text::same_text;

verus! {

/// A backend that paces the engine.
pub trait GoverningBackend {
    /// The name of the backend.
    fn name(&self) -> &str;

    /// Whether the backend counts the calls it takes. A backend that says nothing of it
    /// counts none.
    open spec fn counts_calls(&self) -> bool {
        false
    }

    /// The number of `init` calls the backend has taken, where it counts them.
    open spec fn init_calls(&self) -> nat {
        0
    }

    /// The number of `submit` calls the backend has taken, where it counts them.
    open spec fn submit_calls(&self) -> nat {
        0
    }

    /// The backend is in a state that `init` leaves it in. A
    /// backend that says nothing of that state may be in any.
    open spec fn after_init(&self) -> bool {
        true
    }

    /// Prepares the backend.
    fn init(&mut self)
        ensures
            final(self).after_init(),
            old(self).counts_calls() ==> final(self).counts_calls() && final(self).init_calls() == old(self).init_calls() + 1 && final(self).submit_calls() == old(self).submit_calls();

    /// The backend is in a state that `submit` leaves it in. A
    /// backend that says nothing of that state may be in any.
    open spec fn after_submit(&self) -> bool {
        true
    }

    /// Hands the work of the current step over.
    fn submit(&mut self)
        ensures
            final(self).after_submit(),
            old(self).counts_calls() ==> final(self).counts_calls() && final(self).submit_calls() == old(self).submit_calls() + 1 && final(self).init_calls() == old(self).init_calls();
}

/// The names of the governing backends that the library holds.
pub open spec fn governing_backend_known(name: Seq<char>) -> bool {
    name == "dummy"@ || name == "winit"@
}

/// The backend that a known name selects.
pub open spec fn governing_backend_kind(name: Seq<char>) -> BackendKind {
    if name == "winit"@ {
        BackendKind::Winit
    } else {
        BackendKind::Dummy
    }
}

enum GoverningSlot {
    Dummy(DummyGovernor),
    Winit(WinitGovernor),
    Plugged(Box<dyn GoverningBackend>),
}

spec fn slot_kind(slot: GoverningSlot) -> BackendKind {
    match slot {
        GoverningSlot::Dummy(_) => BackendKind::Dummy,
        GoverningSlot::Winit(_) => BackendKind::Winit,
        GoverningSlot::Plugged(_) => BackendKind::Plugged,
    }
}

fn load_backend(name: &str) -> (r: GoverningSlot)
    requires
        governing_backend_known(name@),
    ensures
        slot_kind(r) == governing_backend_kind(name@),
{
    proof {
        reveal_strlit("dummy");
        reveal_strlit("winit");
        assert("dummy"@[0] != "winit"@[0]);
    }
    if same_text(name, "dummy") {
        GoverningSlot::Dummy(DummyGovernor::new())
    } else if same_text(name, "winit") {
        GoverningSlot::Winit(WinitGovernor::new())
    } else {
        vstd::pervasive::unreached()
    }
}

/// The governing facade: forwards to the backend it holds.
pub struct Governor {
    backend: GoverningSlot,
}

impl Governor {
    /// Which backend the facade forwards to.
    pub closed spec fn backend_kind(&self) -> BackendKind {
        slot_kind(self.backend)
    }

    /// A governing facade over the backend of the given name.
    pub fn new(name: &str) -> (r: Self)
        requires
            governing_backend_known(name@),
        ensures
            r.backend_kind() == governing_backend_kind(name@),
    {
        Self { backend: load_backend(name) }
    }

    /// A governing facade over a backend made elsewhere.
    pub fn with_backend(backend: Box<dyn GoverningBackend>) -> (r: Self)
        ensures
            r.backend_kind() == BackendKind::Plugged,
    {
        Self { backend: GoverningSlot::Plugged(backend) }
    }

    /// Replaces the backend by the one of the given name.
    pub fn swap_backend(&mut self, name: &str)
        requires
            governing_backend_known(name@),
        ensures
            final(self).backend_kind() == governing_backend_kind(name@),
    {
        self.backend = load_backend(name);
    }

    /// Whether the installed backend counts the calls it takes.
    pub closed spec fn backend_counts_calls(&self) -> bool {
        match self.backend {
            GoverningSlot::Dummy(b) => b.counts_calls(),
            GoverningSlot::Winit(b) => b.counts_calls(),
            GoverningSlot::Plugged(b) => b.counts_calls(),
        }
    }

    /// The number of `init` calls the installed backend has taken, where it counts them.
    pub closed spec fn backend_init_calls(&self) -> nat {
        match self.backend {
            GoverningSlot::Dummy(b) => b.init_calls(),
            GoverningSlot::Winit(b) => b.init_calls(),
            GoverningSlot::Plugged(b) => b.init_calls(),
        }
    }

    /// The number of `submit` calls the installed backend has taken, where it counts them.
    pub closed spec fn backend_submit_calls(&self) -> nat {
        match self.backend {
            GoverningSlot::Dummy(b) => b.submit_calls(),
            GoverningSlot::Winit(b) => b.submit_calls(),
            GoverningSlot::Plugged(b) => b.submit_calls(),
        }
    }

    /// The installed backend is in a state that its own `init` leaves it in.
    pub closed spec fn backend_after_init(&self) -> bool {
        match self.backend {
            GoverningSlot::Dummy(b) => b.after_init(),
            GoverningSlot::Winit(b) => b.after_init(),
            GoverningSlot::Plugged(b) => b.after_init(),
        }
    }

    /// Prepares the backend.
    pub fn init(&mut self)
        ensures
            final(self).backend_kind() == old(self).backend_kind(),
            final(self).backend_after_init(),
            old(self).backend_counts_calls() ==> final(self).backend_counts_calls() && final(self).backend_init_calls() == old(self).backend_init_calls() + 1 && final(self).backend_submit_calls() == old(self).backend_submit_calls(),
    {
        match &mut self.backend {
            GoverningSlot::Dummy(b) => b.init(),
            GoverningSlot::Winit(b) => b.init(),
            GoverningSlot::Plugged(b) => b.init(),
        }
    }

    /// The installed backend is in a state that its own `submit` leaves it in.
    pub closed spec fn backend_after_submit(&self) -> bool {
        match self.backend {
            GoverningSlot::Dummy(b) => b.after_submit(),
            GoverningSlot::Winit(b) => b.after_submit(),
            GoverningSlot::Plugged(b) => b.after_submit(),
        }
    }

    /// Hands the work of the current step to the backend.
    pub fn submit(&mut self)
        ensures
            final(self).backend_kind() == old(self).backend_kind(),
            final(self).backend_after_submit(),
            old(self).backend_counts_calls() ==> final(self).backend_counts_calls() && final(self).backend_submit_calls() == old(self).backend_submit_calls() + 1 && final(self).backend_init_calls() == old(self).backend_init_calls(),
    {
        match &mut self.backend {
            GoverningSlot::Dummy(b) => b.submit(),
            GoverningSlot::Winit(b) => b.submit(),
            GoverningSlot::Plugged(b) => b.submit(),
        }
    }
}

} // verus!
