//! The graphics subsystem.
use vstd::prelude::*;
use crate::api::BackendKind;
use crate::backends::graphics_dummy::DummyGraphicsBackend;
use crate::text::same_text;

verus! {

/// A backend that draws.
pub trait GraphicsBackend {
    /// The name of the backend.
    fn name(&self) -> &str;

    /// Whether the backend counts the calls it takes. A backend that says nothing of it
    /// counts none.
    open spec fn counts_calls(&self) -> bool {
        false
    }

    /// The number of `init` calls the backend has taken, where it counts them.
    open spec fn init_calls(&self) -> nat {
        0
    }

    /// The number of `update` calls the backend has taken, where it counts them.
    open spec fn update_calls(&self) -> nat {
        0
    }

    /// The backend is in a state that `init` leaves it in. A
    /// backend that says nothing of that state may be in any.
    open spec fn after_init(&self) -> bool {
        true
    }

    /// Prepares the backend.
    fn init(&mut self)
        ensures
            final(self).after_init(),
            old(self).counts_calls() ==> final(self).counts_calls() && final(self).init_calls() == old(self).init_calls() + 1 && final(self).update_calls() == old(self).update_calls();

    /// The backend is in a state that `update` leaves it in. A
    /// backend that says nothing of that state may be in any.
    open spec fn after_update(&self) -> bool {
        true
    }

    /// Draws the next frame.
    fn update(&mut self)
        ensures
            final(self).after_update(),
            old(self).counts_calls() ==> final(self).counts_calls() && final(self).update_calls() == old(self).update_calls() + 1 && final(self).init_calls() == old(self).init_calls();
}

/// The names of the graphics backends that the library holds.
pub open spec fn graphics_backend_known(name: Seq<char>) -> bool {
    name == "dummy"@
}

enum GraphicsSlot {
    Dummy(DummyGraphicsBackend),
    Plugged(Box<dyn GraphicsBackend>),
}

fn load_backend(name: &str) -> (r: GraphicsSlot)
    requires
        graphics_backend_known(name@),
    ensures
        r is Dummy,
{
    if same_text(name, "dummy") {
        GraphicsSlot::Dummy(DummyGraphicsBackend::new())
    } else {
        proof {
            reveal_strlit("dummy");
        }
        vstd::pervasive::unreached()
    }
}

/// The graphics facade: forwards to the backend it holds.
pub struct Graphics {
    backend: GraphicsSlot,
}

impl Graphics {
    /// Which backend the facade forwards to.
    pub closed spec fn backend_kind(&self) -> BackendKind {
        match self.backend {
            GraphicsSlot::Dummy(_) => BackendKind::Dummy,
            GraphicsSlot::Plugged(_) => BackendKind::Plugged,
        }
    }

    /// A graphics facade over the backend of the given name.
    pub fn new(name: &str) -> (r: Self)
        requires
            graphics_backend_known(name@),
        ensures
            r.backend_kind() == BackendKind::Dummy,
    {
        Self { backend: load_backend(name) }
    }

    /// A graphics facade over a backend made elsewhere.
    pub fn with_backend(backend: Box<dyn GraphicsBackend>) -> (r: Self)
        ensures
            r.backend_kind() == BackendKind::Plugged,
    {
        Self { backend: GraphicsSlot::Plugged(backend) }
    }

    /// Replaces the backend by the one of the given name.
    pub fn swap_backend(&mut self, name: &str)
        requires
            graphics_backend_known(name@),
        ensures
            final(self).backend_kind() == BackendKind::Dummy,
    {
        self.backend = load_backend(name);
    }

    /// Whether the installed backend counts the calls it takes.
    pub closed spec fn backend_counts_calls(&self) -> bool {
        match self.backend {
            GraphicsSlot::Dummy(b) => b.counts_calls(),
            GraphicsSlot::Plugged(b) => b.counts_calls(),
        }
    }

    /// The number of `init` calls the installed backend has taken, where it counts them.
    pub closed spec fn backend_init_calls(&self) -> nat {
        match self.backend {
            GraphicsSlot::Dummy(b) => b.init_calls(),
            GraphicsSlot::Plugged(b) => b.init_calls(),
        }
    }

    /// The number of `update` calls the installed backend has taken, where it counts them.
    pub closed spec fn backend_update_calls(&self) -> nat {
        match self.backend {
            GraphicsSlot::Dummy(b) => b.update_calls(),
            GraphicsSlot::Plugged(b) => b.update_calls(),
        }
    }

    /// The installed backend is in a state that its own `init` leaves it in.
    pub closed spec fn backend_after_init(&self) -> bool {
        match self.backend {
            GraphicsSlot::Dummy(b) => b.after_init(),
            GraphicsSlot::Plugged(b) => b.after_init(),
        }
    }

    /// Prepares the backend.
    pub fn init(&mut self)
        ensures
            final(self).backend_kind() == old(self).backend_kind(),
            final(self).backend_after_init(),
            old(self).backend_counts_calls() ==> final(self).backend_counts_calls() && final(self).backend_init_calls() == old(self).backend_init_calls() + 1 && final(self).backend_update_calls() == old(self).backend_update_calls(),
    {
        match &mut self.backend {
            GraphicsSlot::Dummy(b) => b.init(),
            GraphicsSlot::Plugged(b) => b.init(),
        }
    }

    /// The installed backend is in a state that its own `update` leaves it in.
    pub closed spec fn backend_after_update(&self) -> bool {
        match self.backend {
            GraphicsSlot::Dummy(b) => b.after_update(),
            GraphicsSlot::Plugged(b) => b.after_update(),
        }
    }

    /// Draws the next frame through the backend.
    pub fn update(&mut self)
        ensures
            final(self).backend_kind() == old(self).backend_kind(),
            final(self).backend_after_update(),
            old(self).backend_counts_calls() ==> final(self).backend_counts_calls() && final(self).backend_update_calls() == old(self).backend_update_calls() + 1 && final(self).backend_init_calls() == old(self).backend_init_calls(),
    {
        match &mut self.backend {
            GraphicsSlot::Dummy(b) => b.update(),
            GraphicsSlot::Plugged(b) => b.update(),
        }
    }
}

} // verus!
