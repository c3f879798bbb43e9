//! The I/O subsystem: windows, input and the devices behind them.
use vstd::prelude::*;
use crate::api::BackendKind;
use crate::backends::io_dummy::DummyGraphicsBackend;
use crate::text::same_text;

verus! {

/// A backend that runs the windowing and device side of the engine.
pub trait IOBackend {
    /// The name of the backend.
    fn name(&self) -> &str;

    /// Whether the backend counts the calls it takes. A backend that says nothing of it
    /// counts none.
    open spec fn counts_calls(&self) -> bool {
        false
    }

    /// The number of `init` calls the backend has taken, where it counts them.
    open spec fn init_calls(&self) -> nat {
        0
    }

    /// The backend is in a state that `init` leaves it in. A
    /// backend that says nothing of that state may be in any.
    open spec fn after_init(&self) -> bool {
        true
    }

    /// Starts the backend.
    fn init(&mut self)
        ensures
            final(self).after_init(),
            old(self).counts_calls() ==> final(self).counts_calls() && final(self).init_calls() == old(self).init_calls() + 1;
}

/// The names of the I/O backends that the library holds.
pub open spec fn io_backend_known(name: Seq<char>) -> bool {
    name == "dummy"@
}

enum IOSlot {
    Dummy(DummyGraphicsBackend),
    Plugged(Box<dyn IOBackend>),
}

fn load_backend(name: &str) -> (r: IOSlot)
    requires
        io_backend_known(name@),
    ensures
        r is Dummy,
{
    if same_text(name, "dummy") {
        IOSlot::Dummy(DummyGraphicsBackend::new())
    } else {
        proof {
            reveal_strlit("dummy");
        }
        vstd::pervasive::unreached()
    }
}

/// The I/O facade: forwards to the backend it holds.
pub struct IO {
    backend: IOSlot,
}

impl IO {
    /// Which backend the facade forwards to.
    pub closed spec fn backend_kind(&self) -> BackendKind {
        match self.backend {
            IOSlot::Dummy(_) => BackendKind::Dummy,
            IOSlot::Plugged(_) => BackendKind::Plugged,
        }
    }

    /// An I/O facade over the backend of the given name.
    pub fn new(name: &str) -> (r: Self)
        requires
            io_backend_known(name@),
        ensures
            r.backend_kind() == BackendKind::Dummy,
    {
        Self { backend: load_backend(name) }
    }

    /// An I/O facade over a backend made elsewhere.
    pub fn with_backend(backend: Box<dyn IOBackend>) -> (r: Self)
        ensures
            r.backend_kind() == BackendKind::Plugged,
    {
        Self { backend: IOSlot::Plugged(backend) }
    }

    /// Replaces the backend by the one of the given name.
    pub fn swap_backend(&mut self, name: &str)
        requires
            io_backend_known(name@),
        ensures
            final(self).backend_kind() == BackendKind::Dummy,
    {
        self.backend = load_backend(name);
    }

    /// Whether the installed backend counts the calls it takes.
    pub closed spec fn backend_counts_calls(&self) -> bool {
        match self.backend {
            IOSlot::Dummy(b) => b.counts_calls(),
            IOSlot::Plugged(b) => b.counts_calls(),
        }
    }

    /// The number of `init` calls the installed backend has taken, where it counts them.
    pub closed spec fn backend_init_calls(&self) -> nat {
        match self.backend {
            IOSlot::Dummy(b) => b.init_calls(),
            IOSlot::Plugged(b) => b.init_calls(),
        }
    }

    /// The installed backend is in a state that its own `init` leaves it in.
    pub closed spec fn backend_after_init(&self) -> bool {
        match self.backend {
            IOSlot::Dummy(b) => b.after_init(),
            IOSlot::Plugged(b) => b.after_init(),
        }
    }

    /// Starts the backend.
    pub fn init(&mut self)
        ensures
            final(self).backend_kind() == old(self).backend_kind(),
            final(self).backend_after_init(),
            old(self).backend_counts_calls() ==> final(self).backend_counts_calls() && final(self).backend_init_calls() == old(self).backend_init_calls() + 1,
    {
        match &mut self.backend {
            IOSlot::Dummy(b) => b.init(),
            IOSlot::Plugged(b) => b.init(),
        }
    }
}

} // verus!
