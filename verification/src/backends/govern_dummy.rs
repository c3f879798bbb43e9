//! A governing backend that only announces its start.
use vstd::prelude::*;
use crate::api::govern::GoverningBackend;
use crate::report::print_line;

verus! {

/// The governing backend that paces nothing.
pub struct DummyGovernor {}

/// A boxed dummy governing backend.
pub fn boxed() -> Box<dyn GoverningBackend> {
    let backend: Box<dyn GoverningBackend> = Box::new(DummyGovernor::new());
    backend
}

impl DummyGovernor {
    pub fn new() -> (r: Self)
        ensures
            r == (DummyGovernor {}),
    {
        Self {  }
    }
}

impl GoverningBackend for DummyGovernor {
    fn name(&self) -> (r: &str)
        ensures
            r@ == "dummy"@,
    {
        "dummy"
    }

    /// Announces that the backend is ready.
    fn init(&mut self)
        ensures
            *final(self) == *old(self),
    {
        print_line("initialized dummy graphics backend");
    }

    /// Does nothing.
    fn submit(&mut self)
        ensures
            *final(self) == *old(self),
    {
    }
}

} // verus!
