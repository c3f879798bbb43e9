//! The governing backend meant for winit; it does not use winit yet and behaves as the dummy one, name included.
use vstd::prelude::*;
use crate::api::govern::GoverningBackend;
use crate::report::print_line;

verus! {

/// The governing backend meant for winit.
pub struct WinitGovernor {}

/// A boxed winit governing backend.
pub fn boxed() -> Box<dyn GoverningBackend> {
    let backend: Box<dyn GoverningBackend> = Box::new(WinitGovernor::new());
    backend
}

impl WinitGovernor {
    pub fn new() -> (r: Self)
        ensures
            r == (WinitGovernor {}),
    {
        Self {  }
    }
}

impl GoverningBackend for WinitGovernor {
    fn name(&self) -> (r: &str)
        ensures
            r@ == "dummy"@,
    {
        "dummy"
    }

    /// Announces that the backend is ready.
    fn init(&mut self)
        ensures
            *final(self) == *old(self),
    {
        print_line("initialized dummy graphics backend");
    }

    /// Does nothing.
    fn submit(&mut self)
        ensures
            *final(self) == *old(self),
    {
    }
}

} // verus!
