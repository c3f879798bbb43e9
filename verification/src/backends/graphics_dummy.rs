//! A graphics backend that only announces its start.
use vstd::prelude::*;
use crate::api::graphics::GraphicsBackend;
use crate::report::print_line;

verus! {

/// The graphics backend that draws nothing.
pub struct DummyGraphicsBackend {}

/// A boxed dummy graphics backend.
pub fn boxed() -> Box<dyn GraphicsBackend> {
    let backend: Box<dyn GraphicsBackend> = Box::new(DummyGraphicsBackend::new());
    backend
}

impl DummyGraphicsBackend {
    pub fn new() -> (r: Self)
        ensures
            r == (DummyGraphicsBackend {}),
    {
        Self {  }
    }
}

impl GraphicsBackend for DummyGraphicsBackend {
    fn name(&self) -> (r: &str)
        ensures
            r@ == "dummy"@,
    {
        "dummy"
    }

    /// Announces that the backend is ready.
    fn init(&mut self)
        ensures
            *final(self) == *old(self),
    {
        print_line("initialized dummy graphics backend");
    }

    /// Does nothing.
    fn update(&mut self)
        ensures
            *final(self) == *old(self),
    {
    }
}

} // verus!
