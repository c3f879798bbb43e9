//! An I/O backend that only announces its start.
use vstd::prelude::*;
use crate::api::io::IOBackend;
use crate::report::print_line;

verus! {

/// The I/O backend that opens nothing.
pub struct DummyGraphicsBackend {}

/// A boxed dummy I/O backend.
pub fn boxed() -> Box<dyn IOBackend> {
    let backend: Box<dyn IOBackend> = Box::new(DummyGraphicsBackend::new());
    backend
}

impl DummyGraphicsBackend {
    pub fn new() -> (r: Self)
        ensures
            r == (DummyGraphicsBackend {}),
    {
        Self {  }
    }
}

impl IOBackend for DummyGraphicsBackend {
    fn name(&self) -> (r: &str)
        ensures
            r@ == "dummy"@,
    {
        "dummy"
    }

    /// Announces that the backend is ready.
    fn init(&mut self)
        ensures
            *final(self) == *old(self),
    {
        print_line("initialized dummy graphics backend");
    }
}

} // verus!
