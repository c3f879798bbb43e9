//! A script backend that only announces the code it is given.
use vstd::prelude::*;
use crate::api::scripts::ScriptBackend;
use crate::report::{joined, print_line};

verus! {

/// The script backend that runs nothing.
pub struct DummyScriptsBackend {}

/// A boxed dummy script backend.
pub fn boxed() -> Box<dyn ScriptBackend> {
    let backend: Box<dyn ScriptBackend> = Box::new(DummyScriptsBackend::new());
    backend
}

impl DummyScriptsBackend {
    pub fn new() -> (r: Self)
        ensures
            r == (DummyScriptsBackend {}),
    {
        Self {  }
    }
}

impl ScriptBackend for DummyScriptsBackend {
    /// Every piece of code is answered with success.
    open spec fn exec_answer(&self, code: Seq<char>, r: Result<(), String>) -> bool {
        r == Ok::<(), String>(())
    }

    fn name(&self) -> (r: &str)
        ensures
            r@ == "dummy"@,
    {
        "dummy"
    }

    /// Announces the code and succeeds.
    fn exec(&mut self, code: &str) -> (r: Result<(), String>)
        ensures
            r == Ok::<(), String>(()),
            *final(self) == *old(self),
    {
        print_line(joined("dummy executing code: ", code).as_str());
        Ok(())
    }
}

} // verus!
