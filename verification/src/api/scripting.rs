//! The scripting API: a backend-agnostic scripting engine (Lua, Python, ...).
use vstd::prelude::*;

verus! {

/// A scripting engine that runs code and takes global variables from the host.
pub trait ScriptingEngine {
    /// Starts the engine.
    fn new() -> Self where Self: Sized;

    /// `r` is an answer that the engine, in its present state, may give to a request to
    /// run `code`. An engine that says nothing of its answers may give any.
    open spec fn exec_answer(&self, code: Seq<char>, r: Result<(), String>) -> bool {
        true
    }

    /// Runs arbitrary code; no value is handed back.
    fn exec(&self, code: &str) -> (r: Result<(), String>)
        ensures
            self.exec_answer(code@, r);

    /// Sets a global variable of the scripts to a string.
    fn set_global(&self, name: &str, val: &str) -> Result<(), String>;
}

} // verus!
