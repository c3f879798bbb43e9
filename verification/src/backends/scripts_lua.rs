//! A script backend running Lua code, through `mlua`.
use vstd::prelude::*;
use mlua::Lua;
use crate::api::scripts::ScriptBackend;
use crate::backends::scripting::lua::{new_lua, run_chunk};

verus! {

/// The script backend with a Lua interpreter.
pub struct LuaBackend {
    lua: Lua,
    log: Ghost<Seq<Seq<char>>>,
}

/// A boxed Lua script backend.
pub fn boxed() -> Box<dyn ScriptBackend> {
    let backend: Box<dyn ScriptBackend> = Box::new(LuaBackend::new());
    backend
}

impl LuaBackend {
    pub fn new() -> (r: Self)
        ensures
            r.exec_log() == Seq::<Seq<char>>::empty(),
    {
        Self { lua: new_lua(), log: Ghost(Seq::empty()) }
    }
}

impl ScriptBackend for LuaBackend {

    fn name(&self) -> (r: &str)
        ensures
            r@ == "lua"@,
    {
        "lua"
    }

    open spec fn keeps_exec_log(&self) -> bool {
        true
    }

    closed spec fn exec_log(&self) -> Seq<Seq<char>> {
        self.log@
    }

    /// Runs the code in the backend's interpreter.
    fn exec(&mut self, code: &str) -> Result<(), String> {
        let r = run_chunk(&self.lua, code);
        proof {
            self.log@ = self.log@.push(code@);
        }
        r
    }
}

} // verus!
