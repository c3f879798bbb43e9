//! A scripting engine running Lua code on LuaJIT, through `mlua`.
use vstd::prelude::*;
use mlua::Lua;
use crate::api::scripting::ScriptingEngine;

verus! {

/// The Lua state of `mlua`, held as it is.
#[verifier::external_type_specification]
#[verifier::external_body]
pub struct ExLua(mlua::Lua);

/// Calls `mlua::Lua::new`, which creates a Lua state with the safe part of the standard
/// library loaded. Its source panics only where the state cannot be created at all.
#[verifier::external_body]
pub(crate) fn new_lua() -> Lua {
    Lua::new()
}

/// Calls `Lua::load` on the code and runs the chunk with `Chunk::exec`; an error comes
/// back as its display text. What the code does depends on the state of the Lua
/// interpreter, so nothing is promised of the outcome.
#[verifier::external_body]
pub(crate) fn run_chunk(lua: &Lua, code: &str) -> Result<(), String> {
    match lua.load(code).exec() {
        Ok(()) => Ok(()),
        Err(e) => Err(e.to_string()),
    }
}

/// Calls `Table::set` on the table of globals that `Lua::globals` returns, setting the
/// global `name` to the string `val`; an error comes back as its display text. Whether
/// it succeeds depends on the state of the interpreter (a metatable on the globals may
/// refuse), so nothing is promised of the outcome.
#[verifier::external_body]
pub(crate) fn set_global_string(lua: &Lua, name: &str, val: &str) -> Result<(), String> {
    match lua.globals().set(name, val) {
        Ok(()) => Ok(()),
        Err(e) => Err(e.to_string()),
    }
}

/// A Lua scripting engine.
pub struct LuaJitEngine {
    lua: Lua,
}

impl ScriptingEngine for LuaJitEngine {
    fn new() -> Self {
        Self { lua: new_lua() }
    }

    fn exec(&self, code: &str) -> Result<(), String> {
        run_chunk(&self.lua, code)
    }

    fn set_global(&self, name: &str, val: &str) -> Result<(), String> {
        set_global_string(&self.lua, name, val)
    }
}

} // verus!
