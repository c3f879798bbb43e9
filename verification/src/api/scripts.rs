//! The scripts subsystem.
use vstd::prelude::*;
use crate::api::BackendKind;
use crate::backends::scripts_dummy::DummyScriptsBackend;
use crate::text::same_text;

verus! {

/// A backend that runs script code.
pub trait ScriptBackend: Send {
    /// The name of the backend.
    fn name(&self) -> &str;

    /// `r` is an answer that the backend, in its present state, may give to a request
    /// to run `code`. A backend that says nothing of its answers may give any.
    open spec fn exec_answer(&self, code: Seq<char>, r: Result<(), String>) -> bool {
        true
    }

    /// Whether the backend keeps a record of the code it has been asked to run. A
    /// backend that says nothing of it keeps none.
    open spec fn keeps_exec_log(&self) -> bool {
        false
    }

    /// The code the backend has been asked to run, in order, where it keeps a record.
    open spec fn exec_log(&self) -> Seq<Seq<char>> {
        Seq::empty()
    }

    /// Runs the code once: a backend that keeps a record adds the code to it once, and
    /// the answer is one the backend may give.
    fn exec(&mut self, code: &str) -> (r: Result<(), String>)
        ensures
            old(self).exec_answer(code@, r),
            old(self).keeps_exec_log() ==> final(self).keeps_exec_log() && final(self).exec_log()
                == old(self).exec_log().push(code@);
}

/// The names of the script backends that the library holds.
pub open spec fn script_backend_known(name: Seq<char>) -> bool {
    name == "dummy"@
}

enum ScriptSlot {
    Dummy(DummyScriptsBackend),
    Plugged(Box<dyn ScriptBackend>),
}

fn load_backend(name: &str) -> (r: ScriptSlot)
    requires
        script_backend_known(name@),
    ensures
        r is Dummy,
{
    if same_text(name, "dummy") {
        ScriptSlot::Dummy(DummyScriptsBackend::new())
    } else {
        proof {
            reveal_strlit("dummy");
        }
        vstd::pervasive::unreached()
    }
}

/// The scripts facade: forwards to the backend it holds.
pub struct Scripts {
    backend: ScriptSlot,
}

impl Scripts {
    /// Which backend the facade forwards to.
    pub closed spec fn backend_kind(&self) -> BackendKind {
        match self.backend {
            ScriptSlot::Dummy(_) => BackendKind::Dummy,
            ScriptSlot::Plugged(_) => BackendKind::Plugged,
        }
    }

    /// A scripts facade over the backend of the given name.
    pub fn new(name: &str) -> (r: Self)
        requires
            script_backend_known(name@),
        ensures
            r.backend_kind() == BackendKind::Dummy,
    {
        Self { backend: load_backend(name) }
    }

    /// A scripts facade over a backend made elsewhere.
    pub fn with_backend(backend: Box<dyn ScriptBackend>) -> (r: Self)
        ensures
            r.backend_kind() == BackendKind::Plugged,
    {
        Self { backend: ScriptSlot::Plugged(backend) }
    }

    /// Replaces the backend by the one of the given name.
    pub fn swap_backend(&mut self, name: &str)
        requires
            script_backend_known(name@),
        ensures
            final(self).backend_kind() == BackendKind::Dummy,
    {
        self.backend = load_backend(name);
    }

    /// `r` is an answer that the installed backend, in its present state, may give to a
    /// request to run `code`.
    pub closed spec fn exec_answer(&self, code: Seq<char>, r: Result<(), String>) -> bool {
        match self.backend {
            ScriptSlot::Dummy(b) => b.exec_answer(code, r),
            ScriptSlot::Plugged(b) => b.exec_answer(code, r),
        }
    }

    /// Whether the installed backend keeps a record of the code it is asked to run.
    pub closed spec fn keeps_exec_log(&self) -> bool {
        match self.backend {
            ScriptSlot::Dummy(b) => b.keeps_exec_log(),
            ScriptSlot::Plugged(b) => b.keeps_exec_log(),
        }
    }

    /// The code the installed backend has been asked to run, in order.
    pub closed spec fn exec_log(&self) -> Seq<Seq<char>> {
        match self.backend {
            ScriptSlot::Dummy(b) => b.exec_log(),
            ScriptSlot::Plugged(b) => b.exec_log(),
        }
    }

    /// Runs code through the backend and hands back its answer. The dummy backend
    /// announces the code and succeeds.
    pub fn exec(&mut self, code: &str) -> (r: Result<(), String>)
        ensures
            final(self).backend_kind() == old(self).backend_kind(),
            old(self).exec_answer(code@, r),
            old(self).backend_kind() == BackendKind::Dummy ==> r == Ok::<(), String>(()),
            old(self).keeps_exec_log() ==> final(self).keeps_exec_log() && final(self).exec_log()
                == old(self).exec_log().push(code@),
    {
        match &mut self.backend {
            ScriptSlot::Dummy(b) => b.exec(code),
            ScriptSlot::Plugged(b) => b.exec(code),
        }
    }
}

/// Code run through the facade piece after piece reaches a backend that keeps a record
/// once per piece, in order: `states[j]` is the facade before the `j`-th call of `exec`,
/// which was given `codes[j]`.
pub proof fn lemma_each_exec_reaches_backend_once(states: Seq<Scripts>, codes: Seq<Seq<char>>)
    requires
        states.len() == codes.len() + 1,
        states[0].keeps_exec_log(),
        forall|j: int|
            0 <= j < codes.len() ==> #[trigger] states[j].keeps_exec_log() ==> states[j + 1].keeps_exec_log()
                && states[j + 1].exec_log() == states[j].exec_log().push(codes[j]),
    ensures
        states[codes.len() as int].keeps_exec_log(),
        states[codes.len() as int].exec_log() == states[0].exec_log() + codes,
    decreases codes.len(),
{
    if codes.len() > 0 {
        let n = codes.len() - 1;
        lemma_each_exec_reaches_backend_once(states.subrange(0, n + 1), codes.subrange(0, n));
        assert(states.subrange(0, n + 1)[n] == states[n]);
        assert(states[0].exec_log() + codes =~= (states[0].exec_log() + codes.subrange(0, n)).push(codes[n]));
    } else {
        assert(states[0].exec_log() + codes =~= states[0].exec_log());
    }
}

} // verus!
