//! A developer console: a read-eval-print loop over a scripting engine. Lines are
//! collected until a blank line runs them; `exit` in any letter case ends the console.
use vstd::prelude::*;
use vstd::string::*;
use crate::api::scripting::ScriptingEngine;
use crate::report::joined;
use crate::text::{
    ascii_lower, chars_eq_ignore_ascii_case, chars_of, eq_ignore_ascii_case, lemma_equal_ignoring_case, trim,
    trim_chars,
};

verus! {

/// What the console reads: a line, line break included, or a failed read.
pub enum ConsoleInput {
    Line(String),
    ReadError,
}

/// What the console did with an input.
pub enum ConsoleReply {
    /// The user asked to leave.
    Exit,
    /// The input could not be read; the console goes on.
    ReadFailed,
    /// The collected code ran, with this outcome; the collection is cleared.
    Executed(Result<(), String>),
    /// The line was added to the collected code.
    Buffered,
}

/// The line, without surrounding white space, is `exit` in any letter case.
pub open spec fn is_exit_command(line: Seq<char>) -> bool {
    eq_ignore_ascii_case(trim(line), "exit"@)
}

/// A line asks to leave exactly when, without surrounding white space, it is the four
/// letters e, x, i, t, each in either case.
pub proof fn lemma_exit_in_any_case(line: Seq<char>)
    ensures
        is_exit_command(line) <==> ({
            let t = trim(line);
            &&& t.len() == 4
            &&& (t[0] == 'e' || t[0] == 'E')
            &&& (t[1] == 'x' || t[1] == 'X')
            &&& (t[2] == 'i' || t[2] == 'I')
            &&& (t[3] == 't' || t[3] == 'T')
        }),
{
    reveal_strlit("exit");
    let t = trim(line);
    if t.len() == 4 {
        lemma_equal_ignoring_case(t[0], 'e');
        lemma_equal_ignoring_case(t[1], 'x');
        lemma_equal_ignoring_case(t[2], 'i');
        lemma_equal_ignoring_case(t[3], 't');
        if is_exit_command(line) {
            assert(ascii_lower(t[0]) == ascii_lower("exit"@[0]));
            assert(ascii_lower(t[1]) == ascii_lower("exit"@[1]));
            assert(ascii_lower(t[2]) == ascii_lower("exit"@[2]));
            assert(ascii_lower(t[3]) == ascii_lower("exit"@[3]));
        }
    }
}

/// The line holds nothing but white space.
pub open spec fn is_blank(line: Seq<char>) -> bool {
    trim(line).len() == 0
}

/// A developer console over the scripting engine `E`.
pub struct DeveloperConsole<E: ScriptingEngine> {
    engine: E,
    input_buffer: String,
    runs: Ghost<Seq<Seq<char>>>,
}

impl<E: ScriptingEngine> DeveloperConsole<E> {
    /// The scripting engine.
    pub closed spec fn engine(&self) -> E {
        self.engine
    }

    /// The code collected so far.
    pub closed spec fn buffer(&self) -> Seq<char> {
        self.input_buffer@
    }

    /// The code the console has handed to its engine to run, in order.
    pub closed spec fn runs(&self) -> Seq<Seq<char>> {
        self.runs@
    }

    /// A console over the given engine, with nothing collected and nothing run.
    pub fn new(engine: E) -> (r: Self)
        ensures
            r.engine() == engine,
            r.buffer() == Seq::<char>::empty(),
            r.runs() == Seq::<Seq<char>>::empty(),
    {
        Self { engine, input_buffer: String::new(), runs: Ghost(Seq::empty()) }
    }

    /// Takes one input: `exit` ends the console; a blank line hands the collected code,
    /// if there is any, to the engine's `exec`, answers with the engine's answer and
    /// clears the collection; any other line is added to the collected code. Only a run
    /// hands code to the engine.
    pub fn feed(&mut self, input: ConsoleInput) -> (r: ConsoleReply)
        ensures
            final(self).engine() == old(self).engine(),
            r matches ConsoleReply::Executed(outcome) ==> {
                &&& old(self).engine().exec_answer(old(self).buffer(), outcome)
                &&& final(self).runs() == old(self).runs().push(old(self).buffer())
            },
            !(r is Executed) ==> final(self).runs() == old(self).runs(),
            match input {
                ConsoleInput::ReadError => r is ReadFailed && final(self).buffer() == old(
                    self,
                ).buffer(),
                ConsoleInput::Line(line) => if is_exit_command(line@) {
                    r is Exit && final(self).buffer() == old(self).buffer()
                } else if is_blank(line@) && old(self).buffer().len() > 0 {
                    r is Executed && final(self).buffer() == Seq::<char>::empty()
                } else {
                    r is Buffered && final(self).buffer() == old(self).buffer() + line@
                },
            },
    {
        match input {
            ConsoleInput::ReadError => ConsoleReply::ReadFailed,
            ConsoleInput::Line(line) => {
                let trimmed = trim_chars(&chars_of(line.as_str()));
                if chars_eq_ignore_ascii_case(&trimmed, &chars_of("exit")) {
                    ConsoleReply::Exit
                } else if trimmed.len() == 0 && !self.input_buffer.as_str().is_empty() {
                    let outcome = self.engine.exec(self.input_buffer.as_str());
                    proof {
                        self.runs@ = self.runs@.push(self.input_buffer@);
                    }
                    self.input_buffer = String::new();
                    ConsoleReply::Executed(outcome)
                } else {
                    self.input_buffer.append(line.as_str());
                    ConsoleReply::Buffered
                }
            },
        }
    }
}

/// The line the console prints for a reply, if any.
pub fn reply_message(reply: &ConsoleReply) -> (r: Option<String>)
    ensures
        match reply {
            ConsoleReply::Exit => r matches Some(m) && m@ == "Exiting console."@,
            ConsoleReply::ReadFailed => r matches Some(m) && m@ == "Error reading input."@,
            ConsoleReply::Executed(Ok(())) => r matches Some(m) && m@
                == "✅ Code executed successfully."@,
            ConsoleReply::Executed(Err(e)) => r matches Some(m) && m@ == "❌ Error: "@ + e@,
            ConsoleReply::Buffered => r is None,
        },
{
    match reply {
        ConsoleReply::Exit => Some("Exiting console.".to_owned()),
        ConsoleReply::ReadFailed => Some("Error reading input.".to_owned()),
        ConsoleReply::Executed(Ok(())) => Some("✅ Code executed successfully.".to_owned()),
        ConsoleReply::Executed(Err(e)) => Some(joined("❌ Error: ", e.as_str())),
        ConsoleReply::Buffered => None,
    }
}

} // verus!
