use std::cell::RefCell;
use std::rc::Rc;

use creek::api::scripting::ScriptingEngine;
use creek::backends::scripting::lua::LuaJitEngine;
use creek::components::console::{reply_message, ConsoleInput, ConsoleReply, DeveloperConsole};
use creek::Console;

struct Recorder {
    runs: Rc<RefCell<Vec<String>>>,
}

fn recorder() -> (Recorder, Rc<RefCell<Vec<String>>>) {
    let runs = Rc::new(RefCell::new(Vec::new()));
    (Recorder { runs: runs.clone() }, runs)
}

impl ScriptingEngine for Recorder {
    fn new() -> Self {
        Recorder { runs: Rc::new(RefCell::new(Vec::new())) }
    }
    fn exec(&self, code: &str) -> Result<(), String> {
        self.runs.borrow_mut().push(code.to_string());
        if code.contains("bad") {
            Err("syntax".to_string())
        } else {
            Ok(())
        }
    }
    fn set_global(&self, _name: &str, _val: &str) -> Result<(), String> {
        Ok(())
    }
}

fn line(s: &str) -> ConsoleInput {
    ConsoleInput::Line(s.to_string())
}

#[test]
fn lines_are_collected_until_a_blank_line() {
    let mut c: DeveloperConsole<Recorder> = DeveloperConsole::new(Recorder::new());
    assert!(matches!(c.feed(line("a = 1\n")), ConsoleReply::Buffered));
    assert!(matches!(c.feed(line("b = 2\n")), ConsoleReply::Buffered));
    match c.feed(line("\n")) {
        ConsoleReply::Executed(r) => assert_eq!(r, Ok(())),
        _ => panic!("expected a run"),
    }
    assert!(matches!(c.feed(line("bad\n")), ConsoleReply::Buffered));
    match c.feed(line("   \n")) {
        ConsoleReply::Executed(r) => assert_eq!(r, Err("syntax".to_string())),
        _ => panic!("expected a run"),
    }
}

#[test]
fn exit_in_any_case_ends_the_console() {
    let mut c: Console<Recorder> = Console::new(Recorder::new());
    assert!(matches!(c.feed(line("  ExIt \n")), ConsoleReply::Exit));
    assert!(matches!(c.feed(line("exit")), ConsoleReply::Exit));
    assert!(matches!(c.feed(line("exit now\n")), ConsoleReply::Buffered));
}

#[test]
fn blank_line_with_nothing_collected_is_kept() {
    let mut c: Console<Recorder> = Console::new(Recorder::new());
    assert!(matches!(c.feed(line("\n")), ConsoleReply::Buffered));
    match c.feed(line("\n")) {
        ConsoleReply::Executed(r) => assert_eq!(r, Ok(())),
        _ => panic!("expected a run"),
    }
}

#[test]
fn read_errors_are_reported_and_the_console_goes_on() {
    let mut c: Console<Recorder> = Console::new(Recorder::new());
    assert!(matches!(c.feed(line("x\n")), ConsoleReply::Buffered));
    assert!(matches!(c.feed(ConsoleInput::ReadError), ConsoleReply::ReadFailed));
    assert!(matches!(c.feed(line("\n")), ConsoleReply::Executed(Ok(()))));
}

#[test]
fn reply_lines() {
    assert_eq!(reply_message(&ConsoleReply::Exit).as_deref(), Some("Exiting console."));
    assert_eq!(reply_message(&ConsoleReply::ReadFailed).as_deref(), Some("Error reading input."));
    assert_eq!(reply_message(&ConsoleReply::Executed(Ok(()))).as_deref(), Some("✅ Code executed successfully."));
    assert_eq!(reply_message(&ConsoleReply::Executed(Err("boom".to_string()))).as_deref(), Some("❌ Error: boom"));
    assert_eq!(reply_message(&ConsoleReply::Buffered), None);
}

#[test]
fn console_runs_lua() {
    let mut c = Console::new(LuaJitEngine::new());
    assert!(matches!(c.feed(line("x = 40\n")), ConsoleReply::Buffered));
    assert!(matches!(c.feed(line("assert(x + 2 == 42)\n")), ConsoleReply::Buffered));
    assert!(matches!(c.feed(line("\n")), ConsoleReply::Executed(Ok(()))));
    assert!(matches!(c.feed(line("error('no')\n")), ConsoleReply::Buffered));
    assert!(matches!(c.feed(line("\n")), ConsoleReply::Executed(Err(_))));
}

#[test]
fn lua_engine_takes_globals() {
    let e = LuaJitEngine::new();
    assert_eq!(e.set_global("greeting", "hello"), Ok(()));
    assert_eq!(e.exec("assert(greeting == 'hello')"), Ok(()));
    assert!(e.exec("assert(greeting == 'bye')").is_err());
    assert!(e.exec("local = 1").is_err());
}

fn feed_all(c: &mut DeveloperConsole<Recorder>, input: &str) -> Vec<ConsoleReply> {
    let mut replies = Vec::new();
    for l in input.split_inclusive('\n') {
        let r = c.feed(line(l));
        let exit = matches!(r, ConsoleReply::Exit);
        replies.push(r);
        if exit {
            break;
        }
    }
    replies
}

#[test]
fn collected_code_runs_once_in_one_piece() {
    let (engine, runs) = recorder();
    let mut c: DeveloperConsole<Recorder> = DeveloperConsole::new(engine);
    let replies = feed_all(&mut c, "x = 1\ny = 2\n\nexit\n");
    assert_eq!(replies.len(), 4);
    assert!(matches!(replies[0], ConsoleReply::Buffered));
    assert!(matches!(replies[1], ConsoleReply::Buffered));
    assert!(matches!(replies[2], ConsoleReply::Executed(Ok(()))));
    assert!(matches!(replies[3], ConsoleReply::Exit));
    assert_eq!(reply_message(&replies[2]), Some("✅ Code executed successfully.".to_string()));
    assert_eq!(reply_message(&replies[3]), Some("Exiting console.".to_string()));
    assert_eq!(*runs.borrow(), vec!["x = 1\ny = 2\n".to_string()]);
}

#[test]
fn exit_drops_collected_code_without_running_it() {
    let (engine, runs) = recorder();
    let mut c: DeveloperConsole<Recorder> = DeveloperConsole::new(engine);
    let replies = feed_all(&mut c, "print(1)\n  ExIt  \n");
    assert_eq!(replies.len(), 2);
    assert!(matches!(replies[0], ConsoleReply::Buffered));
    assert!(matches!(replies[1], ConsoleReply::Exit));
    assert!(runs.borrow().is_empty());
}

#[test]
fn engine_errors_are_shown_and_the_console_goes_on() {
    let (engine, runs) = recorder();
    let mut c: DeveloperConsole<Recorder> = DeveloperConsole::new(engine);
    let replies = feed_all(&mut c, "bad\n\nok\n\n");
    assert_eq!(replies.len(), 4);
    match &replies[1] {
        ConsoleReply::Executed(Err(e)) => assert_eq!(e, "syntax"),
        _ => panic!("expected a failed run"),
    }
    assert_eq!(reply_message(&replies[1]), Some("❌ Error: syntax".to_string()));
    assert!(matches!(replies[3], ConsoleReply::Executed(Ok(()))));
    assert_eq!(*runs.borrow(), vec!["bad\n".to_string(), "ok\n".to_string()]);
}
