use std::sync::{Arc, Mutex};

use creek::api::audio::{Audio, AudioBackend};
use creek::api::govern::{GoverningBackend, Governor};
use creek::api::graphics::{Graphics, GraphicsBackend};
use creek::api::io::{IOBackend, IO};
use creek::api::scripts::{ScriptBackend, Scripts};
use creek::backends::audio_dummy::DummyAudioBackend;
use creek::backends::govern_dummy::DummyGovernor;
use creek::backends::govern_winit::WinitGovernor;
use creek::backends::graphics_dummy::DummyGraphicsBackend;
use creek::backends::io_dummy::DummyGraphicsBackend as DummyIOBackend;
use creek::backends::scripts_dummy::DummyScriptsBackend;
use creek::backends::scripts_lua::LuaBackend;
use creek::backends::{audio_dummy, govern_dummy, govern_winit, graphics_dummy, io_dummy, scripts_dummy, scripts_lua};

struct RecordingAudio {
    log: Arc<Mutex<Vec<String>>>,
}

impl AudioBackend for RecordingAudio {
    fn name(&self) -> &str {
        "recording"
    }
    fn load_sound_file(&mut self, path: &str) -> Result<u32, String> {
        self.log.lock().unwrap().push(format!("load {}", path));
        Ok(7)
    }
    fn play_sound(&mut self, sound_id: u32) {
        self.log.lock().unwrap().push(format!("play {}", sound_id));
    }
}

#[test]
fn dummy_audio_loads_every_file_as_id_zero() {
    let mut audio = Audio::new("dummy");
    assert_eq!(audio.load_sound_file("a.wav"), Ok(0));
    assert_eq!(audio.load_sound_file("b.ogg"), Ok(0));
    audio.play_sound(0);
    audio.play_sound(42);
}

#[test]
fn audio_forwards_to_a_plugged_backend_until_swapped() {
    let log = Arc::new(Mutex::new(Vec::new()));
    let mut audio = Audio::with_backend(Box::new(RecordingAudio { log: log.clone() }));
    assert_eq!(audio.load_sound_file("x.wav"), Ok(7));
    audio.play_sound(3);
    assert_eq!(*log.lock().unwrap(), vec!["load x.wav".to_string(), "play 3".to_string()]);
    audio.swap_backend("dummy");
    assert_eq!(audio.load_sound_file("y.wav"), Ok(0));
    assert_eq!(log.lock().unwrap().len(), 2);
}

#[test]
fn dummy_backends_report_their_names() {
    assert_eq!(DummyAudioBackend::new().name(), "dummy");
    assert_eq!(DummyGovernor::new().name(), "dummy");
    assert_eq!(WinitGovernor::new().name(), "dummy");
    assert_eq!(DummyGraphicsBackend::new().name(), "dummy");
    assert_eq!(DummyIOBackend::new().name(), "dummy");
    assert_eq!(DummyScriptsBackend::new().name(), "dummy");
    assert_eq!(LuaBackend::new().name(), "lua");
}

#[test]
fn boxed_backends_keep_their_names() {
    assert_eq!(audio_dummy::boxed().name(), "dummy");
    assert_eq!(govern_dummy::boxed().name(), "dummy");
    assert_eq!(govern_winit::boxed().name(), "dummy");
    assert_eq!(graphics_dummy::boxed().name(), "dummy");
    assert_eq!(io_dummy::boxed().name(), "dummy");
    assert_eq!(scripts_dummy::boxed().name(), "dummy");
    assert_eq!(scripts_lua::boxed().name(), "lua");
}

struct CountingGovernor {
    count: Arc<Mutex<u32>>,
}

impl GoverningBackend for CountingGovernor {
    fn name(&self) -> &str {
        "counting"
    }
    fn init(&mut self) {
        *self.count.lock().unwrap() += 100;
    }
    fn submit(&mut self) {
        *self.count.lock().unwrap() += 1;
    }
}

#[test]
fn governor_accepts_dummy_and_winit_and_forwards() {
    let mut g = Governor::new("dummy");
    g.init();
    g.submit();
    let mut w = Governor::new("winit");
    w.init();
    w.submit();
    w.swap_backend("dummy");
    let count = Arc::new(Mutex::new(0));
    let mut plugged = Governor::with_backend(Box::new(CountingGovernor { count: count.clone() }));
    plugged.init();
    plugged.submit();
    plugged.submit();
    assert_eq!(*count.lock().unwrap(), 102);
    plugged.swap_backend("winit");
    plugged.submit();
    assert_eq!(*count.lock().unwrap(), 102);
}

struct CountingGraphics {
    frames: Arc<Mutex<u32>>,
}

impl GraphicsBackend for CountingGraphics {
    fn name(&self) -> &str {
        "counting"
    }
    fn init(&mut self) {}
    fn update(&mut self) {
        *self.frames.lock().unwrap() += 1;
    }
}

#[test]
fn graphics_forwards_updates() {
    let mut g = Graphics::new("dummy");
    g.init();
    g.update();
    let frames = Arc::new(Mutex::new(0));
    let mut p = Graphics::with_backend(Box::new(CountingGraphics { frames: frames.clone() }));
    p.init();
    p.update();
    p.update();
    assert_eq!(*frames.lock().unwrap(), 2);
    p.swap_backend("dummy");
    p.update();
    assert_eq!(*frames.lock().unwrap(), 2);
}

struct FlagIO {
    started: Arc<Mutex<bool>>,
}

impl IOBackend for FlagIO {
    fn name(&self) -> &str {
        "flag"
    }
    fn init(&mut self) {
        *self.started.lock().unwrap() = true;
    }
}

#[test]
fn io_forwards_init() {
    let mut io = IO::new("dummy");
    io.init();
    let started = Arc::new(Mutex::new(false));
    let mut p = IO::with_backend(Box::new(FlagIO { started: started.clone() }));
    p.init();
    assert!(*started.lock().unwrap());
    p.swap_backend("dummy");
    p.init();
}

struct FailingScripts;

impl ScriptBackend for FailingScripts {
    fn name(&self) -> &str {
        "failing"
    }
    fn exec(&mut self, code: &str) -> Result<(), String> {
        Err(format!("cannot run {}", code))
    }
}

#[test]
fn scripts_dummy_succeeds_and_plugged_errors_come_through() {
    let mut s = Scripts::new("dummy");
    assert_eq!(s.exec("print('hi')"), Ok(()));
    let mut p = Scripts::with_backend(Box::new(FailingScripts));
    assert_eq!(p.exec("x"), Err("cannot run x".to_string()));
    p.swap_backend("dummy");
    assert_eq!(p.exec("x"), Ok(()));
}

#[test]
fn scripts_run_lua_through_a_plugged_backend() {
    let mut s = Scripts::with_backend(scripts_lua::boxed());
    assert_eq!(s.exec("local x = 1 + 2"), Ok(()));
    assert!(s.exec("local x = = 2").is_err());
    assert_eq!(s.exec("y = 5"), Ok(()));
    assert_eq!(s.exec("assert(y == 5)"), Ok(()));
}
