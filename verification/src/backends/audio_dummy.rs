//! An audio backend that only announces what it is asked to do.
use vstd::prelude::*;
use crate::api::audio::AudioBackend;
use crate::report::{joined, print_line};

verus! {

/// The audio backend that plays nothing.
pub struct DummyAudioBackend {}

/// A boxed dummy audio backend.
pub fn boxed() -> Box<dyn AudioBackend> {
    let backend: Box<dyn AudioBackend> = Box::new(DummyAudioBackend::new());
    backend
}

impl DummyAudioBackend {
    pub fn new() -> (r: Self)
        ensures
            r == (DummyAudioBackend {}),
    {
        Self {  }
    }
}

impl AudioBackend for DummyAudioBackend {
    /// Every path is answered with id 0.
    open spec fn load_answer(&self, path: Seq<char>, r: Result<u32, String>) -> bool {
        r == Ok::<u32, String>(0)
    }

    fn name(&self) -> (r: &str)
        ensures
            r@ == "dummy"@,
    {
        "dummy"
    }

    /// Announces the path and returns id 0.
    fn load_sound_file(&mut self, path: &str) -> (r: Result<u32, String>)
        ensures
            r == Ok::<u32, String>(0),
            *final(self) == *old(self),
    {
        print_line(joined("dummy loading sound file: ", path).as_str());
        Ok(0)
    }

    /// Announces the sound id.
    fn play_sound(&mut self, sound_id: u32)
        ensures
            *final(self) == *old(self),
    {
        let id = sound_id.to_string();
        print_line(joined("dummy playing sound id: ", id.as_str()).as_str());
    }
}

} // verus!
