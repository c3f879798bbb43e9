//! The audio subsystem.
use vstd::prelude::*;
use crate::api::BackendKind;
use crate::backends::audio_dummy::DummyAudioBackend;
use crate::text::same_text;

verus! {

/// A backend that loads sound files and plays them.
pub trait AudioBackend: Send + Sync {
    /// The name of the backend.
    fn name(&self) -> &str;

    /// `r` is an answer that the backend, in its present state, may give to a request
    /// to load `path`. A backend that says nothing of its answers may give any.
    open spec fn load_answer(&self, path: Seq<char>, r: Result<u32, String>) -> bool {
        true
    }

    /// Whether the backend keeps a record of the requests it takes. A backend that says
    /// nothing of it keeps none.
    open spec fn keeps_requests(&self) -> bool {
        false
    }

    /// The paths the backend has been asked to load, in order, where it keeps a record.
    open spec fn load_requests(&self) -> Seq<Seq<char>> {
        Seq::empty()
    }

    /// The sound ids the backend has been asked to play, in order, where it keeps a
    /// record.
    open spec fn play_requests(&self) -> Seq<u32> {
        Seq::empty()
    }

    /// Loads the sound file at `path` and returns the id under which it can be played.
    fn load_sound_file(&mut self, path: &str) -> (r: Result<u32, String>)
        ensures
            old(self).load_answer(path@, r),
            old(self).keeps_requests() ==> final(self).keeps_requests() && final(self).load_requests() == old(self).load_requests().push(path@) && final(self).play_requests()
                == old(self).play_requests();

    /// The backend is in a state that playing the sound `sound_id` leaves it in. A
    /// backend that says nothing of that state may be in any.
    open spec fn after_play(&self, sound_id: u32) -> bool {
        true
    }

    /// Plays the sound with the given id.
    fn play_sound(&mut self, sound_id: u32)
        ensures
            final(self).after_play(sound_id),
            old(self).keeps_requests() ==> final(self).keeps_requests() && final(self).play_requests() == old(self).play_requests().push(sound_id) && final(self).load_requests()
                == old(self).load_requests();
}

/// The names of the audio backends that the library holds.
pub open spec fn audio_backend_known(name: Seq<char>) -> bool {
    name == "dummy"@
}

enum AudioSlot {
    Dummy(DummyAudioBackend),
    Plugged(Box<dyn AudioBackend>),
}

fn load_backend(name: &str) -> (r: AudioSlot)
    requires
        audio_backend_known(name@),
    ensures
        r is Dummy,
{
    if same_text(name, "dummy") {
        AudioSlot::Dummy(DummyAudioBackend::new())
    } else {
        proof {
            reveal_strlit("dummy");
        }
        vstd::pervasive::unreached()
    }
}

/// The audio facade: forwards to the backend it holds.
pub struct Audio {
    backend: AudioSlot,
}

impl Audio {
    /// Which backend the facade forwards to.
    pub closed spec fn backend_kind(&self) -> BackendKind {
        match self.backend {
            AudioSlot::Dummy(_) => BackendKind::Dummy,
            AudioSlot::Plugged(_) => BackendKind::Plugged,
        }
    }

    /// An audio facade over the backend of the given name.
    pub fn new(name: &str) -> (r: Self)
        requires
            audio_backend_known(name@),
        ensures
            r.backend_kind() == BackendKind::Dummy,
    {
        Self { backend: load_backend(name) }
    }

    /// An audio facade over a backend made elsewhere.
    pub fn with_backend(backend: Box<dyn AudioBackend>) -> (r: Self)
        ensures
            r.backend_kind() == BackendKind::Plugged,
    {
        Self { backend: AudioSlot::Plugged(backend) }
    }

    /// Replaces the backend by the one of the given name.
    pub fn swap_backend(&mut self, name: &str)
        requires
            audio_backend_known(name@),
        ensures
            final(self).backend_kind() == BackendKind::Dummy,
    {
        self.backend = load_backend(name);
    }

    /// Whether the installed backend keeps a record of the requests it takes.
    pub closed spec fn backend_keeps_requests(&self) -> bool {
        match self.backend {
            AudioSlot::Dummy(b) => b.keeps_requests(),
            AudioSlot::Plugged(b) => b.keeps_requests(),
        }
    }

    /// The paths the installed backend has been asked to load, where it keeps a record.
    pub closed spec fn backend_load_requests(&self) -> Seq<Seq<char>> {
        match self.backend {
            AudioSlot::Dummy(b) => b.load_requests(),
            AudioSlot::Plugged(b) => b.load_requests(),
        }
    }

    /// The sound ids the installed backend has been asked to play, where it keeps a record.
    pub closed spec fn backend_play_requests(&self) -> Seq<u32> {
        match self.backend {
            AudioSlot::Dummy(b) => b.play_requests(),
            AudioSlot::Plugged(b) => b.play_requests(),
        }
    }

    /// `r` is an answer that the installed backend, in its present state, may give to a
    /// request to load `path`.
    pub closed spec fn load_answer(&self, path: Seq<char>, r: Result<u32, String>) -> bool {
        match self.backend {
            AudioSlot::Dummy(b) => b.load_answer(path, r),
            AudioSlot::Plugged(b) => b.load_answer(path, r),
        }
    }

    /// Loads a sound file through the backend and hands back its answer. The dummy
    /// backend announces the path and returns id 0.
    pub fn load_sound_file(&mut self, path: &str) -> (r: Result<u32, String>)
        ensures
            final(self).backend_kind() == old(self).backend_kind(),
            old(self).load_answer(path@, r),
            old(self).backend_kind() == BackendKind::Dummy ==> r == Ok::<u32, String>(0),
            old(self).backend_keeps_requests() ==> final(self).backend_keeps_requests() && final(self).backend_load_requests() == old(self).backend_load_requests().push(path@) && final(self).backend_play_requests() == old(self).backend_play_requests(),
    {
        match &mut self.backend {
            AudioSlot::Dummy(b) => b.load_sound_file(path),
            AudioSlot::Plugged(b) => b.load_sound_file(path),
        }
    }

    /// The installed backend is in a state that its own `play_sound` of `sound_id` leaves it in.
    pub closed spec fn backend_after_play(&self, sound_id: u32) -> bool {
        match self.backend {
            AudioSlot::Dummy(b) => b.after_play(sound_id),
            AudioSlot::Plugged(b) => b.after_play(sound_id),
        }
    }

    /// Plays a sound through the backend.
    pub fn play_sound(&mut self, sound_id: u32)
        ensures
            final(self).backend_kind() == old(self).backend_kind(),
            final(self).backend_after_play(sound_id),
            old(self).backend_keeps_requests() ==> final(self).backend_keeps_requests() && final(self).backend_play_requests() == old(self).backend_play_requests().push(sound_id) && final(self).backend_load_requests() == old(self).backend_load_requests(),
    {
        match &mut self.backend {
            AudioSlot::Dummy(b) => b.play_sound(sound_id),
            AudioSlot::Plugged(b) => b.play_sound(sound_id),
        }
    }
}

} // verus!
