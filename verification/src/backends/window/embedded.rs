//! A headless window for embedded targets.
use vstd::prelude::*;
use crate::api::Window;

verus! {

/// A window without a screen: it is open from its creation on and stays open.
pub struct EmbeddedWindow {
    open: bool,
}

impl EmbeddedWindow {
    /// Whether the window counts as open.
    pub closed spec fn is_open_now(&self) -> bool {
        self.open
    }

    /// Nothing ever closes a headless window.
    #[verifier::type_invariant]
    closed spec fn always_open(&self) -> bool {
        self.open
    }
}

impl Window for EmbeddedWindow {
    /// A headless window; title and size are not used.
    fn new(_title: &str, _width: u32, _height: u32) -> (r: Self)
        ensures
            r.is_open_now(),
    {
        Self { open: true }
    }

    /// Nothing to process.
    fn update(&mut self)
        ensures
            final(self).is_open_now() == old(self).is_open_now(),
    {
    }

    /// A headless window is open from its creation on, whatever updates it took.
    fn is_open(&self) -> (r: bool)
        ensures
            r == self.is_open_now(),
            r,
    {
        proof {
            use_type_invariant(self);
        }
        self.open
    }
}

} // verus!
