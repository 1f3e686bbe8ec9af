use vstd::prelude::*;

verus! {

/// Whether a game is under way.
#[derive(Clone, Copy, Debug, PartialEq, Eq, Structural)]
pub enum StoryPhase {
    NotPlaying,
    Playing,
}

impl StoryPhase {
    /// A new session starts outside of play.
    pub fn new_game() -> (s: Self)
        ensures
            s == StoryPhase::NotPlaying,
    {
        StoryPhase::NotPlaying
    }

    /// Advances the story by a frame; no phase changes on its own.
    pub fn update(&mut self)
        ensures
            *final(self) == *old(self),
    {
    }
}

} // verus!
