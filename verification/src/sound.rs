//! Which sound answers which game event.

use crate::game::GameEvent;
use vstd::prelude::*;

verus! {

/// Reacts to game events with sound.
pub trait SoundSystem {
    fn play_sound(&self, event: GameEvent);
}

/// How long the console waits after each bell of a series, in milliseconds.
pub const BELL_PAUSE_MS: u64 = 100;

/// What to play: `bells` terminal bells, each followed by a pause of
/// `pause_ms` milliseconds.
#[derive(Debug, Clone, Copy, PartialEq, Eq, Structural)]
pub struct SoundCue {
    pub bells: u8,
    pub pause_ms: u64,
}

impl SoundCue {
    /// One bell for food, three spaced bells for the end of the game, and
    /// nothing for anything else or when sound is off.
    pub open spec fn for_event(enabled: bool, event: GameEvent) -> SoundCue {
        if !enabled {
            SoundCue { bells: 0, pause_ms: 0 }
        } else {
            match event {
                GameEvent::FoodEaten => SoundCue { bells: 1, pause_ms: 0 },
                GameEvent::GameOver => SoundCue { bells: 3, pause_ms: BELL_PAUSE_MS },
                _ => SoundCue { bells: 0, pause_ms: 0 },
            }
        }
    }
}

/// Sound through the terminal bell.
pub struct ConsoleSoundSystem {
    enabled: bool,
}

impl ConsoleSoundSystem {
    /// Whether sound is on.
    pub closed spec fn is_enabled(&self) -> bool {
        self.enabled
    }

    /// A console sound system with sound on or off.
    pub fn new(enabled: bool) -> (system: Self)
        ensures
            system.is_enabled() == enabled,
    {
        Self { enabled }
    }

    /// The bells to ring for `event`.
    pub fn cue(&self, event: GameEvent) -> (cue: SoundCue)
        ensures
            cue == SoundCue::for_event(self.is_enabled(), event),
    {
        if !self.enabled {
            return SoundCue { bells: 0, pause_ms: 0 };
        }
        match event {
            GameEvent::FoodEaten => SoundCue { bells: 1, pause_ms: 0 },
            GameEvent::GameOver => SoundCue { bells: 3, pause_ms: BELL_PAUSE_MS },
            _ => SoundCue { bells: 0, pause_ms: 0 },
        }
    }
}

/// No sound at all.
pub struct NoSoundSystem;

impl SoundSystem for NoSoundSystem {
    fn play_sound(&self, _event: GameEvent) {
    }
}

} // verus!
