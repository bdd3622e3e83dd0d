use snake_rs::sound::BELL_PAUSE_MS;
use snake_rs::{ConsoleSoundSystem, GameEvent, NoSoundSystem, SoundCue, SoundSystem};

const SILENCE: SoundCue = SoundCue { bells: 0, pause_ms: 0 };

#[test]
fn food_rings_once() {
    let sound = ConsoleSoundSystem::new(true);
    assert_eq!(sound.cue(GameEvent::FoodEaten), SoundCue { bells: 1, pause_ms: 0 });
}

#[test]
fn game_over_rings_three_times_with_pauses() {
    let sound = ConsoleSoundSystem::new(true);
    assert_eq!(sound.cue(GameEvent::GameOver), SoundCue { bells: 3, pause_ms: 100 });
    assert_eq!(BELL_PAUSE_MS, 100);
}

#[test]
fn other_events_are_silent() {
    let sound = ConsoleSoundSystem::new(true);
    assert_eq!(sound.cue(GameEvent::Moved), SILENCE);
    assert_eq!(sound.cue(GameEvent::Idle), SILENCE);
}

#[test]
fn disabled_sound_is_silent() {
    let sound = ConsoleSoundSystem::new(false);
    for event in [GameEvent::Idle, GameEvent::Moved, GameEvent::FoodEaten, GameEvent::GameOver] {
        assert_eq!(sound.cue(event), SILENCE);
    }
}

#[test]
fn no_sound_system_accepts_every_event() {
    let sound = NoSoundSystem;
    for event in [GameEvent::Idle, GameEvent::Moved, GameEvent::FoodEaten, GameEvent::GameOver] {
        sound.play_sound(event);
    }
}
