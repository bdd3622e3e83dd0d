use snake_rs::{Color, GameConfig};

#[test]
fn default_config() {
    let config = GameConfig::default();
    assert_eq!(config.board_width, 40);
    assert_eq!(config.board_height, 20);
    assert!(config.enable_sound);
    assert!(config.enable_colors);
    assert!(config.wall_wrapping);
    assert_eq!(config.snake_color, Color::Green);
    assert_eq!(config.food_color, Color::Red);
    assert_eq!(config.wall_color, Color::Gray);
    assert_eq!(config.background_color, Color::Black);
    assert_eq!(config.border_color, Color::White);
    assert_eq!(config.high_score, 0);
}

#[test]
fn new_config_sets_the_board_only() {
    let config = GameConfig::new(30, 25);
    let expected = GameConfig { board_width: 30, board_height: 25, ..GameConfig::default() };
    assert_eq!(config, expected);
}

#[test]
fn builders_set_one_field_each() {
    let base = GameConfig::new(30, 20);
    assert_eq!(base.with_sound(false), GameConfig { enable_sound: false, ..base });
    assert_eq!(base.with_colors(false), GameConfig { enable_colors: false, ..base });
    assert_eq!(base.with_wall_wrapping(false), GameConfig { wall_wrapping: false, ..base });
    assert_eq!(base.with_snake_color(Color::Blue), GameConfig { snake_color: Color::Blue, ..base });
    assert_eq!(base.with_food_color(Color::LightRed), GameConfig { food_color: Color::LightRed, ..base });
    assert_eq!(
        base.with_wall_color(Color::Rgb(1, 2, 3)),
        GameConfig { wall_color: Color::Rgb(1, 2, 3), ..base }
    );
    assert_eq!(
        base.with_background_color(Color::Indexed(7)),
        GameConfig { background_color: Color::Indexed(7), ..base }
    );
    assert_eq!(
        base.with_border_color(Color::LightCyan),
        GameConfig { border_color: Color::LightCyan, ..base }
    );
}

#[test]
fn builders_chain() {
    let config = GameConfig::new(30, 20)
        .with_sound(false)
        .with_colors(true)
        .with_wall_wrapping(false)
        .with_snake_color(Color::Green)
        .with_wall_color(Color::Red)
        .with_food_color(Color::LightRed)
        .with_border_color(Color::LightCyan)
        .with_background_color(Color::Black);
    assert_eq!(
        config,
        GameConfig {
            board_width: 30,
            board_height: 20,
            enable_sound: false,
            enable_colors: true,
            wall_wrapping: false,
            snake_color: Color::Green,
            food_color: Color::LightRed,
            wall_color: Color::Red,
            background_color: Color::Black,
            border_color: Color::LightCyan,
            high_score: 0,
        }
    );
}

#[test]
fn high_score_is_the_maximum() {
    let mut config = GameConfig::default();
    config.update_high_score(30);
    assert_eq!(config.high_score, 30);
    config.update_high_score(10);
    assert_eq!(config.high_score, 30);
    config.update_high_score(30);
    assert_eq!(config.high_score, 30);
    config.update_high_score(40);
    assert_eq!(config.high_score, 40);
    config.update_high_score(0);
    assert_eq!(config.high_score, 40);
}

#[test]
fn high_score_never_decreases() {
    let mut config = GameConfig::default();
    let scores = [0u32, 50, 20, 50, 70, 10, u32::MAX, 5];
    let mut best = 0u32;
    for score in scores {
        let before = config.high_score;
        config.update_high_score(score);
        best = best.max(score);
        assert!(config.high_score >= before);
        assert_eq!(config.high_score, best);
    }
}

#[test]
fn high_score_update_touches_nothing_else() {
    let mut config = GameConfig::new(12, 9).with_sound(false).with_snake_color(Color::Blue);
    let before = config;
    config.update_high_score(90);
    assert_eq!(config, GameConfig { high_score: 90, ..before });
}
