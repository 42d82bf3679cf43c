use moving_game::health::EntityLifecycle;
use moving_game::states::{AppState, ButtonResponse, ButtonShade, GameOverButton, Interaction};

#[test]
fn play_ends_when_the_entity_is_seen_defeated() {
    assert_eq!(AppState::Playing.observed(EntityLifecycle::Defeated), AppState::GameOver);
    assert_eq!(AppState::Playing.observed(EntityLifecycle::Active), AppState::Playing);
}

#[test]
fn looking_at_the_entity_never_leaves_game_over() {
    assert_eq!(AppState::GameOver.observed(EntityLifecycle::Defeated), AppState::GameOver);
    assert_eq!(AppState::GameOver.observed(EntityLifecycle::Active), AppState::GameOver);
}

#[test]
fn pressed_buttons_are_commands_on_the_game_over_screen() {
    let s = AppState::GameOver;
    assert_eq!(s.response(Interaction::Pressed, GameOverButton::Restart), ButtonResponse::Restart);
    assert_eq!(s.response(Interaction::Pressed, GameOverButton::Exit), ButtonResponse::Exit);
}

#[test]
fn hovering_and_leaving_only_shade_the_button() {
    let s = AppState::GameOver;
    for button in [GameOverButton::Restart, GameOverButton::Exit] {
        assert_eq!(
            s.response(Interaction::Hovered, button),
            ButtonResponse::Shade(ButtonShade::Highlighted)
        );
        assert_eq!(
            s.response(Interaction::Idle, button),
            ButtonResponse::Shade(ButtonShade::Normal)
        );
    }
}

#[test]
fn buttons_are_ignored_while_playing() {
    let s = AppState::Playing;
    for interaction in [Interaction::Pressed, Interaction::Hovered, Interaction::Idle] {
        for button in [GameOverButton::Restart, GameOverButton::Exit] {
            assert_eq!(s.response(interaction, button), ButtonResponse::Ignored);
        }
    }
}
