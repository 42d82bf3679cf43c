//! The play / game-over state machine and the two commands of the game-over
//! screen.

use vstd::prelude::*;
use crate::health::EntityLifecycle;

verus! {

/// What the application is showing.
#[derive(Clone, Copy, Debug, PartialEq, Eq, Structural)]
pub enum AppState {
    Playing,
    GameOver,
}

/// The commands that the game-over screen offers. There are no others.
#[derive(Clone, Copy, Debug, PartialEq, Eq, Structural)]
pub enum GameOverButton {
    Restart,
    Exit,
}

/// What the pointer is doing to a button.
#[derive(Clone, Copy, Debug, PartialEq, Eq, Structural)]
pub enum Interaction {
    Pressed,
    Hovered,
    /// The pointer is elsewhere.
    Idle,
}

/// How a button is drawn.
#[derive(Clone, Copy, Debug, PartialEq, Eq, Structural)]
pub enum ButtonShade {
    Normal,
    Highlighted,
}

/// What the host has to do about an interaction with a button.
#[derive(Clone, Copy, Debug, PartialEq, Eq, Structural)]
pub enum ButtonResponse {
    /// Replace the defeated entity by a new one and go on playing.
    Restart,
    /// End the process.
    Exit,
    /// Redraw the button.
    Shade(ButtonShade),
    /// The game-over screen is not up: there is no button to interact with.
    Ignored,
}

/// Something that can move the state machine.
pub ghost enum GameEvent {
    /// The entity was seen in this condition at the end of a frame.
    Observed(EntityLifecycle),
    /// The pointer did this to that button.
    Button(Interaction, GameOverButton),
}

impl AppState {
    /// The state after the entity has been looked at: play ends when it is
    /// found defeated. Looking never leaves the game-over screen.
    pub open spec fn observe(self, lifecycle: EntityLifecycle) -> AppState {
        if self == AppState::Playing && lifecycle == EntityLifecycle::Defeated {
            AppState::GameOver
        } else {
            self
        }
    }

    /// What an interaction with a button asks for. Only a press is a
    /// command, and only while the game-over screen is up.
    pub open spec fn respond(self, interaction: Interaction, button: GameOverButton)
        -> ButtonResponse {
        if self != AppState::GameOver {
            ButtonResponse::Ignored
        } else {
            match interaction {
                Interaction::Pressed => match button {
                    GameOverButton::Restart => ButtonResponse::Restart,
                    GameOverButton::Exit => ButtonResponse::Exit,
                },
                Interaction::Hovered => ButtonResponse::Shade(ButtonShade::Highlighted),
                Interaction::Idle => ButtonResponse::Shade(ButtonShade::Normal),
            }
        }
    }

    /// The state after a response has been carried out: a restart leads back
    /// to play, nothing else changes the state.
    pub open spec fn after(self, response: ButtonResponse) -> AppState {
        if self == AppState::GameOver && response == ButtonResponse::Restart {
            AppState::Playing
        } else {
            self
        }
    }

    pub open spec fn step(self, event: GameEvent) -> AppState {
        match event {
            GameEvent::Observed(lifecycle) => self.observe(lifecycle),
            GameEvent::Button(interaction, button) => self.after(
                self.respond(interaction, button),
            ),
        }
    }

    /// The state after a run of events, oldest first.
    pub open spec fn run(self, events: Seq<GameEvent>) -> AppState
        decreases events.len(),
    {
        if events.len() == 0 {
            self
        } else {
            self.run(events.drop_last()).step(events.last())
        }
    }

    /// The state after the entity has been looked at.
    pub fn observed(self, lifecycle: EntityLifecycle) -> (next: AppState)
        ensures
            next == self.observe(lifecycle),
    {
        match (self, lifecycle) {
            (AppState::Playing, EntityLifecycle::Defeated) => AppState::GameOver,
            _ => self,
        }
    }

    /// What an interaction with a button asks for.
    pub fn response(self, interaction: Interaction, button: GameOverButton) -> (r: ButtonResponse)
        ensures
            r == self.respond(interaction, button),
    {
        match self {
            AppState::Playing => ButtonResponse::Ignored,
            AppState::GameOver => match interaction {
                Interaction::Pressed => match button {
                    GameOverButton::Restart => ButtonResponse::Restart,
                    GameOverButton::Exit => ButtonResponse::Exit,
                },
                Interaction::Hovered => ButtonResponse::Shade(ButtonShade::Highlighted),
                Interaction::Idle => ButtonResponse::Shade(ButtonShade::Normal),
            },
        }
    }
}

/// The two ways through the state machine are the only ones: play ends only
/// when the entity is seen defeated, and the game-over screen is left only by
/// pressing restart.
pub proof fn lemma_only_valid_transitions(state: AppState, event: GameEvent)
    ensures
        state == AppState::Playing && state.step(event) == AppState::GameOver ==> event
            == GameEvent::Observed(EntityLifecycle::Defeated),
        state == AppState::GameOver && state.step(event) == AppState::Playing ==> event
            == GameEvent::Button(Interaction::Pressed, GameOverButton::Restart),
        state == AppState::Playing ==> (state.step(event) == AppState::GameOver <==> event
            == GameEvent::Observed(EntityLifecycle::Defeated)),
        state == AppState::GameOver ==> (state.step(event) == AppState::Playing <==> event
            == GameEvent::Button(Interaction::Pressed, GameOverButton::Restart)),
{
}

/// The game-over screen is terminal until restart is pressed: whatever else
/// happens, and however often, it stays up.
pub proof fn lemma_game_over_until_restart(events: Seq<GameEvent>)
    requires
        forall|i: int|
            0 <= i < events.len() ==> #[trigger] events[i] != GameEvent::Button(
                Interaction::Pressed,
                GameOverButton::Restart,
            ),
    ensures
        AppState::GameOver.run(events) == AppState::GameOver,
    decreases events.len(),
{
    if events.len() > 0 {
        let init = events.drop_last();
        assert forall|i: int| 0 <= i < init.len() implies #[trigger] init[i] != GameEvent::Button(
            Interaction::Pressed,
            GameOverButton::Restart,
        ) by {
            assert(init[i] == events[i]);
        }
        lemma_game_over_until_restart(init);
        assert(events[events.len() - 1] != GameEvent::Button(
            Interaction::Pressed,
            GameOverButton::Restart,
        ));
    }
}

} // verus!
