//! The game's states and the menu's play button.

use vstd::prelude::*;

verus! {

/// The state the game is in.
#[derive(Clone, Copy, Debug, PartialEq, Eq, Structural)]
pub enum GameState {
    /// Assets are loading.
    Loading,
    /// A play session runs.
    Playing,
    /// The menu is shown, waiting for the player.
    Menu,
}

/// What the pointer is doing with a button.
#[derive(Clone, Copy, Debug, PartialEq, Eq, Structural)]
pub enum Interaction {
    Clicked,
    Hovered,
    Idle,
}

/// The colour a button is drawn in.
#[derive(Clone, Copy, Debug, PartialEq, Eq, Structural)]
pub enum ButtonShade {
    Normal,
    Hovered,
}

/// What the play button does: a state to switch to, a shade to take.
#[derive(Clone, Copy, Debug, PartialEq, Eq, Structural)]
pub struct ButtonResponse {
    pub next_state: Option<GameState>,
    pub shade: Option<ButtonShade>,
}

/// A click starts a play session; hovering, or leaving, the button changes
/// its shade.
pub open spec fn response_to(interaction: Interaction) -> ButtonResponse {
    match interaction {
        Interaction::Clicked => ButtonResponse { next_state: Some(GameState::Playing), shade: None },
        Interaction::Hovered => ButtonResponse {
            next_state: None,
            shade: Some(ButtonShade::Hovered),
        },
        Interaction::Idle => ButtonResponse { next_state: None, shade: Some(ButtonShade::Normal) },
    }
}

/// Answers a change of the play button's interaction.
pub fn click_play_button(interaction: Interaction) -> (r: ButtonResponse)
    ensures
        r == response_to(interaction),
{
    match interaction {
        Interaction::Clicked => ButtonResponse { next_state: Some(GameState::Playing), shade: None },
        Interaction::Hovered => ButtonResponse {
            next_state: None,
            shade: Some(ButtonShade::Hovered),
        },
        Interaction::Idle => ButtonResponse { next_state: None, shade: Some(ButtonShade::Normal) },
    }
}

} // verus!
