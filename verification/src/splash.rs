//! The splash screen's state-machine edges: what entering, leaving and
//! clicking through the splash state do to the HUD, and which delayed
//! application-state transition a click requests.

use vstd::prelude::*;

use crate::color::Color;
use crate::hud::{fade_requested, Hud};

verus! {

/// How long a click on the splash screen delays the switch into the game,
/// and how long the matching fade runs in and out.
pub const SPLASH_TRANSITION_MS: u32 = 500;

/// The application states the splash screen moves between. (`Hash` lets an
/// engine key its state sets by this type.)
#[derive(Clone, Copy, Debug, PartialEq, Eq, Hash, Structural)]
pub enum AppState {
    Splash,
    InGame,
}

/// A request to switch the application state after a delay.
#[derive(Clone, Copy, Debug, PartialEq, Eq, Structural)]
pub struct StateTransition {
    pub state: AppState,
    pub delay_ms: u32,
}

/// Entering the splash state: fills the title, version and build-date text
/// slots. (The splash music is started by the engine layer alongside this.)
pub fn show_splash(hud: &mut Hud)
    ensures
        final(hud).center_text@ == "Some Tank Game!\nBy Horup"@,
        final(hud).top_right_text@ == "build date 2021-10-10"@,
        final(hud).top_left_text@ == "v1.0"@,
        final(hud).console_text == old(hud).console_text,
        final(hud).bottom_center_text == old(hud).bottom_center_text,
        final(hud).foreground == old(hud).foreground,
        final(hud).fade_in_out == old(hud).fade_in_out,
        final(hud).show_console == old(hud).show_console,
{
    hud.center_text = "Some Tank Game!\nBy Horup".to_owned();
    hud.top_right_text = "build date 2021-10-10".to_owned();
    hud.top_left_text = "v1.0".to_owned();
}

/// Leaving the splash state: empties the four non-console text slots.
pub fn hide_splash(hud: &mut Hud)
    ensures
        final(hud).top_left_text@ == Seq::<char>::empty(),
        final(hud).top_right_text@ == Seq::<char>::empty(),
        final(hud).center_text@ == Seq::<char>::empty(),
        final(hud).bottom_center_text@ == Seq::<char>::empty(),
        final(hud).console_text == old(hud).console_text,
        final(hud).foreground == old(hud).foreground,
        final(hud).fade_in_out == old(hud).fade_in_out,
        final(hud).show_console == old(hud).show_console,
{
    hud.clear_texts();
}

/// One splash-state frame: a primary-pointer press requests the switch into
/// the game after [`SPLASH_TRANSITION_MS`] and starts a matching black fade;
/// without a press nothing happens.
pub fn update(just_pressed: bool, hud: &mut Hud) -> (transition: Option<StateTransition>)
    ensures
        !just_pressed ==> transition is None && *final(hud) == *old(hud),
        just_pressed ==> {
            &&& transition == Some(StateTransition {
                state: AppState::InGame,
                delay_ms: SPLASH_TRANSITION_MS,
            })
            &&& fade_requested(
                *old(hud),
                *final(hud),
                SPLASH_TRANSITION_MS,
                SPLASH_TRANSITION_MS,
                Color { r: 0, g: 0, b: 0, a: crate::color::COLOR_SCALE },
            )
        },
        old(hud).wf() ==> final(hud).wf(),
{
    if just_pressed {
        let black = Color::black();
        hud.fade(SPLASH_TRANSITION_MS, SPLASH_TRANSITION_MS, black);
        Some(StateTransition { state: AppState::InGame, delay_ms: SPLASH_TRANSITION_MS })
    } else {
        None
    }
}

} // verus!
