//! The screens around the game: the title screen's key, the setup step and
//! the game-over teardown.

use vstd::prelude::*;

use crate::components::AppState;
use crate::components::DespawnAction;

verus! {

/// On the title screen, the space key starts the game setup.
pub fn key_press(just_space: bool) -> (r: Option<AppState>)
    ensures
        r == (if just_space {
            Some(AppState::GameSetup)
        } else {
            None::<AppState>
        }),
{
    if just_space {
        Some(AppState::GameSetup)
    } else {
        None
    }
}

/// The setup screen hands straight over to play.
pub fn setup_setupgame() -> (r: AppState)
    ensures
        r == AppState::InGame,
{
    AppState::InGame
}

/// Game over: every sprite entity is removed and the title screen returns.
pub fn destruct_game(sprite_entities: &Vec<u64>) -> (r: (Vec<DespawnAction>, AppState))
    ensures
        r.0@.len() == sprite_entities@.len(),
        forall|i: int|
            0 <= i < sprite_entities@.len() ==> r.0@[i] == (DespawnAction {
                entity: #[trigger] sprite_entities@[i],
                recursive: false,
            }),
        r.1 == AppState::MainMenu,
{
    let n = sprite_entities.len();
    let mut despawns: Vec<DespawnAction> = Vec::new();
    let mut i: usize = 0;
    while i < n
        invariant
            0 <= i <= n,
            n == sprite_entities@.len(),
            despawns@.len() == i,
            forall|j: int|
                0 <= j < i ==> despawns@[j] == (DespawnAction {
                    entity: #[trigger] sprite_entities@[j],
                    recursive: false,
                }),
        decreases n - i,
    {
        despawns.push(DespawnAction { entity: sprite_entities[i], recursive: false });
        i = i + 1;
    }
    (despawns, AppState::MainMenu)
}

} // verus!
