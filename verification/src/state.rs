//! The player's position in the story.

use vstd::prelude::*;
use crate::scene::{SceneID, SceneView};

verus! {

/// The least sanity a player can have.
pub const MIN_SAN: i32 = 0;

/// The most sanity a player can have.
pub const MAX_SAN: i32 = 100;

/// The sanity with which a story begins.
pub const START_SAN: i32 = 100;

/// Where the player stands and how sane they are: the one thing that changes
/// as a story is played.
#[derive(Debug)]
pub struct Gamestate {
    /// The name of the current scene.
    pub scene_tag: SceneID,
    /// The place of the current scene in the list of scenes.
    pub scene_i: usize,
    pub sanity: i32,
}

/// What a game state is, as mathematics.
pub struct GamestateView {
    pub scene_tag: Seq<char>,
    pub scene_i: nat,
    pub sanity: int,
}

impl View for Gamestate {
    type V = GamestateView;

    open spec fn view(&self) -> GamestateView {
        GamestateView {
            scene_tag: self.scene_tag@,
            scene_i: self.scene_i as nat,
            sanity: self.sanity as int,
        }
    }
}

impl Clone for Gamestate {
    fn clone(&self) -> (res: Self)
        ensures
            res@ == self@,
    {
        Gamestate {
            scene_tag: self.scene_tag.clone(),
            scene_i: self.scene_i,
            sanity: self.sanity,
        }
    }
}

impl GamestateView {
    /// Sanity lies between the two bounds.
    pub open spec fn in_band(self) -> bool {
        MIN_SAN <= self.sanity <= MAX_SAN
    }

    /// The state names a scene of `scenes`, by place and by name alike.
    pub open spec fn points_into(self, scenes: Seq<SceneView>) -> bool {
        self.scene_i < scenes.len() && scenes[self.scene_i as int].tag == self.scene_tag
    }
}

} // verus!
