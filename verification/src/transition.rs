//! What choosing an option does to the player's position.
//!
//! The option's change is added to sanity and the sum is brought back
//! between the two bounds; the player then stands in the scene that the
//! option leads to. An option that leads to no scene of the catalog moves
//! nobody: the turn fails and the state it was given stands as it was.

use vstd::prelude::*;
use vstd::math::{max, min};
use crate::catalog::{has_tag, lemma_tag_position, scene_index_from_tag, tag_position, Catalog};
use crate::render::{unknown_scene, unknown_scene_text};
use crate::scene::{OptionView, SceneID, SceneOption, SceneView};
use crate::state::{Gamestate, GamestateView, MAX_SAN, MIN_SAN};

verus! {

/// `value`, brought back between the two bounds of sanity.
pub open spec fn clamp_sanity(value: int) -> int {
    max(MIN_SAN as int, min(MAX_SAN as int, value))
}

/// Where the player stands after choosing `chosen` in `state`, if `chosen`
/// leads to a scene of `catalog`.
pub open spec fn moved(
    catalog: Seq<SceneView>,
    state: GamestateView,
    chosen: OptionView,
) -> Option<GamestateView> {
    match tag_position(catalog, chosen.to_scene) {
        Some(i) => Some(
            GamestateView {
                scene_tag: chosen.to_scene,
                scene_i: i as nat,
                sanity: clamp_sanity(state.sanity + chosen.san_change),
            },
        ),
        None => None,
    }
}

/// Clamping brings every number between the two bounds, leaves alone what
/// lies between them, and sends what lies outside to the nearer bound.
pub proof fn lemma_clamp_sanity(value: int)
    ensures
        MIN_SAN <= clamp_sanity(value) <= MAX_SAN,
        MIN_SAN <= value <= MAX_SAN ==> clamp_sanity(value) == value,
        value < MIN_SAN ==> clamp_sanity(value) == MIN_SAN,
        value > MAX_SAN ==> clamp_sanity(value) == MAX_SAN,
{
}

/// A turn moves the player exactly when the option leads to a scene of the
/// catalog. The player then stands in the first scene of that name, with
/// sanity changed and clamped; failing that, nobody is moved.
pub proof fn lemma_moved(catalog: Seq<SceneView>, state: GamestateView, chosen: OptionView)
    ensures
        moved(catalog, state, chosen) is Some <==> has_tag(catalog, chosen.to_scene),
        moved(catalog, state, chosen) matches Some(next) ==> {
            &&& next.points_into(catalog)
            &&& next.in_band()
            &&& next.scene_tag == chosen.to_scene
            &&& next.sanity == max(
                MIN_SAN as int,
                min(MAX_SAN as int, state.sanity + chosen.san_change),
            )
        },
{
    lemma_tag_position(catalog, chosen.to_scene);
}

/// Why a turn could not be played.
#[derive(Debug)]
pub enum TransitionError {
    /// The chosen option leads to a scene of this name, and the catalog has
    /// none.
    UnknownDestination(SceneID),
}

impl TransitionError {
    /// The error in words, for the player to read.
    pub fn message(&self) -> (res: String)
        ensures
            match self {
                TransitionError::UnknownDestination(tag) => res@ == unknown_scene_text(tag@),
            },
    {
        match self {
            TransitionError::UnknownDestination(tag) => unknown_scene(tag),
        }
    }
}

/// Sanity after a change: the sum, brought back between the two bounds.
pub fn shift_sanity(sanity: i32, change: i32) -> (res: i32)
    ensures
        res == clamp_sanity(sanity + change),
{
    let sum: i64 = sanity as i64 + change as i64;
    if sum > MAX_SAN as i64 {
        MAX_SAN
    } else if sum < MIN_SAN as i64 {
        MIN_SAN
    } else {
        sum as i32
    }
}

/// Plays one turn: the state after choosing `chosen` in `state`.
///
/// Fails exactly when `chosen` leads to no scene of `catalog`; the error
/// carries the name that was not found.
pub fn apply(catalog: &Catalog, state: &Gamestate, chosen: &SceneOption) -> (res: Result<
    Gamestate,
    TransitionError,
>)
    ensures
        res is Err <==> !has_tag(catalog@, chosen@.to_scene),
        match res {
            Ok(next) => {
                &&& moved(catalog@, state@, chosen@) == Some(next@)
                &&& next.sanity == clamp_sanity(state.sanity + chosen.san_change)
                &&& next@.in_band()
                &&& next@.points_into(catalog@)
            },
            Err(TransitionError::UnknownDestination(tag)) => {
                &&& moved(catalog@, state@, chosen@) is None
                &&& tag@ == chosen@.to_scene
            },
        },
{
    proof {
        lemma_moved(catalog@, state@, chosen@);
    }
    let sanity = shift_sanity(state.sanity, chosen.san_change);
    match scene_index_from_tag(catalog.scenes(), &chosen.to_scene) {
        Some(i) => Ok(Gamestate { scene_tag: chosen.to_scene.clone(), scene_i: i, sanity }),
        None => Err(TransitionError::UnknownDestination(chosen.to_scene.clone())),
    }
}

} // verus!
