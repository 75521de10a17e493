//! Which of a scene's descriptions the player reads.
//!
//! The descriptions are tried in order and the first one whose floor the
//! player's sanity reaches is shown. A scene that has none to show is
//! described by a notice that names the scene and counts its descriptions.

use vstd::prelude::*;
use vstd::string::*;
use crate::scene::{DescView, Scene, SceneID, SceneView};
use crate::state::Gamestate;
use crate::text::{decimal, decimal_string, occurs_in};

verus! {

/// How the notice for a scene without a fitting description begins.
pub const MISSING_HEAD: &'static str =
    "Strange. You've entered a bizarre land, with no valid descriptions for the room you find yourself in.\nScene ID: ";

/// What stands between the scene's name and the count.
pub const MISSING_MIDDLE: &'static str = "\n(The scene has ";

/// How the notice ends.
pub const MISSING_TAIL: &'static str = " descs that have a min sanity above your current one.";

/// The place of the first description at or after `from` that may be shown
/// at `sanity`, or the number of descriptions if there is none.
pub open spec fn first_qualifying(descs: Seq<DescView>, sanity: int, from: int) -> int
    decreases descs.len() - from,
{
    if from >= descs.len() {
        descs.len() as int
    } else if descs[from].qualifies(sanity) {
        from
    } else {
        first_qualifying(descs, sanity, from + 1)
    }
}

/// The notice shown for the scene named `tag` when none of its `count`
/// descriptions fits.
pub open spec fn fallback_text(tag: Seq<char>, count: nat) -> Seq<char> {
    MISSING_HEAD@ + tag + MISSING_MIDDLE@ + decimal(count) + MISSING_TAIL@
}

/// What the player reads of `scene` at `sanity`.
pub open spec fn select_text(scene: SceneView, sanity: int) -> Seq<char> {
    let i = first_qualifying(scene.descs, sanity, 0);
    if i < scene.descs.len() {
        scene.descs[i].text
    } else {
        fallback_text(scene.tag, scene.descs.len())
    }
}

/// `first_qualifying` finds the first description from `from` on that may
/// be shown, and runs to the end only if there is none.
pub proof fn lemma_first_qualifying(descs: Seq<DescView>, sanity: int, from: int)
    requires
        0 <= from <= descs.len(),
    ensures
        from <= first_qualifying(descs, sanity, from) <= descs.len(),
        forall|j: int|
            from <= j < first_qualifying(descs, sanity, from) ==> !(#[trigger] descs[j]).qualifies(
                sanity,
            ),
        first_qualifying(descs, sanity, from) < descs.len() ==> descs[first_qualifying(
            descs,
            sanity,
            from,
        )].qualifies(sanity),
    decreases descs.len() - from,
{
    if from < descs.len() && !descs[from].qualifies(sanity) {
        lemma_first_qualifying(descs, sanity, from + 1);
    }
}

/// First match wins: if the description at place `i` may be shown at
/// `sanity` and none before it may, its text is the one selected, whatever
/// comes after it.
pub proof fn lemma_select_takes_first_match(scene: SceneView, sanity: int, i: int)
    requires
        0 <= i < scene.descs.len(),
        scene.descs[i].qualifies(sanity),
        forall|j: int| 0 <= j < i ==> !(#[trigger] scene.descs[j]).qualifies(sanity),
    ensures
        select_text(scene, sanity) == scene.descs[i].text,
{
    lemma_first_qualifying(scene.descs, sanity, 0);
}

/// If no description may be shown at `sanity`, what is selected is the
/// notice, and the notice holds the scene's name and the number of its
/// descriptions, written in base ten.
pub proof fn lemma_select_falls_back(scene: SceneView, sanity: int)
    requires
        forall|j: int|
            0 <= j < scene.descs.len() ==> !(#[trigger] scene.descs[j]).qualifies(sanity),
    ensures
        select_text(scene, sanity) == fallback_text(scene.tag, scene.descs.len()),
        occurs_in(scene.tag, select_text(scene, sanity)),
        occurs_in(decimal(scene.descs.len()), select_text(scene, sanity)),
{
    lemma_first_qualifying(scene.descs, sanity, 0);
    let count = decimal(scene.descs.len());
    let whole = fallback_text(scene.tag, scene.descs.len());
    let a = MISSING_HEAD@.len() as int;
    let b = a + scene.tag.len() + MISSING_MIDDLE@.len();
    assert(whole.subrange(a, a + scene.tag.len()) =~= scene.tag);
    assert(whole.subrange(b, b + count.len()) =~= count);
}

/// Selecting has no memory: two texts that each meet the contract of
/// `Scene::select` for scenes and sanities that are alike are the same
/// text.
pub proof fn lemma_select_is_repeatable(
    first: Scene,
    second: Scene,
    sanity: i32,
    first_text: String,
    second_text: String,
)
    requires
        first@ == second@,
        first_text@ == select_text(first@, sanity as int),
        second_text@ == select_text(second@, sanity as int),
    ensures
        first_text@ == second_text@,
{
}

/// Writes the notice for a scene without a fitting description.
pub fn fallback(tag: &SceneID, count: usize) -> (res: String)
    ensures
        res@ == fallback_text(tag@, count as nat),
{
    let mut res = String::from_str(MISSING_HEAD);
    res.append(tag.as_str());
    res.append(MISSING_MIDDLE);
    res.append(decimal_string(count).as_str());
    res.append(MISSING_TAIL);
    res
}

impl Scene {
    /// The text to show for this scene at `sanity`: that of the first
    /// description whose floor `sanity` reaches, or the notice if no
    /// description fits.
    pub fn select(&self, sanity: i32) -> (res: String)
        ensures
            res@ == select_text(self@, sanity as int),
    {
        let n: usize = self.descs.len();
        let mut i: usize = 0;
        while i < n
            invariant
                i <= n,
                n == self.descs@.len(),
                first_qualifying(self@.descs, sanity as int, 0) == first_qualifying(
                    self@.descs,
                    sanity as int,
                    i as int,
                ),
            decreases n - i,
        {
            if self.descs[i].qualifies(sanity) {
                return self.descs[i].text.clone();
            }
            i += 1;
        }
        fallback(&self.tag, n)
    }
}

/// The text to show for the scene that `state` stands in.
pub fn get_desc(scenes: &Vec<Scene>, state: &Gamestate) -> (res: String)
    requires
        state.scene_i < scenes.len(),
    ensures
        res@ == select_text(scenes[state.scene_i as int]@, state.sanity as int),
{
    scenes[state.scene_i].select(state.sanity)
}

} // verus!
