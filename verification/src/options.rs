//! Which of a scene's options the player is offered.
//!
//! An option is on offer while sanity lies in its range. The options on
//! offer keep the order in which the scene lists them; that order numbers
//! them for the player. A scene that offers nothing ends the story.

use vstd::prelude::*;
use crate::scene::{option_views, OptionView, Scene, SceneOption};
use crate::state::Gamestate;

verus! {

/// The options of `options` that are on offer at `sanity`, in their order.
pub open spec fn visible_options(options: Seq<OptionView>, sanity: int) -> Seq<OptionView> {
    options.filter(|o: OptionView| o.visible_at(sanity))
}

/// An option is among those on offer exactly when the scene lists it and
/// `sanity` lies in its range.
pub proof fn lemma_visible_options_membership(
    options: Seq<OptionView>,
    sanity: int,
    option: OptionView,
)
    ensures
        visible_options(options, sanity).contains(option) <==> options.contains(option)
            && option.visible_at(sanity),
{
    let on_offer = |o: OptionView| o.visible_at(sanity);
    let shown = options.filter(on_offer);
    if shown.contains(option) {
        let k = choose|k: int| 0 <= k < shown.len() && shown[k] == option;
        options.lemma_filter_pred(on_offer, k);
        options.lemma_filter_contains_rev(on_offer, option);
    }
    if options.contains(option) && option.visible_at(sanity) {
        let i = choose|i: int| 0 <= i < options.len() && options[i] == option;
        options.lemma_filter_contains(on_offer, i);
    }
}

/// The options on offer stand in the order in which the scene lists them.
///
/// The result gives, for each option on offer, its place in the scene's
/// list. The places rise strictly, each holds the option that is offered
/// there, and no place whose option is on offer is left out.
pub proof fn lemma_visible_options_keep_order(options: Seq<OptionView>, sanity: int) -> (places:
    Seq<int>)
    ensures
        places.len() == visible_options(options, sanity).len(),
        forall|k: int|
            0 <= k < places.len() ==> 0 <= #[trigger] places[k] < options.len()
                && options[places[k]] == visible_options(options, sanity)[k],
        forall|k: int, l: int| 0 <= k < l < places.len() ==> places[k] < places[l],
        forall|i: int|
            0 <= i < options.len() && (#[trigger] options[i]).visible_at(sanity)
                ==> places.contains(i),
    decreases options.len(),
{
    let on_offer = |o: OptionView| o.visible_at(sanity);
    reveal(Seq::filter);
    if options.len() == 0 {
        Seq::empty()
    } else {
        let init = options.drop_last();
        let last = options.len() - 1;
        let before = lemma_visible_options_keep_order(init, sanity);
        let places = if options[last].visible_at(sanity) {
            before.push(last)
        } else {
            before
        };
        assert forall|i: int|
            0 <= i < options.len() && (#[trigger] options[i]).visible_at(
                sanity,
            ) implies places.contains(i) by {
            if i < last {
                assert(init[i] == options[i]);
                let k = choose|k: int| 0 <= k < before.len() && before[k] == i;
                assert(places[k] == i);
            } else {
                assert(places[places.len() - 1] == i);
            }
        }
        places
    }
}

/// Filtering has no memory: two lists that each meet the contract of
/// `Scene::visible_options` for scenes and sanities that are alike hold the
/// same options in the same order.
pub proof fn lemma_visible_options_is_repeatable(
    first: Scene,
    second: Scene,
    sanity: i32,
    first_list: Vec<SceneOption>,
    second_list: Vec<SceneOption>,
)
    requires
        first@ == second@,
        option_views(first_list@) == visible_options(first@.options, sanity as int),
        option_views(second_list@) == visible_options(second@.options, sanity as int),
    ensures
        option_views(first_list@) == option_views(second_list@),
        first_list@.len() == second_list@.len(),
{
    assert(option_views(first_list@).len() == first_list@.len());
    assert(option_views(second_list@).len() == second_list@.len());
}

impl Scene {
    /// The options of this scene that are on offer at `sanity`, in the order
    /// in which the scene lists them.
    pub fn visible_options(&self, sanity: i32) -> (res: Vec<SceneOption>)
        ensures
            option_views(res@) == visible_options(self@.options, sanity as int),
    {
        let n: usize = self.options.len();
        let ghost on_offer = |o: OptionView| o.visible_at(sanity as int);
        let mut res: Vec<SceneOption> = Vec::new();
        let mut i: usize = 0;
        proof {
            reveal(Seq::filter);
        }
        while i < n
            invariant
                i <= n,
                n == self.options@.len(),
                on_offer == (|o: OptionView| o.visible_at(sanity as int)),
                option_views(res@) == self@.options.subrange(0, i as int).filter(on_offer),
            decreases n - i,
        {
            let ghost before = self@.options.subrange(0, i as int);
            let opt = &self.options[i];
            proof {
                assert(self@.options.subrange(0, i + 1) =~= before.push(opt@));
                before.lemma_filter_push(opt@, on_offer);
            }
            if opt.visible_at(sanity) {
                res.push(opt.clone());
            }
            i += 1;
        }
        assert(self@.options.subrange(0, n as int) =~= self@.options);
        res
    }
}

/// The options on offer in the scene that `state` stands in.
pub fn get_valid_options_list(scenes: &Vec<Scene>, state: &Gamestate) -> (res: Vec<SceneOption>)
    requires
        state.scene_i < scenes.len(),
    ensures
        option_views(res@) == visible_options(
            scenes[state.scene_i as int]@.options,
            state.sanity as int,
        ),
{
    scenes[state.scene_i].visible_options(state.sanity)
}

} // verus!
