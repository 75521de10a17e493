//! The data model: scene identifiers, descriptions, options and scenes,
//! each with the mathematical view that the contracts speak of.

use vstd::prelude::*;

verus! {

/// The name of a scene. Two identifiers are the same scene exactly when
/// their characters are equal, case included.
#[derive(Debug)]
pub struct SceneID(pub String);

impl View for SceneID {
    type V = Seq<char>;

    open spec fn view(&self) -> Seq<char> {
        self.0@
    }
}

impl SceneID {
    /// The name as text.
    pub fn as_str(&self) -> (res: &str)
        ensures
            res@ == self@,
    {
        self.0.as_str()
    }
}

impl Clone for SceneID {
    fn clone(&self) -> (res: Self)
        ensures
            res@ == self@,
    {
        SceneID(self.0.clone())
    }
}

impl PartialEq for SceneID {
    fn eq(&self, other: &Self) -> (res: bool) {
        self.0 == other.0
    }
}

impl Eq for SceneID {}

impl vstd::std_specs::cmp::PartialEqSpecImpl for SceneID {
    open spec fn obeys_eq_spec() -> bool {
        true
    }

    open spec fn eq_spec(&self, other: &Self) -> bool {
        self@ == other@
    }
}

/// One candidate narration of a scene.
#[derive(Debug)]
pub struct Desc {
    pub text: String,
    pub min_san: i32,
}

/// What a description is, as mathematics.
pub struct DescView {
    pub text: Seq<char>,
    pub min_san: int,
}

impl DescView {
    /// A description may be shown when sanity has not fallen below its floor.
    pub open spec fn qualifies(self, sanity: int) -> bool {
        self.min_san <= sanity
    }
}

impl View for Desc {
    type V = DescView;

    open spec fn view(&self) -> DescView {
        DescView { text: self.text@, min_san: self.min_san as int }
    }
}

impl Desc {
    /// Whether this description may be shown at `sanity`.
    pub fn qualifies(&self, sanity: i32) -> (res: bool)
        ensures
            res == self@.qualifies(sanity as int),
    {
        sanity >= self.min_san
    }
}

/// One choice that a scene offers the player.
///
/// It is on offer while sanity lies between `min_san` and `max_san`, both
/// included. Choosing it narrates `text_when_chosen`, adds `san_change` to
/// sanity and moves the player to `to_scene`.
#[derive(Debug)]
pub struct SceneOption {
    pub to_scene: SceneID,
    pub text: String,
    pub text_when_chosen: String,
    pub min_san: i32,
    pub max_san: i32,
    pub san_change: i32,
}

/// What an option is, as mathematics.
pub struct OptionView {
    pub to_scene: Seq<char>,
    pub text: Seq<char>,
    pub text_when_chosen: Seq<char>,
    pub min_san: int,
    pub max_san: int,
    pub san_change: int,
}

impl OptionView {
    /// An option is on offer while sanity lies in its closed range.
    pub open spec fn visible_at(self, sanity: int) -> bool {
        self.min_san <= sanity <= self.max_san
    }
}

impl View for SceneOption {
    type V = OptionView;

    open spec fn view(&self) -> OptionView {
        OptionView {
            to_scene: self.to_scene@,
            text: self.text@,
            text_when_chosen: self.text_when_chosen@,
            min_san: self.min_san as int,
            max_san: self.max_san as int,
            san_change: self.san_change as int,
        }
    }
}

impl Clone for SceneOption {
    fn clone(&self) -> (res: Self)
        ensures
            res@ == self@,
    {
        SceneOption {
            to_scene: self.to_scene.clone(),
            text: self.text.clone(),
            text_when_chosen: self.text_when_chosen.clone(),
            min_san: self.min_san,
            max_san: self.max_san,
            san_change: self.san_change,
        }
    }
}

impl SceneOption {
    /// Whether this option is on offer at `sanity`.
    pub fn visible_at(&self, sanity: i32) -> (res: bool)
        ensures
            res == self@.visible_at(sanity as int),
    {
        self.max_san >= sanity && sanity >= self.min_san
    }
}

/// A node of the story: a name, the candidate descriptions in order of
/// precedence, and the options in the order in which they are numbered.
#[derive(Debug)]
pub struct Scene {
    pub tag: SceneID,
    pub descs: Vec<Desc>,
    pub options: Vec<SceneOption>,
}

/// What a scene is, as mathematics.
pub struct SceneView {
    pub tag: Seq<char>,
    pub descs: Seq<DescView>,
    pub options: Seq<OptionView>,
}

/// The views of a run of descriptions, in the same order.
pub open spec fn desc_views(descs: Seq<Desc>) -> Seq<DescView> {
    descs.map_values(|d: Desc| d@)
}

/// The views of a run of options, in the same order.
pub open spec fn option_views(options: Seq<SceneOption>) -> Seq<OptionView> {
    options.map_values(|o: SceneOption| o@)
}

/// The views of a run of scenes, in the same order.
pub open spec fn scene_views(scenes: Seq<Scene>) -> Seq<SceneView> {
    scenes.map_values(|s: Scene| s@)
}

impl View for Scene {
    type V = SceneView;

    open spec fn view(&self) -> SceneView {
        SceneView {
            tag: self.tag@,
            descs: desc_views(self.descs@),
            options: option_views(self.options@),
        }
    }
}

} // verus!
