//! The scenes of a story, found by name.
//!
//! A catalog is built once from the scenes as they were loaded and never
//! changes afterwards. No two of its scenes share a name. Whether every
//! option leads to a scene that exists is not looked at when the catalog is
//! built: a missing destination shows when the player goes there.

use vstd::prelude::*;
use vstd::string::*;
use crate::scene::{scene_views, Scene, SceneID, SceneView};

verus! {

/// Some scene of `scenes` is named `tag`.
pub open spec fn has_tag(scenes: Seq<SceneView>, tag: Seq<char>) -> bool {
    exists|i: int| 0 <= i < scenes.len() && (#[trigger] scenes[i]).tag == tag
}

/// The scene at place `i` is the first one of `scenes` that is named `tag`.
pub open spec fn is_first_with_tag(scenes: Seq<SceneView>, tag: Seq<char>, i: int) -> bool {
    &&& 0 <= i < scenes.len()
    &&& scenes[i].tag == tag
    &&& forall|j: int| 0 <= j < i ==> (#[trigger] scenes[j]).tag != tag
}

/// The place of the first scene at or after `from` that is named `tag`, or
/// the number of scenes if there is none.
pub open spec fn first_with_tag(scenes: Seq<SceneView>, tag: Seq<char>, from: int) -> int
    decreases scenes.len() - from,
{
    if from >= scenes.len() {
        scenes.len() as int
    } else if scenes[from].tag == tag {
        from
    } else {
        first_with_tag(scenes, tag, from + 1)
    }
}

/// The place of the first scene named `tag`, if there is such a scene.
pub open spec fn tag_position(scenes: Seq<SceneView>, tag: Seq<char>) -> Option<int> {
    let i = first_with_tag(scenes, tag, 0);
    if i < scenes.len() {
        Some(i)
    } else {
        None
    }
}

/// `first_with_tag` finds the first scene of that name from `from` on, and
/// runs to the end only if there is none.
pub proof fn lemma_first_with_tag(scenes: Seq<SceneView>, tag: Seq<char>, from: int)
    requires
        0 <= from <= scenes.len(),
    ensures
        from <= first_with_tag(scenes, tag, from) <= scenes.len(),
        forall|j: int|
            from <= j < first_with_tag(scenes, tag, from) ==> (#[trigger] scenes[j]).tag != tag,
        first_with_tag(scenes, tag, from) < scenes.len() ==> scenes[first_with_tag(
            scenes,
            tag,
            from,
        )].tag == tag,
    decreases scenes.len() - from,
{
    if from < scenes.len() && scenes[from].tag != tag {
        lemma_first_with_tag(scenes, tag, from + 1);
    }
}

/// `tag_position` is the place of the first scene of that name, and is
/// `None` exactly when no scene has the name.
pub proof fn lemma_tag_position(scenes: Seq<SceneView>, tag: Seq<char>)
    ensures
        match tag_position(scenes, tag) {
            Some(i) => is_first_with_tag(scenes, tag, i),
            None => !has_tag(scenes, tag),
        },
        forall|i: int| is_first_with_tag(scenes, tag, i) ==> tag_position(scenes, tag) == Some(i),
{
    lemma_first_with_tag(scenes, tag, 0);
}

/// No two scenes of `scenes` share a name.
pub open spec fn distinct_tags(scenes: Seq<SceneView>) -> bool {
    forall|i: int, j: int|
        0 <= i < j < scenes.len() ==> (#[trigger] scenes[i]).tag != (#[trigger] scenes[j]).tag
}

/// The scene at place `j` has the name of a scene before it, and is the
/// first scene of which that is true.
pub open spec fn is_first_repeat(scenes: Seq<SceneView>, j: int) -> bool {
    &&& 0 <= j < scenes.len()
    &&& has_tag(scenes.subrange(0, j), scenes[j].tag)
    &&& distinct_tags(scenes.subrange(0, j))
}

/// The place of the first scene named `tag`, if there is such a scene.
pub fn scene_index_from_tag(scenes: &Vec<Scene>, tag: &SceneID) -> (res: Option<usize>)
    ensures
        match res {
            Some(i) => {
                &&& is_first_with_tag(scene_views(scenes@), tag@, i as int)
                &&& tag_position(scene_views(scenes@), tag@) == Some(i as int)
            },
            None => {
                &&& !has_tag(scene_views(scenes@), tag@)
                &&& tag_position(scene_views(scenes@), tag@) is None
            },
        },
{
    let n: usize = scenes.len();
    let mut i: usize = 0;
    while i < n
        invariant
            i <= n,
            n == scenes@.len(),
            forall|j: int| 0 <= j < i ==> (#[trigger] scene_views(scenes@)[j]).tag != tag@,
        decreases n - i,
    {
        if scenes[i].tag == *tag {
            proof {
                assert(is_first_with_tag(scene_views(scenes@), tag@, i as int));
                lemma_tag_position(scene_views(scenes@), tag@);
            }
            return Some(i);
        }
        i += 1;
    }
    proof {
        lemma_tag_position(scene_views(scenes@), tag@);
    }
    None
}

/// How the notice for a name that two scenes share begins.
pub const DUPLICATE_HEAD: &'static str = "duplicate scene id: ";

/// Why a list of scenes is no catalog.
#[derive(Debug)]
pub enum LoadError {
    /// Two scenes share this name.
    DuplicateSceneID(SceneID),
}

impl LoadError {
    /// The error in words, for the player to read.
    pub fn message(&self) -> (res: String)
        ensures
            match self {
                LoadError::DuplicateSceneID(tag) => res@ == DUPLICATE_HEAD@ + tag@,
            },
    {
        match self {
            LoadError::DuplicateSceneID(tag) => {
                let mut res = String::from_str(DUPLICATE_HEAD);
                res.append(tag.as_str());
                res
            },
        }
    }
}

/// The scenes of a story, each under a name of its own.
#[derive(Debug)]
pub struct Catalog {
    scenes: Vec<Scene>,
}

impl View for Catalog {
    type V = Seq<SceneView>;

    closed spec fn view(&self) -> Seq<SceneView> {
        scene_views(self.scenes@)
    }
}

impl Catalog {
    /// What holds of every catalog: no two scenes share a name.
    #[verifier::type_invariant]
    closed spec fn names_are_distinct(&self) -> bool {
        distinct_tags(scene_views(self.scenes@))
    }

    /// Makes a catalog of `records`, in their order, unless two of them share
    /// a name. The error names the first record that repeats an earlier
    /// one.
    pub fn build(records: Vec<Scene>) -> (res: Result<Catalog, LoadError>)
        ensures
            res is Ok <==> distinct_tags(scene_views(records@)),
            match res {
                Ok(catalog) => catalog@ == scene_views(records@),
                Err(LoadError::DuplicateSceneID(tag)) => exists|j: int|
                    #![trigger scene_views(records@)[j]]
                    is_first_repeat(scene_views(records@), j) && tag@ == scene_views(
                        records@,
                    )[j].tag,
            },
    {
        let ghost views = scene_views(records@);
        let n: usize = records.len();
        let mut j: usize = 0;
        while j < n
            invariant
                j <= n,
                n == records@.len(),
                views == scene_views(records@),
                distinct_tags(views.subrange(0, j as int)),
            decreases n - j,
        {
            let found = scene_index_from_tag(&records, &records[j].tag);
            let ghost seen = views.subrange(0, j as int);
            proof {
                assert(views[j as int].tag == records[j as int].tag@);
            }
            if let Some(i) = found {
                if i != j {
                    proof {
                        assert(seen[i as int] == views[i as int]);
                    }
                    return Err(LoadError::DuplicateSceneID(records[j].tag.clone()));
                }
            }
            proof {
                let grown = views.subrange(0, j + 1);
                assert forall|a: int, b: int| 0 <= a < b < grown.len() implies (
                #[trigger] grown[a]).tag != (#[trigger] grown[b]).tag by {
                    if b < j {
                        assert(seen[a].tag != seen[b].tag);
                    } else {
                        assert(views[a].tag != views[j as int].tag);
                    }
                }
            }
            j += 1;
        }
        assert(views.subrange(0, n as int) =~= views);
        Ok(Catalog { scenes: records })
    }

    /// The scenes, in the order in which they were loaded.
    pub fn scenes(&self) -> (res: &Vec<Scene>)
        ensures
            scene_views(res@) == self@,
            distinct_tags(self@),
    {
        proof {
            use_type_invariant(self);
        }
        &self.scenes
    }

    /// The number of scenes.
    pub fn len(&self) -> (res: usize)
        ensures
            res == self@.len(),
    {
        self.scenes.len()
    }

    /// The scene named `id`, if the catalog holds one. No other scene of the
    /// catalog has that name.
    pub fn lookup(&self, id: &SceneID) -> (res: Option<&Scene>)
        ensures
            match res {
                Some(scene) => {
                    &&& scene@.tag == id@
                    &&& tag_position(self@, id@) is Some
                    &&& self@[tag_position(self@, id@).unwrap()] == scene@
                    &&& forall|j: int|
                        0 <= j < self@.len() && j != tag_position(self@, id@).unwrap() ==> (
                        #[trigger] self@[j]).tag != id@
                },
                None => !has_tag(self@, id@),
            },
    {
        proof {
            use_type_invariant(self);
        }
        match scene_index_from_tag(&self.scenes, id) {
            Some(i) => Some(&self.scenes[i]),
            None => None,
        }
    }

    /// The name of the scene with which the story begins: the first scene
    /// loaded.
    pub fn first_scene_id(&self) -> (res: &SceneID)
        requires
            self@.len() > 0,
        ensures
            res@ == self@[0].tag,
    {
        &self.scenes[0].tag
    }
}

} // verus!
