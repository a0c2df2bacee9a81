//! Value sources for targets whose objects live in a scene graph and whose
//! layout is only known to the target's own type metadata.

use vstd::prelude::*;
use vstd::string::StringExecFns;
use crate::error::WatchError;
use crate::watchers::pointer_path::PointerSize;

pub mod field_path;
pub mod game_object;
pub mod offsets;

pub use field_path::{settle_component, MonoBehaviourFieldPath};
pub use game_object::GameObjectActivePath;
pub use offsets::{class_found, pointer_followed, OffsetCache, OFFSET_CAPACITY};

verus! {

/// The scene graph of the target, as far as this crate looks at it.
///
/// An object is known by its address. Nothing is promised of any answer: the
/// target loads and unloads scenes, and destroys and recreates objects,
/// whenever it likes. A graph may say of itself which answers it may give,
/// through the `may_` predicates; one that says nothing allows every answer.
pub trait SceneGraph {
    /// Whether the graph may give `answer` for the name of the active scene.
    open spec fn may_name_scene(&self, answer: Option<Seq<char>>) -> bool {
        true
    }

    /// Whether the graph may give `answer` for the object `name` at the root.
    open spec fn may_find_root(&self, name: Seq<char>, answer: Option<u64>) -> bool {
        true
    }

    /// Whether the graph may give `answer` for the child `name` of `object`.
    open spec fn may_find_child(&self, object: u64, name: Seq<char>, answer: Option<u64>) -> bool {
        true
    }

    /// Whether the graph may give `answer` for the active flag of `object`.
    open spec fn may_tell_active(&self, object: u64, answer: Option<bool>) -> bool {
        true
    }

    /// Whether the graph may give `answer` for the component of type
    /// `component_type` on `object`.
    open spec fn may_find_component(
        &self,
        object: u64,
        component_type: Seq<char>,
        answer: Option<u64>,
    ) -> bool {
        true
    }

    /// The name of the scene that is active, unless it cannot be had.
    fn current_scene_name(&self) -> (answer: Option<String>)
        ensures
            self.may_name_scene(option_text(answer)),
    ;

    /// The object of that name at the root of the active scene.
    fn find_root_object(&self, name: &str) -> (answer: Option<u64>)
        ensures
            self.may_find_root(name@, answer),
    ;

    /// The child of that name directly below `object`.
    fn find_child(&self, object: u64, name: &str) -> (answer: Option<u64>)
        ensures
            self.may_find_child(object, name@, answer),
    ;

    /// Whether `object` and all of its ancestors are active, unless the flag
    /// cannot be read.
    fn is_active_in_hierarchy(&self, object: u64) -> (answer: Option<bool>)
        ensures
            self.may_tell_active(object, answer),
    ;

    /// The component of that type on `object`.
    fn find_component(&self, object: u64, component_type: &str) -> (answer: Option<u64>)
        ensures
            self.may_find_component(object, component_type@, answer),
    ;
}

/// What the target knows of its own types. As with a [`SceneGraph`], nothing
/// is promised of any answer.
pub trait TypeMetadata {
    /// Whether the metadata may give `answer` for the class of `object`.
    open spec fn may_tell_class(&self, object: u64, answer: Option<u64>) -> bool {
        true
    }

    /// Whether the metadata may give `answer` for the offset of the field
    /// `field_name` in `class`.
    open spec fn may_tell_offset(
        &self,
        class: u64,
        field_name: Seq<char>,
        answer: Option<u32>,
    ) -> bool {
        true
    }

    /// The class of the object at that address.
    fn class_of(&self, object: u64) -> (answer: Option<u64>)
        ensures
            self.may_tell_class(object, answer),
    ;

    /// The offset in bytes of the field of that name in an instance of
    /// `class`.
    fn get_field_offset(&self, class: u64, field_name: &str) -> (answer: Option<u32>)
        ensures
            self.may_tell_offset(class, field_name@, answer),
    ;
}

/// Something that can follow a single pointer of the target. Nothing is
/// promised of any answer here either.
pub trait PointerReadable {
    /// Whether the store may give `answer` for the pointer at `address`.
    open spec fn may_point(
        &self,
        address: u64,
        pointer_size: PointerSize,
        answer: Option<u64>,
    ) -> bool {
        true
    }

    /// The pointer of that width that is stored at `address`.
    fn read_pointer(&self, address: u64, pointer_size: PointerSize) -> (answer: Option<u64>)
        ensures
            self.may_point(address, pointer_size, answer),
    ;
}

/// Whether a walk through `graph` may arrive at `object`: from the object
/// `root` at the root, down the children that `path` names.
pub open spec fn may_reach<G: SceneGraph>(
    graph: &G,
    root: Seq<char>,
    path: Seq<Seq<char>>,
    object: u64,
) -> bool
    decreases path.len(),
{
    if path.len() == 0 {
        graph.may_find_root(root, Some(object))
    } else {
        exists|parent: u64|
            may_reach(graph, root, path.drop_last(), parent) && #[trigger] graph.may_find_child(
                parent,
                path.last(),
                Some(object),
            )
    }
}

/// One more child found is one more name on the way.
pub proof fn lemma_walk_goes_on<G: SceneGraph>(
    graph: &G,
    root: Seq<char>,
    path: Seq<Seq<char>>,
    parent: u64,
    object: u64,
)
    requires
        path.len() > 0,
        may_reach(graph, root, path.drop_last(), parent),
        graph.may_find_child(parent, path.last(), Some(object)),
    ensures
        may_reach(graph, root, path, object),
{
}

/// Whether a walk through `graph` may get lost on the way: there is no
/// object `root` at the root, or an object on the way has no child of the
/// name that comes next.
pub open spec fn may_get_lost<G: SceneGraph>(
    graph: &G,
    root: Seq<char>,
    path: Seq<Seq<char>>,
) -> bool {
    graph.may_find_root(root, None) || exists|at: int, parent: u64|
        0 <= at < path.len() && may_reach(graph, root, path.take(at), parent)
            && #[trigger] graph.may_find_child(parent, path[at], None)
}

/// Whether `found` is what a walk through `graph` may come to.
pub open spec fn may_walk_to<G: SceneGraph>(
    graph: &G,
    root: Seq<char>,
    path: Seq<Seq<char>>,
    found: Option<u64>,
) -> bool {
    match found {
        Some(object) => may_reach(graph, root, path, object),
        None => may_get_lost(graph, root, path),
    }
}

/// Whether following pointers in `readable` may lead from `start` to
/// `object`: each of `offsets` in turn is added to the address at hand, and
/// the pointer that is stored there is the next address.
pub open spec fn may_follow<R: PointerReadable>(
    readable: &R,
    start: u64,
    offsets: Seq<u64>,
    pointer_size: PointerSize,
    object: u64,
) -> bool
    decreases offsets.len(),
{
    if offsets.len() == 0 {
        object == start
    } else {
        exists|before: u64|
            may_follow(readable, start, offsets.drop_last(), pointer_size, before)
                && #[trigger] readable.may_point(
                before.wrapping_add(offsets.last()),
                pointer_size,
                Some(object),
            )
    }
}

/// One more pointer followed is one more offset on the way.
pub proof fn lemma_follow_goes_on<R: PointerReadable>(
    readable: &R,
    start: u64,
    offsets: Seq<u64>,
    pointer_size: PointerSize,
    before: u64,
    object: u64,
)
    requires
        offsets.len() > 0,
        may_follow(readable, start, offsets.drop_last(), pointer_size, before),
        readable.may_point(before.wrapping_add(offsets.last()), pointer_size, Some(object)),
    ensures
        may_follow(readable, start, offsets, pointer_size, object),
{
}

/// Whether `outcome` is what comparing the scene `active` with `expected`
/// comes to.
pub open spec fn is_scene_outcome(
    expected: Seq<char>,
    active: Option<Seq<char>>,
    outcome: Result<(), WatchError>,
) -> bool {
    match outcome {
        Ok(_) => active == Some(expected),
        Err(failure) => active != Some(expected) && is_scene_failure_for(
            expected,
            active,
            failure,
        ),
    }
}

/// The names in `names`, each as the text it holds.
pub open spec fn texts(names: Seq<String>) -> Seq<Seq<char>> {
    Seq::new(names.len(), |i: int| names[i]@)
}

/// The names in `names`, each as the text it holds.
pub open spec fn str_texts(names: Seq<&str>) -> Seq<Seq<char>> {
    Seq::new(names.len(), |i: int| names[i]@)
}

pub(crate) fn owned_names(names: &[&str]) -> (owned: Vec<String>)
    ensures
        texts(owned@) == str_texts(names@),
{
    let mut owned: Vec<String> = Vec::new();
    let mut i: usize = 0;
    while i < names.len()
        invariant
            i <= names@.len(),
            owned@.len() == i,
            forall|k: int| 0 <= k < i ==> (#[trigger] owned@[k])@ == names@[k]@,
        decreases names@.len() - i,
    {
        owned.push(String::from_str(names[i]));
        i = i + 1;
    }
    owned
}

/// Whether `failure` is what being in the scene `active`, or in none that can
/// be told, comes to for a source that is bound to `expected`.
pub open spec fn is_scene_failure_for(
    expected: Seq<char>,
    active: Option<Seq<char>>,
    failure: WatchError,
) -> bool {
    match active {
        None => failure is SceneUnavailable,
        Some(name) => failure matches WatchError::SceneMismatch { active: seen, expected: wanted }
            && seen@ == name && wanted@ == expected,
    }
}

/// Holds the active scene against the expected one.
///
/// `Ok` if and only if the scene is known and is the expected one. This is no
/// defect of the target: while it loads another scene, that is what is seen.
pub fn compare_scene(expected: &String, active: Option<String>) -> (outcome: Result<
    (),
    WatchError,
>)
    ensures
        is_scene_outcome(expected@, option_text(active), outcome),
{
    match active {
        None => Err(WatchError::SceneUnavailable),
        Some(name) => {
            if name == *expected {
                Ok(())
            } else {
                Err(WatchError::SceneMismatch { active: name, expected: expected.clone() })
            }
        },
    }
}

/// The text of a name that may be missing.
pub open spec fn option_text(name: Option<String>) -> Option<Seq<char>> {
    match name {
        Some(name) => Some(name@),
        None => None,
    }
}

/// Whether `outcome` is what asking `graph` for the active scene, and
/// holding it against `scene`, may come to.
pub open spec fn may_be_in_scene<G: SceneGraph>(
    graph: &G,
    scene: Seq<char>,
    outcome: Result<(), WatchError>,
) -> bool {
    exists|active: Option<Seq<char>>| #[trigger]
        graph.may_name_scene(active) && is_scene_outcome(scene, active, outcome)
}

/// Asks the graph for the active scene and holds it against `scene`.
pub fn get_scene_if_active<G: SceneGraph>(graph: &G, scene: &String) -> (outcome: Result<
    (),
    WatchError,
>)
    ensures
        may_be_in_scene(graph, scene@, outcome),
{
    let active = graph.current_scene_name();
    compare_scene(scene, active)
}

/// Walks through the graph to an object: from the object of that name at the
/// root, down the children that `path` names, one after the other.
pub fn find_object<G: SceneGraph>(
    graph: &G,
    root_object_name: &String,
    path: &Vec<String>,
) -> (found: Option<u64>)
    ensures
        may_walk_to(graph, root_object_name@, texts(path@), found),
{
    let mut object = match graph.find_root_object(root_object_name.as_str()) {
        Some(object) => object,
        None => return None,
    };
    let mut i: usize = 0;
    while i < path.len()
        invariant
            i <= path@.len(),
            may_reach(graph, root_object_name@, texts(path@).take(i as int), object),
        decreases path@.len() - i,
    {
        let parent = object;
        object = match graph.find_child(object, path[i].as_str()) {
            Some(child) => child,
            None => {
                proof {
                    assert(texts(path@)[i as int] == path@[i as int]@);
                }
                return None;
            },
        };
        proof {
            let walked = texts(path@).take(i as int + 1);
            assert(walked.drop_last() =~= texts(path@).take(i as int));
            lemma_walk_goes_on(graph, root_object_name@, walked, parent, object);
        }
        i = i + 1;
    }
    proof {
        assert(texts(path@).take(i as int) =~= texts(path@));
    }
    Some(object)
}

} // verus!
