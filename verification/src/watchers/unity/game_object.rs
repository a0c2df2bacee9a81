//! Whether an object of the scene graph is active.

use vstd::prelude::*;
use vstd::string::StringExecFns;
use crate::error::WatchError;
use crate::watchers::unity::{
    compare_scene, find_object, is_scene_failure_for, may_walk_to, option_text, owned_names,
    str_texts, texts, SceneGraph,
};
use crate::watchers::ValueGetter;

verus! {

/// What the scene graph says while an object is looked up once.
pub struct SceneAnswers {
    /// The name of the active scene.
    pub scene: Option<Seq<char>>,
    /// The object at the end of the walk from the root, were it walked.
    pub object: Option<u64>,
    /// The active flag of the object that the lookup settles on.
    pub active: Option<bool>,
}

/// What a [`GameObjectActivePath`] stands for, apart from the graph.
pub struct GameObjectActivePathView {
    /// The scene that the object lives in.
    pub scene: Seq<char>,
    /// The name of the object at the root.
    pub root_object_name: Seq<char>,
    /// The names of the children that lead from the root to the object.
    pub path: Seq<Seq<char>>,
    /// The object as it was found last, while that can be trusted.
    pub cached_object: Option<u64>,
}

impl GameObjectActivePathView {
    /// Whether the target is in the scene that the object lives in.
    pub open spec fn in_scene(self, answers: SceneAnswers) -> bool {
        answers.scene == Some(self.scene)
    }

    /// The object that a lookup settles on: none outside of the scene; in it
    /// the cached one where there is one, and else the one that the walk
    /// ends at.
    pub open spec fn settled_object(self, answers: SceneAnswers) -> Option<u64> {
        if !self.in_scene(answers) {
            None
        } else if self.cached_object is Some {
            self.cached_object
        } else {
            answers.object
        }
    }

    /// The source after a lookup. The object that the lookup settled on is
    /// kept, also where its flag could not be read; outside of the scene
    /// nothing is kept.
    pub open spec fn after_get(self, answers: SceneAnswers) -> Self {
        GameObjectActivePathView { cached_object: self.settled_object(answers), ..self }
    }

    /// Whether `outcome` is what a lookup returns under `answers`.
    pub open spec fn yields(
        self,
        answers: SceneAnswers,
        outcome: Result<bool, WatchError>,
    ) -> bool {
        if !self.in_scene(answers) {
            outcome matches Err(failure) && is_scene_failure_for(self.scene, answers.scene, failure)
        } else {
            match self.settled_object(answers) {
                None => outcome matches Err(WatchError::ObjectNotFound),
                Some(_) => match answers.active {
                    None => outcome matches Err(WatchError::ActiveFlagUnreadable),
                    Some(flag) => outcome == Ok::<bool, WatchError>(flag),
                },
            }
        }
    }
}

/// Tells whether an object of the scene graph is active.
///
/// The object is named by its scene, the object at the root above it, and the
/// children that lead down to it. Finding it is expensive, so the address is
/// kept once it was found. It is trusted for as long as the target is seen
/// in that scene, and forgotten as soon as it is seen elsewhere.
pub struct GameObjectActivePath<'a, G> {
    graph: &'a G,
    scene: String,
    root_object_name: String,
    path: Vec<String>,
    cached_object: Option<u64>,
}

impl<'a, G> View for GameObjectActivePath<'a, G> {
    type V = GameObjectActivePathView;

    closed spec fn view(&self) -> GameObjectActivePathView {
        GameObjectActivePathView {
            scene: self.scene@,
            root_object_name: self.root_object_name@,
            path: texts(self.path@),
            cached_object: self.cached_object,
        }
    }
}

impl<'a, G> GameObjectActivePath<'a, G> {
    /// The graph that the object is looked up in.
    pub closed spec fn graph(self) -> &'a G {
        self.graph
    }
}

impl<'a, G: SceneGraph> GameObjectActivePath<'a, G> {
    /// Whether `answers` is something that the graph may say while the
    /// object is looked up: it is asked for the scene; in the scene and
    /// without the object cached, it is walked along the names of this
    /// source; and it is asked for the flag of the object that was settled
    /// on.
    pub open spec fn graph_may_say(self, answers: SceneAnswers) -> bool {
        &&& self.graph().may_name_scene(answers.scene)
        &&& self@.in_scene(answers) && self@.cached_object is None ==> may_walk_to(
            self.graph(),
            self@.root_object_name,
            self@.path,
            answers.object,
        )
        &&& self@.settled_object(answers) matches Some(object) ==> self.graph().may_tell_active(
            object,
            answers.active,
        )
    }

    /// Whether a lookup may return `outcome` and leave the source as
    /// `after`, under `answers`.
    pub open spec fn looks_up(
        self,
        answers: SceneAnswers,
        outcome: Result<bool, WatchError>,
        after: GameObjectActivePathView,
    ) -> bool {
        &&& self.graph_may_say(answers)
        &&& self@.yields(answers, outcome)
        &&& after == self@.after_get(answers)
    }
}

impl<'a, G: SceneGraph> GameObjectActivePath<'a, G> {
    /// A source for the object below `root_object_name` along `path`, in
    /// `scene`. Nothing is looked up yet.
    pub fn new(graph: &'a G, scene: &str, root_object_name: &str, path: &[&str]) -> (made: Self)
        ensures
            made@ == (GameObjectActivePathView {
                scene: scene@,
                root_object_name: root_object_name@,
                path: str_texts(path@),
                cached_object: None,
            }),
            made.graph() == graph,
    {
        GameObjectActivePath {
            graph,
            scene: String::from_str(scene),
            root_object_name: String::from_str(root_object_name),
            path: owned_names(path),
            cached_object: None,
        }
    }

    /// Says what a lookup comes to, where `located` is the object that it
    /// settled on, if any, and `active` what its flag read as.
    pub fn settle(located: Option<u64>, active: Option<bool>) -> (outcome: Result<bool, WatchError>)
        ensures
            match located {
                None => outcome matches Err(WatchError::ObjectNotFound),
                Some(_) => match active {
                    None => outcome matches Err(WatchError::ActiveFlagUnreadable),
                    Some(flag) => outcome == Ok::<bool, WatchError>(flag),
                },
            },
    {
        match located {
            None => Err(WatchError::ObjectNotFound),
            Some(_) => match active {
                None => Err(WatchError::ActiveFlagUnreadable),
                Some(flag) => Ok(flag),
            },
        }
    }
}

impl<'a, G: SceneGraph> ValueGetter<bool> for GameObjectActivePath<'a, G> {
    /// What a lookup may return: what it comes to under some answers of the
    /// graph.
    open spec fn may_yield(&self, outcome: Result<bool, WatchError>) -> bool {
        exists|answers: SceneAnswers|
            self.graph_may_say(answers) && #[trigger] self@.yields(answers, outcome)
    }

    /// Looks the object up and reads its flag.
    ///
    /// First the active scene is held against the expected one. Where they
    /// differ the cached object is forgotten and the lookup fails. In the
    /// scene, the cached object is used where there is one; only without one
    /// is the graph walked, from the root down the children, and what is
    /// found is cached. Then the flag is read. That the flag cannot be read
    /// does not cost the object its place in the cache: only another scene
    /// does.
    fn get(&mut self) -> (outcome: Result<bool, WatchError>)
        ensures
            final(self).graph() == old(self).graph(),
            exists|answers: SceneAnswers| old(self).looks_up(answers, outcome, final(self)@),
    {
        let active_scene = self.graph.current_scene_name();
        let ghost scene = option_text(active_scene);
        if let Err(failure) = compare_scene(&self.scene, active_scene) {
            self.cached_object = None;
            proof {
                let answers = SceneAnswers { scene, object: None, active: None };
                assert(old(self).looks_up(answers, Err(failure), self@));
            }
            return Err(failure);
        }
        let located = match self.cached_object {
            Some(object) => Some(object),
            None => find_object(self.graph, &self.root_object_name, &self.path),
        };
        self.cached_object = located;
        let active = match located {
            Some(object) => self.graph.is_active_in_hierarchy(object),
            None => None,
        };
        let outcome = Self::settle(located, active);
        proof {
            let answers = SceneAnswers { scene, object: located, active };
            assert(old(self).looks_up(answers, outcome, self@));
        }
        outcome
    }
}

/// Leaving the scene costs the source its object, whatever it had cached,
/// and the lookup fails with what was seen of the scene.
pub proof fn lemma_other_scene_forgets(
    source: GameObjectActivePathView,
    answers: SceneAnswers,
    outcome: Result<bool, WatchError>,
)
    requires
        answers.scene != Some(source.scene),
        source.yields(answers, outcome),
    ensures
        source.after_get(answers).cached_object is None,
        outcome matches Err(failure) && failure.is_scene_failure(),
{
}

/// In its scene a source that has an object keeps it, found again or not and
/// flag read or not, and answers with the flag of that object.
pub proof fn lemma_cached_object_is_reused(
    source: GameObjectActivePathView,
    answers: SceneAnswers,
    outcome: Result<bool, WatchError>,
)
    requires
        source.cached_object is Some,
        answers.scene == Some(source.scene),
        source.yields(answers, outcome),
    ensures
        source.after_get(answers).cached_object == source.cached_object,
        outcome is Ok <==> answers.active is Some,
        outcome matches Err(failure) ==> failure is ActiveFlagUnreadable,
{
}

/// A lookup in the scene finds the object and caches it; a lookup while the
/// target is elsewhere fails and forgets it; back in the scene the object is
/// looked up anew, and what is found then is what is cached.
pub proof fn lemma_scene_round_trip(
    source: GameObjectActivePathView,
    here: SceneAnswers,
    away: SceneAnswers,
    back: SceneAnswers,
)
    requires
        source.cached_object is None,
        here.scene == Some(source.scene),
        here.object is Some,
        here.active is Some,
        away.scene != Some(source.scene),
        back.scene == Some(source.scene),
        back.object is Some,
        back.active is Some,
    ensures
        source.yields(here, Ok(here.active.unwrap())),
        source.after_get(here).cached_object == here.object,
        source.after_get(here).after_get(away).cached_object is None,
        source.after_get(here).after_get(away).yields(back, Ok(back.active.unwrap())),
        source.after_get(here).after_get(away).after_get(back).cached_object == back.object,
{
}

} // verus!
