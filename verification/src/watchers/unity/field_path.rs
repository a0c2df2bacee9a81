//! A value behind a chain of fields, whose offsets the target's own type
//! metadata gives.

use vstd::prelude::*;
use vstd::string::StringExecFns;
use crate::error::WatchError;
use crate::watchers::pointer_path::{PointerPath, PointerPathReadable, PointerPathView, PointerSize};
use crate::watchers::unity::offsets::{class_found, pointer_followed, OffsetCache, OFFSET_CAPACITY};
use crate::watchers::unity::{
    find_object, get_scene_if_active, is_scene_failure_for, is_scene_outcome,
    lemma_follow_goes_on, may_be_in_scene, may_follow, may_get_lost, may_reach, owned_names,
    str_texts, texts, PointerReadable, SceneGraph, TypeMetadata,
};
use crate::watchers::ValueGetter;

verus! {

/// What a [`MonoBehaviourFieldPath`] stands for, apart from the handles that
/// it reads through.
pub struct MonoBehaviourFieldPathView {
    /// The scene that the object lives in.
    pub scene: Seq<char>,
    /// The name of the object at the root.
    pub root_object_name: Seq<char>,
    /// The names of the children that lead from the root to the object.
    pub game_object_path: Seq<Seq<char>>,
    /// The type of the component on the object.
    pub component_type_name: Seq<char>,
    /// The names of the fields that lead from the component to the value.
    pub field_path: Seq<Seq<char>>,
    /// The width of the pointers of the target.
    pub pointer_size: PointerSize,
    /// The offsets of the fields that are resolved.
    pub offsets: Seq<u64>,
    /// The component as it was found last, while that can be trusted.
    pub cached_component: Option<u64>,
}

impl MonoBehaviourFieldPathView {
    /// Whether `other` names the same value: all but what is cached agrees.
    pub open spec fn same_target(self, other: Self) -> bool {
        &&& self.scene == other.scene
        &&& self.root_object_name == other.root_object_name
        &&& self.game_object_path == other.game_object_path
        &&& self.component_type_name == other.component_type_name
        &&& self.field_path == other.field_path
        &&& self.pointer_size == other.pointer_size
    }

    /// Whether the offset of every field is known.
    pub open spec fn is_resolved(self) -> bool {
        self.offsets.len() == self.field_path.len()
    }

    /// The chain that the value is read through once every offset is known,
    /// in words: from `component` along the offsets.
    pub open spec fn final_chain(self, component: u64) -> Seq<char> {
        (PointerPathView {
            name: None,
            base_address: component,
            pointer_size: self.pointer_size,
            offsets: self.offsets,
        }).description()
    }

    /// Whether a request that left the source as `self` and failed with
    /// `failure` may have started from `before`. For each failure this says
    /// what became of the two caches.
    pub open spec fn failed_from(self, before: Self, failure: WatchError) -> bool {
        match failure {
            // Not in the scene: the component is forgotten, the offsets stay.
            WatchError::SceneUnavailable | WatchError::SceneMismatch { .. } => {
                &&& self.cached_component is None
                &&& self.offsets == before.offsets
                &&& exists|active: Option<Seq<char>>|
                    active != Some(self.scene) && is_scene_failure_for(self.scene, active, failure)
            },
            // No component to start from: only looked for where none was cached.
            WatchError::ObjectNotFound | WatchError::ComponentNotFound => {
                &&& before.cached_component is None
                &&& self.cached_component is None
                &&& self.offsets == before.offsets
            },
            // The chain broke where the offsets were known already.
            WatchError::ResolvedDereference => {
                &&& self.cached_component is None
                &&& self.offsets == before.offsets
                &&& before.offsets.len() > 0
            },
            // The chain broke at a field that had no offset yet.
            WatchError::ClassNotFound | WatchError::FieldNotFound => {
                &&& self.cached_component is None
                &&& self.offsets.len() < self.field_path.len()
            },
            // The offset was found and kept, the pointer behind it was not.
            WatchError::RetrievedDereference => {
                &&& self.cached_component is None
                &&& self.offsets.len() > before.offsets.len()
            },
            // Every offset is known: the component stays, as after a success.
            WatchError::FinalRead { path } => {
                &&& self.is_resolved()
                &&& self.cached_component matches Some(component)
                &&& before.cached_component is Some ==> self.cached_component
                    == before.cached_component
                &&& path@ == self.final_chain(component)
            },
            _ => false,
        }
    }
}

impl MonoBehaviourFieldPathView {
    /// Whether a request may lead from `self` to `after`, with that failure
    /// or, where there is none, with a value.
    ///
    /// Whatever happens, the source names the same value afterwards, and the
    /// offsets that were known are still the first of those that are known.
    /// A value is only had with every offset known and a component cached,
    /// the one that was cached before where there was one.
    pub open spec fn leads_to(self, after: Self, failure: Option<WatchError>) -> bool {
        &&& after.same_target(self)
        &&& self.offsets.is_prefix_of(after.offsets)
        &&& after.offsets.len() <= after.field_path.len()
        &&& match failure {
            None => {
                &&& after.is_resolved()
                &&& after.cached_component is Some
                &&& self.cached_component is Some ==> after.cached_component
                    == self.cached_component
            },
            Some(failure) => after.failed_from(self, failure),
        }
    }
}

/// The failure of `outcome`, if it is one.
pub open spec fn failure_of<T>(outcome: Result<T, WatchError>) -> Option<WatchError> {
    match outcome {
        Ok(_) => None,
        Err(failure) => Some(failure),
    }
}

/// Whether `failure` is one of those that a [`MonoBehaviourFieldPath`]
/// reports.
pub open spec fn is_field_path_failure(failure: WatchError) -> bool {
    ||| failure is SceneUnavailable
    ||| failure is SceneMismatch
    ||| failure is ObjectNotFound
    ||| failure is ComponentNotFound
    ||| failure is ResolvedDereference
    ||| failure is ClassNotFound
    ||| failure is FieldNotFound
    ||| failure is RetrievedDereference
    ||| failure is FinalRead
}

/// Reads a value behind a chain of fields that starts at a component of an
/// object in the scene graph.
///
/// Where a field lies within its object is asked of the target's type
/// metadata, field by field, and asked once: an offset that is known is used
/// from then on. The pointers, on the other hand, are followed anew on every
/// request, as is the value read.
pub struct MonoBehaviourFieldPath<'a, T, G, M, R> {
    _phantom: core::marker::PhantomData<T>,
    graph: &'a G,
    metadata: &'a M,
    readable: &'a R,
    pointer_size: PointerSize,
    scene: String,
    root_object_name: String,
    game_object_path: Vec<String>,
    component_type_name: String,
    field_path: Vec<String>,
    inner: OffsetCache,
    cached_component: Option<u64>,
}

impl<'a, T, G, M, R> View for MonoBehaviourFieldPath<'a, T, G, M, R> {
    type V = MonoBehaviourFieldPathView;

    closed spec fn view(&self) -> MonoBehaviourFieldPathView {
        MonoBehaviourFieldPathView {
            scene: self.scene@,
            root_object_name: self.root_object_name@,
            game_object_path: texts(self.game_object_path@),
            component_type_name: self.component_type_name@,
            field_path: texts(self.field_path@),
            pointer_size: self.pointer_size,
            offsets: self.inner@.resolved,
            cached_component: self.cached_component,
        }
    }
}

/// Whether `found` is what looking for the component that `source` starts
/// from may come to: the graph is walked to the object, and asked for the
/// component of the wanted type on it.
pub open spec fn may_locate<G: SceneGraph>(
    graph: &G,
    source: MonoBehaviourFieldPathView,
    found: Result<u64, WatchError>,
) -> bool {
    match found {
        Ok(component) => may_find_on_object(graph, source, Some(component)),
        Err(failure) => if failure is ObjectNotFound {
            may_get_lost(graph, source.root_object_name, source.game_object_path)
        } else {
            failure is ComponentNotFound && may_find_on_object(graph, source, None)
        },
    }
}

/// Whether walking to the object of `source` and asking it for the component
/// of the wanted type may give `answer`.
pub open spec fn may_find_on_object<G: SceneGraph>(
    graph: &G,
    source: MonoBehaviourFieldPathView,
    answer: Option<u64>,
) -> bool {
    exists|object: u64|
        may_reach(graph, source.root_object_name, source.game_object_path, object)
            && #[trigger] graph.may_find_component(object, source.component_type_name, answer)
}

/// Whether the offset at `position` of `offsets` may have been resolved as
/// it is: pointers were followed from `start` along the offsets before it,
/// and the metadata gave that offset for the field at `position` of
/// `fields`, in the class of the object that the pointers led to.
pub open spec fn may_resolve_at<M: TypeMetadata, R: PointerReadable>(
    metadata: &M,
    readable: &R,
    start: u64,
    pointer_size: PointerSize,
    offsets: Seq<u64>,
    fields: Seq<Seq<char>>,
    position: int,
) -> bool {
    exists|object: u64, class: u64, raw: u32|
        #![trigger
            may_follow(readable, start, offsets.take(position), pointer_size, object),
            metadata.may_tell_offset(class, fields[position], Some(raw))
        ]
        {
            &&& may_follow(readable, start, offsets.take(position), pointer_size, object)
            &&& metadata.may_tell_class(object, Some(class))
            &&& metadata.may_tell_offset(class, fields[position], Some(raw))
            &&& offsets[position] == raw as u64
        }
}

/// Says what the search for a component comes to, where `object` is what
/// the walk through the graph ended at, and `component` what was found on
/// that object.
pub fn settle_component(object: Option<u64>, component: Option<u64>) -> (found: Result<
    u64,
    WatchError,
>)
    ensures
        match object {
            None => found matches Err(WatchError::ObjectNotFound),
            Some(_) => match component {
                None => found matches Err(WatchError::ComponentNotFound),
                Some(address) => found == Ok::<u64, WatchError>(address),
            },
        },
{
    match object {
        None => Err(WatchError::ObjectNotFound),
        Some(_) => match component {
            None => Err(WatchError::ComponentNotFound),
            Some(address) => Ok(address),
        },
    }
}

impl<'a, T, G, M, R> MonoBehaviourFieldPath<'a, T, G, M, R> {
    #[verifier::type_invariant]
    spec fn well_formed(self) -> bool {
        self.inner@.depth == self.field_path@.len()
    }

    /// The graph that the component is looked up in.
    pub closed spec fn graph(self) -> &'a G {
        self.graph
    }

    /// The metadata that the offsets are asked of.
    pub closed spec fn metadata(self) -> &'a M {
        self.metadata
    }

    /// The store that pointers and the value are read from.
    pub closed spec fn readable(self) -> &'a R {
        self.readable
    }
}

impl<'a, T, G: SceneGraph, M: TypeMetadata, R: PointerReadable + PointerPathReadable<
    T,
>> MonoBehaviourFieldPath<'a, T, G, M, R> {
    /// Whether a request may start its walk at `start`: at the component
    /// that is cached, and without one at a component that looking for it
    /// may find.
    pub open spec fn may_start_at(self, start: u64) -> bool {
        match self@.cached_component {
            Some(component) => start == component,
            None => may_locate(self.graph(), self@, Ok(start)),
        }
    }

    /// Whether the pointers may be followed from `start` along all the
    /// offsets of `after`, none of them missing.
    pub open spec fn may_walk_through(self, after: MonoBehaviourFieldPathView, start: u64) -> bool {
        exists|object: u64| #[trigger]
            may_follow(self.readable(), start, after.offsets, after.pointer_size, object)
    }

    /// Whether a walk from `start` that leaves the offsets of `after` may
    /// break with `failure`. Each failure is an answer of the target, to what
    /// a request asks at the place where it breaks:
    ///
    /// - behind a known offset the pointer is not there;
    /// - the object at the first field without an offset has no class;
    /// - the class of that object has no field of the wanted name;
    /// - behind the offset that was found last the pointer is not there;
    /// - all pointers were followed, and there is no field to read, or the
    ///   store failed to read the value from `start` along the offsets.
    pub open spec fn may_break(
        self,
        after: MonoBehaviourFieldPathView,
        start: u64,
        failure: WatchError,
    ) -> bool {
        match failure {
            WatchError::ResolvedDereference => exists|at: int, object: u64|
                {
                    &&& 0 <= at < self@.offsets.len()
                    &&& #[trigger] may_follow(
                        self.readable(),
                        start,
                        self@.offsets.take(at),
                        after.pointer_size,
                        object,
                    )
                    &&& self.readable().may_point(
                        object.wrapping_add(self@.offsets[at]),
                        after.pointer_size,
                        None,
                    )
                },
            WatchError::ClassNotFound => exists|object: u64|
                {
                    &&& #[trigger] may_follow(
                        self.readable(),
                        start,
                        after.offsets,
                        after.pointer_size,
                        object,
                    )
                    &&& self.metadata().may_tell_class(object, None)
                },
            WatchError::FieldNotFound => exists|object: u64, class: u64|
                #![trigger
                    may_follow(self.readable(), start, after.offsets, after.pointer_size, object),
                    self.metadata().may_tell_class(object, Some(class))
                ]
                {
                    &&& may_follow(
                        self.readable(),
                        start,
                        after.offsets,
                        after.pointer_size,
                        object,
                    )
                    &&& self.metadata().may_tell_class(object, Some(class))
                    &&& self.metadata().may_tell_offset(
                        class,
                        after.field_path[after.offsets.len() as int],
                        None,
                    )
                },
            WatchError::RetrievedDereference => after.offsets.len() > 0 && exists|object: u64|
                {
                    &&& #[trigger] may_follow(
                        self.readable(),
                        start,
                        after.offsets.drop_last(),
                        after.pointer_size,
                        object,
                    )
                    &&& self.readable().may_point(
                        object.wrapping_add(after.offsets.last()),
                        after.pointer_size,
                        None,
                    )
                },
            WatchError::FinalRead { .. } => self.may_walk_through(after, start) && (
            after.field_path.len() == 0 || exists|cause: WatchError| #[trigger]
                self.readable().may_answer(
                    start,
                    after.pointer_size,
                    after.offsets,
                    Err::<T, WatchError>(cause),
                )),
            _ => false,
        }
    }

    /// Whether a request that is in its scene and has a component to start
    /// from may walk from `start` to `outcome`, leaving `after`.
    ///
    /// The walk starts where a request may start. Every offset that was not
    /// known before was resolved at its position, on the way from `start`.
    /// A value is what the store may answer when it is asked to read from
    /// `start` along the offsets, after all pointers were followed. A failure
    /// is what the walk may break with. What is cached afterwards, if
    /// anything, is `start`.
    pub open spec fn may_walk(
        self,
        after: MonoBehaviourFieldPathView,
        start: u64,
        outcome: Result<T, WatchError>,
    ) -> bool {
        &&& self.may_start_at(start)
        &&& after.cached_component matches Some(kept) ==> kept == start
        &&& forall|position: int|
            self@.offsets.len() <= position < after.offsets.len() ==> #[trigger] may_resolve_at(
                self.metadata(),
                self.readable(),
                start,
                after.pointer_size,
                after.offsets,
                after.field_path,
                position,
            )
        &&& match outcome {
            Ok(value) => self.may_walk_through(after, start) && self.readable().may_answer(
                start,
                after.pointer_size,
                after.offsets,
                Ok(value),
            ),
            Err(failure) => self.may_break(after, start, failure),
        }
    }

    /// Whether a request may return `outcome` and leave the source as
    /// `after`.
    ///
    /// What becomes of the caches is as `leads_to` says. Beyond that, the
    /// outcome is owed to what the target answered. The scene is asked for
    /// first, and not to be in it is the outcome. In the scene, and with no
    /// component cached, one is looked for, and not to find it is the
    /// outcome. From there on the request is a walk: see `may_walk`.
    pub open spec fn requests(
        self,
        after: MonoBehaviourFieldPathView,
        outcome: Result<T, WatchError>,
    ) -> bool {
        &&& self@.leads_to(after, failure_of(outcome))
        &&& match outcome {
            Err(failure) if failure.is_scene_failure() => may_be_in_scene(
                self.graph(),
                self@.scene,
                Err(failure),
            ),
            Err(failure) if failure is ObjectNotFound || failure is ComponentNotFound => {
                &&& may_be_in_scene(self.graph(), self@.scene, Ok(()))
                &&& may_locate(self.graph(), self@, Err(failure))
            },
            _ => {
                &&& may_be_in_scene(self.graph(), self@.scene, Ok(()))
                &&& exists|start: u64| #[trigger] self.may_walk(after, start, outcome)
            },
        }
    }

    /// A source for the value behind `field_path`, starting at the component
    /// of type `component_type_name` on the object below `root_object_name`
    /// along `game_object_path`, in `scene`. Nothing is looked up or resolved
    /// yet.
    ///
    /// There is room for `OFFSET_CAPACITY` fields.
    pub fn init(
        graph: &'a G,
        metadata: &'a M,
        readable: &'a R,
        pointer_size: PointerSize,
        scene: &str,
        root_object_name: &str,
        game_object_path: &[&str],
        component_type_name: &str,
        field_path: &[&str],
    ) -> (made: Result<Self, WatchError>)
        requires
            field_path@.len() <= OFFSET_CAPACITY,
        ensures
            made matches Ok(source) && source@ == (MonoBehaviourFieldPathView {
                scene: scene@,
                root_object_name: root_object_name@,
                game_object_path: str_texts(game_object_path@),
                component_type_name: component_type_name@,
                field_path: str_texts(field_path@),
                pointer_size,
                offsets: Seq::empty(),
                cached_component: None,
            }) && source.graph() == graph && source.metadata() == metadata && source.readable()
                == readable,
    {
        let fields = owned_names(field_path);
        proof {
            assert(texts(fields@).len() == str_texts(field_path@).len());
        }
        Ok(
            MonoBehaviourFieldPath {
                _phantom: core::marker::PhantomData,
                graph,
                metadata,
                readable,
                pointer_size,
                scene: String::from_str(scene),
                root_object_name: String::from_str(root_object_name),
                game_object_path: owned_names(game_object_path),
                component_type_name: String::from_str(component_type_name),
                inner: OffsetCache::new(fields.len()),
                field_path: fields,
                cached_component: None,
            },
        )
    }

    /// A walk in the scene is a request.
    proof fn lemma_walk_requests(
        self,
        after: MonoBehaviourFieldPathView,
        start: u64,
        outcome: Result<T, WatchError>,
    )
        requires
            self@.leads_to(after, failure_of(outcome)),
            may_be_in_scene(self.graph(), self@.scene, Ok(())),
            self.may_start_at(start),
            after.cached_component matches Some(kept) ==> kept == start,
            forall|position: int|
                self@.offsets.len() <= position < after.offsets.len() ==> #[trigger] may_resolve_at(
                    self.metadata(),
                    self.readable(),
                    start,
                    after.pointer_size,
                    after.offsets,
                    after.field_path,
                    position,
                ),
            match outcome {
                Ok(value) => self.may_walk_through(after, start) && self.readable().may_answer(
                    start,
                    after.pointer_size,
                    after.offsets,
                    Ok(value),
                ),
                Err(failure) => self.may_break(after, start, failure),
            },
        ensures
            self.requests(after, outcome),
    {
        assert(self.may_walk(after, start, outcome));
    }

    fn find_component(&self) -> (found: Result<u64, WatchError>)
        ensures
            may_locate(self.graph(), self@, found),
    {
        let object = find_object(self.graph, &self.root_object_name, &self.game_object_path);
        let component = match object {
            Some(object) => self.graph.find_component(object, self.component_type_name.as_str()),
            None => None,
        };
        proof {
            if let Some(object) = object {
                assert(may_reach(
                    self.graph(),
                    self@.root_object_name,
                    self@.game_object_path,
                    object,
                ) && self.graph().may_find_component(
                    object,
                    self@.component_type_name,
                    component,
                ));
            }
        }
        settle_component(object, component)
    }

    fn final_chain(&self, component: u64) -> (text: String)
        ensures
            text@ == self@.final_chain(component),
    {
        let chain = PointerPath::new(
            self.readable,
            component,
            self.pointer_size,
            self.inner.to_vec(),
        );
        chain.describe()
    }
}

impl<'a, T, G: SceneGraph, M: TypeMetadata, R: PointerReadable + PointerPathReadable<
    T,
>> ValueGetter<T> for MonoBehaviourFieldPath<'a, T, G, M, R> {
    /// What a request may return: an outcome that it may return while
    /// leaving the source in some state.
    open spec fn may_yield(&self, outcome: Result<T, WatchError>) -> bool {
        exists|after: MonoBehaviourFieldPathView| #[trigger] self.requests(after, outcome)
    }

    /// Finds the component, resolves what is left to resolve, and reads the
    /// value.
    ///
    /// The scene is checked first, as for an object; outside of it the cached
    /// component is forgotten. The component is looked up only where none is
    /// cached. From it the chain is walked: along the offsets that are known,
    /// and then field by field through the metadata, each offset recorded as
    /// soon as it is had. A walk that breaks forgets the component and keeps
    /// every offset. With all offsets known the value is read from the
    /// component along them; the metadata is not asked again.
    fn get(&mut self) -> (outcome: Result<T, WatchError>)
        ensures
            final(self).graph() == old(self).graph(),
            final(self).metadata() == old(self).metadata(),
            final(self).readable() == old(self).readable(),
            old(self).requests(final(self)@, outcome),
    {
        proof {
            use_type_invariant(&*self);
        }
        let known = self.inner.resolved_offsets();
        if let Err(failure) = get_scene_if_active(self.graph, &self.scene) {
            self.cached_component = None;
            proof {
                let outcome = Err::<T, WatchError>(failure);
                assert(may_be_in_scene(old(self).graph(), old(self)@.scene, Err(failure)));
                let active = choose|active: Option<Seq<char>>| #[trigger]
                    self.graph.may_name_scene(active) && is_scene_outcome(
                        self.scene@,
                        active,
                        Err(failure),
                    );
                assert(active != Some(self@.scene) && is_scene_failure_for(
                    self@.scene,
                    active,
                    failure,
                ));
                assert(failure.is_scene_failure());
                assert(self@.failed_from(old(self)@, failure));
                assert(old(self)@.leads_to(self@, failure_of(outcome)));
                assert(old(self).requests(self@, outcome));
            }
            return Err(failure);
        }
        proof {
            assert(may_be_in_scene(old(self).graph(), old(self)@.scene, Ok(())));
        }
        let component = match self.cached_component {
            Some(component) => component,
            None => match self.find_component() {
                Ok(component) => component,
                Err(failure) => {
                    proof {
                        let outcome = Err::<T, WatchError>(failure);
                        assert(may_locate(old(self).graph(), old(self)@, Err(failure)));
                        assert(failure is ObjectNotFound || failure is ComponentNotFound);
                        assert(old(self)@.leads_to(self@, failure_of(outcome)));
                        assert(old(self).requests(self@, outcome));
                    }
                    return Err(failure);
                },
            },
        };
        self.cached_component = Some(component);

        // starts as the component
        let mut current_object = component;
        let mut i: usize = 0;
        while i < known
            invariant
                i <= known,
                known == self.inner@.resolved.len(),
                known <= self.inner@.depth,
                self.inner@.depth == self.field_path@.len(),
                *self == (MonoBehaviourFieldPath {
                    cached_component: Some(component),
                    ..*old(self)
                }),
                may_be_in_scene(old(self).graph(), old(self)@.scene, Ok(())),
                old(self).may_start_at(component),
                may_follow(
                    self.readable,
                    component,
                    self.inner@.resolved.take(i as int),
                    self.pointer_size,
                    current_object,
                ),
            decreases known - i,
        {
            let address = current_object.wrapping_add(self.inner.offset(i));
            let pointer = self.readable.read_pointer(address, self.pointer_size);
            let ghost before = current_object;
            current_object = match pointer_followed(pointer, true) {
                Ok(next) => next,
                Err(failure) => {
                    self.cached_component = None;
                    proof {
                        assert(may_follow(
                            old(self).readable(),
                            component,
                            old(self)@.offsets.take(i as int),
                            self@.pointer_size,
                            before,
                        ) && old(self).readable().may_point(
                            before.wrapping_add(old(self)@.offsets[i as int]),
                            self@.pointer_size,
                            None,
                        ));
                        old(self).lemma_walk_requests(self@, component, Err(failure));
                    }
                    return Err(failure);
                },
            };
            proof {
                let walked = self.inner@.resolved.take(i as int + 1);
                assert(walked.drop_last() =~= self.inner@.resolved.take(i as int));
                lemma_follow_goes_on(
                    self.readable,
                    component,
                    walked,
                    self.pointer_size,
                    before,
                    current_object,
                );
            }
            i = i + 1;
        }
        proof {
            assert(self.inner@.resolved.take(i as int) =~= self.inner@.resolved);
        }

        while !self.inner.is_complete()
            invariant
                self.inner@.depth == self.field_path@.len(),
                old(self).inner@.resolved.is_prefix_of(self.inner@.resolved),
                self.inner@.resolved.len() <= self.inner@.depth,
                *self == (MonoBehaviourFieldPath {
                    inner: self.inner,
                    cached_component: Some(component),
                    ..*old(self)
                }),
                may_be_in_scene(old(self).graph(), old(self)@.scene, Ok(())),
                old(self).may_start_at(component),
                may_follow(
                    self.readable,
                    component,
                    self.inner@.resolved,
                    self.pointer_size,
                    current_object,
                ),
                forall|position: int|
                    old(self).inner@.resolved.len() <= position < self.inner@.resolved.len()
                        ==> #[trigger] may_resolve_at(
                        self.metadata,
                        self.readable,
                        component,
                        self.pointer_size,
                        self.inner@.resolved,
                        texts(self.field_path@),
                        position,
                    ),
            decreases self.inner@.depth - self.inner@.resolved.len(),
        {
            let position = self.inner.resolved_offsets();
            let ghost known_so_far = self.inner@.resolved;
            let ghost before = current_object;
            let class = match class_found(self.metadata.class_of(current_object)) {
                Ok(class) => class,
                Err(failure) => {
                    self.cached_component = None;
                    proof {
                        assert(may_follow(
                            old(self).readable(),
                            component,
                            self@.offsets,
                            self@.pointer_size,
                            before,
                        ) && old(self).metadata().may_tell_class(before, None));
                        old(self).lemma_walk_requests(self@, component, Err(failure));
                    }
                    return Err(failure);
                },
            };
            let found = self.metadata.get_field_offset(class, self.field_path[position].as_str());
            let offset = match self.inner.resolve_next(found) {
                Ok(offset) => offset,
                Err(failure) => {
                    self.cached_component = None;
                    proof {
                        assert(self@.field_path[self@.offsets.len() as int]
                            == self.field_path@[position as int]@);
                        assert(may_follow(
                            old(self).readable(),
                            component,
                            self@.offsets,
                            self@.pointer_size,
                            before,
                        ) && old(self).metadata().may_tell_class(before, Some(class))
                            && old(self).metadata().may_tell_offset(
                            class,
                            self@.field_path[self@.offsets.len() as int],
                            None,
                        ));
                        old(self).lemma_walk_requests(self@, component, Err(failure));
                    }
                    return Err(failure);
                },
            };
            proof {
                let now = self.inner@.resolved;
                assert(now.take(position as int) =~= known_so_far);
                assert(may_resolve_at(
                    self.metadata,
                    self.readable,
                    component,
                    self.pointer_size,
                    now,
                    texts(self.field_path@),
                    position as int,
                )) by {
                    assert(may_follow(
                        self.readable,
                        component,
                        now.take(position as int),
                        self.pointer_size,
                        before,
                    ) && self.metadata.may_tell_class(before, Some(class))
                        && self.metadata.may_tell_offset(
                        class,
                        texts(self.field_path@)[position as int],
                        Some(found->Some_0),
                    ) && now[position as int] == found->Some_0 as u64);
                }
                assert forall|earlier: int|
                    old(self).inner@.resolved.len() <= earlier < position implies #[trigger]
                    may_resolve_at(
                    self.metadata,
                    self.readable,
                    component,
                    self.pointer_size,
                    now,
                    texts(self.field_path@),
                    earlier,
                ) by {
                    assert(now.take(earlier) =~= known_so_far.take(earlier));
                    assert(may_resolve_at(
                        self.metadata,
                        self.readable,
                        component,
                        self.pointer_size,
                        known_so_far,
                        texts(self.field_path@),
                        earlier,
                    ));
                }
            }
            let pointer = self.readable.read_pointer(
                current_object.wrapping_add(offset),
                self.pointer_size,
            );
            current_object = match pointer_followed(pointer, false) {
                Ok(next) => next,
                Err(failure) => {
                    self.cached_component = None;
                    proof {
                        assert(self@.offsets.drop_last() =~= known_so_far);
                        assert(may_follow(
                            old(self).readable(),
                            component,
                            self@.offsets.drop_last(),
                            self@.pointer_size,
                            before,
                        ) && old(self).readable().may_point(
                            before.wrapping_add(self@.offsets.last()),
                            self@.pointer_size,
                            None,
                        ));
                        old(self).lemma_walk_requests(self@, component, Err(failure));
                    }
                    return Err(failure);
                },
            };
            proof {
                assert(self.inner@.resolved.drop_last() =~= known_so_far);
                lemma_follow_goes_on(
                    self.readable,
                    component,
                    self.inner@.resolved,
                    self.pointer_size,
                    before,
                    current_object,
                );
            }
        }

        proof {
            assert(may_follow(
                old(self).readable(),
                component,
                self@.offsets,
                self@.pointer_size,
                current_object,
            ));
            assert(old(self).may_walk_through(self@, component));
            assert forall|position: int|
                old(self)@.offsets.len() <= position < self@.offsets.len() implies #[trigger]
                may_resolve_at(
                old(self).metadata(),
                old(self).readable(),
                component,
                self@.pointer_size,
                self@.offsets,
                self@.field_path,
                position,
            ) by {
                assert(may_resolve_at(
                    self.metadata,
                    self.readable,
                    component,
                    self.pointer_size,
                    self.inner@.resolved,
                    texts(self.field_path@),
                    position,
                ));
            }
        }
        if self.inner.depth() == 0 {
            let outcome = Err(WatchError::FinalRead { path: self.final_chain(component) });
            proof {
                old(self).lemma_walk_requests(self@, component, outcome);
            }
            return outcome;
        }
        let offsets = self.inner.to_vec();
        let raw = self.readable.read_pointer_path(
            component,
            self.pointer_size,
            offsets.as_slice(),
        );
        let ghost answer = raw;
        let outcome = match raw {
            Ok(value) => Ok(value),
            Err(_) => Err(WatchError::FinalRead { path: self.final_chain(component) }),
        };
        proof {
            if answer is Err {
                assert(old(self).readable().may_answer(
                    component,
                    self@.pointer_size,
                    self@.offsets,
                    Err::<T, WatchError>(answer->Err_0),
                ));
            }
            old(self).lemma_walk_requests(self@, component, outcome);
        }
        outcome
    }
}

/// An offset that is known is not derived again: a request leaves every
/// known offset as it is. Once all are known none is ever added, and no
/// request fails for want of a class or a field, or behind an offset that
/// was only just found: the type metadata has no more part in it.
pub proof fn lemma_resolved_offsets_stay(
    before: MonoBehaviourFieldPathView,
    after: MonoBehaviourFieldPathView,
    failure: Option<WatchError>,
)
    requires
        before.leads_to(after, failure),
    ensures
        forall|position: int|
            0 <= position < before.offsets.len() ==> after.offsets[position]
                == before.offsets[position],
        before.is_resolved() ==> after.offsets == before.offsets,
        before.is_resolved() ==> !(failure matches Some(
            WatchError::ClassNotFound
            | WatchError::FieldNotFound
            | WatchError::RetrievedDereference,
        )),
{
}

/// Outside of its scene a source forgets its component and keeps its
/// offsets: they belong to the types of the target, not to the objects of
/// a scene.
pub proof fn lemma_other_scene_keeps_offsets(
    before: MonoBehaviourFieldPathView,
    after: MonoBehaviourFieldPathView,
    failure: WatchError,
)
    requires
        before.leads_to(after, Some(failure)),
        failure.is_scene_failure(),
    ensures
        after.cached_component is None,
        after.offsets == before.offsets,
{
}

/// On a warm chain the type metadata has no part in a request, and the
/// request reads the value.
///
/// The chain is warm when every offset is known and a component is cached.
/// Let the target be in the scene, let no pointer be missing, and let the
/// store not fail to read from the component along the offsets. Then the
/// request returns a value, one that the store may answer when it is asked
/// to read from the component along the offsets; and both caches are left as
/// they are. Nothing is asked of what the metadata would say: a class that
/// cannot be had any more does not fail the request.
pub proof fn lemma_warm_chain_reads_the_value<
    'a,
    T,
    G: SceneGraph,
    M: TypeMetadata,
    R: PointerReadable + PointerPathReadable<T>,
>(
    source: MonoBehaviourFieldPath<'a, T, G, M, R>,
    component: u64,
    after: MonoBehaviourFieldPathView,
    outcome: Result<T, WatchError>,
)
    requires
        source.requests(after, outcome),
        source@.is_resolved(),
        source@.field_path.len() > 0,
        source@.cached_component == Some(component),
        forall|active: Option<Seq<char>>| #[trigger]
            source.graph().may_name_scene(active) ==> active == Some(source@.scene),
        forall|address: u64|
            !#[trigger] source.readable().may_point(address, source@.pointer_size, None),
        forall|cause: WatchError|
            !#[trigger] source.readable().may_answer(
                component,
                source@.pointer_size,
                source@.offsets,
                Err::<T, WatchError>(cause),
            ),
    ensures
        outcome matches Ok(value) && source.readable().may_answer(
            component,
            source@.pointer_size,
            source@.offsets,
            Ok(value),
        ),
        after.offsets == source@.offsets,
        after.cached_component == Some(component),
{
    assert(after.offsets =~= source@.offsets);
}

/// A request fails in the ways of this source and in no other: with every
/// other failure there is no state that it could leave the source in.
pub proof fn lemma_request_fails_in_its_own_ways(
    before: MonoBehaviourFieldPathView,
    after: MonoBehaviourFieldPathView,
    failure: WatchError,
)
    requires
        before.leads_to(after, Some(failure)),
    ensures
        is_field_path_failure(failure),
{
}

/// An offset is only ever added on the word of the type metadata: where a
/// request leaves more offsets than it found, the metadata told the class of
/// some object, and told the first of the new offsets for the field at that
/// position in this class.
pub proof fn lemma_new_offset_was_told<
    'a,
    T,
    G: SceneGraph,
    M: TypeMetadata,
    R: PointerReadable + PointerPathReadable<T>,
>(
    source: MonoBehaviourFieldPath<'a, T, G, M, R>,
    after: MonoBehaviourFieldPathView,
    outcome: Result<T, WatchError>,
)
    requires
        source.requests(after, outcome),
        after.offsets.len() > source@.offsets.len(),
    ensures
        exists|object: u64, class: u64, raw: u32|
            {
                &&& #[trigger] source.metadata().may_tell_class(object, Some(class))
                &&& #[trigger] source.metadata().may_tell_offset(
                    class,
                    after.field_path[source@.offsets.len() as int],
                    Some(raw),
                )
                &&& after.offsets[source@.offsets.len() as int] == raw as u64
            },
{
    let start = choose|start: u64| #[trigger] source.may_walk(after, start, outcome);
    assert(may_resolve_at(
        source.metadata(),
        source.readable(),
        start,
        after.pointer_size,
        after.offsets,
        after.field_path,
        source@.offsets.len() as int,
    ));
}

} // verus!
