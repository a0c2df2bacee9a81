//! The one error type that every value source in this crate reports.

use vstd::prelude::*;
use vstd::string::StringExecFns;

verus! {

/// Why a value could not be produced on this tick.
///
/// None of these is fatal. A caller is expected to give up on the tick at
/// hand, keep polling, and see the condition clear by itself once the target
/// has settled.
#[derive(Debug)]
pub enum WatchError {
    /// The backing store could not produce a value at the end of a chain.
    Unreadable,
    /// A source outside of this crate failed, in its own words.
    Source { message: String },
    /// A pointer path could not be read. `path` spells out the whole chain.
    PointerPath { path: String, cause: Box<WatchError> },
    /// The name of the active scene could not be had.
    SceneUnavailable,
    /// The target is in `active`, the source is bound to `expected`.
    SceneMismatch { active: String, expected: String },
    /// The root object, or one of the children below it, is not in the scene.
    ObjectNotFound,
    /// The object carries no component of the wanted type.
    ComponentNotFound,
    /// The object was found, its active flag could not be read.
    ActiveFlagUnreadable,
    /// A pointer behind an offset that was resolved on an earlier tick could
    /// not be followed.
    ResolvedDereference,
    /// The class of an object on the chain could not be had.
    ClassNotFound,
    /// The class has no field of the wanted name.
    FieldNotFound,
    /// A pointer behind an offset that was resolved just now could not be
    /// followed.
    RetrievedDereference,
    /// Every offset is known, the value at the end could not be read. `path`
    /// spells out the chain that was tried.
    FinalRead { path: String },
}

impl WatchError {
    /// The text of `message`.
    pub open spec fn message_text(self) -> Seq<char>
        decreases self,
    {
        match self {
            WatchError::Unreadable => "unable to read value from pointer path"@,
            WatchError::Source { message } => message@,
            WatchError::PointerPath { path, cause } => "failed to read pointer path "@ + path@
                + ": "@ + cause.message_text(),
            WatchError::SceneUnavailable => "failed to get current scene"@,
            WatchError::SceneMismatch { active, expected } =>
                "unable to get game object path, in scene "@ + active@
                    + " while expected scene was "@ + expected@,
            WatchError::ObjectNotFound => "couldnt find transform"@,
            WatchError::ComponentNotFound => "couldnt find component in game object"@,
            WatchError::ActiveFlagUnreadable => "couldnt get is active"@,
            WatchError::ResolvedDereference =>
                "couldnt dereference with already resolved offset"@,
            WatchError::ClassNotFound => "couldnt get class from object"@,
            WatchError::FieldNotFound => "couldnt get field from class"@,
            WatchError::RetrievedDereference => "couldnt dereference with retrieved offset"@,
            WatchError::FinalRead { path } => "couldnt read final bit "@ + path@,
        }
    }

    /// True for the two conditions that say "not in the expected scene": the
    /// ones on which a cached object must be forgotten.
    pub open spec fn is_scene_failure(self) -> bool {
        self is SceneUnavailable || self is SceneMismatch
    }

    /// A line for a log.
    pub fn message(&self) -> (text: String)
        ensures
            text@ == self.message_text(),
        decreases *self,
    {
        match self {
            WatchError::Unreadable => String::from_str("unable to read value from pointer path"),
            WatchError::Source { message } => message.clone(),
            WatchError::PointerPath { path, cause } => {
                let mut text = String::from_str("failed to read pointer path ");
                text.append(path.as_str());
                text.append(": ");
                let inner = cause.message();
                text.append(inner.as_str());
                text
            },
            WatchError::SceneUnavailable => String::from_str("failed to get current scene"),
            WatchError::SceneMismatch { active, expected } => {
                let mut text = String::from_str("unable to get game object path, in scene ");
                text.append(active.as_str());
                text.append(" while expected scene was ");
                text.append(expected.as_str());
                text
            },
            WatchError::ObjectNotFound => String::from_str("couldnt find transform"),
            WatchError::ComponentNotFound => String::from_str(
                "couldnt find component in game object",
            ),
            WatchError::ActiveFlagUnreadable => String::from_str("couldnt get is active"),
            WatchError::ResolvedDereference => String::from_str(
                "couldnt dereference with already resolved offset",
            ),
            WatchError::ClassNotFound => String::from_str("couldnt get class from object"),
            WatchError::FieldNotFound => String::from_str("couldnt get field from class"),
            WatchError::RetrievedDereference => String::from_str(
                "couldnt dereference with retrieved offset",
            ),
            WatchError::FinalRead { path } => {
                let mut text = String::from_str("couldnt read final bit ");
                text.append(path.as_str());
                text
            },
        }
    }
}

} // verus!
