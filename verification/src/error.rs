use vstd::prelude::*;

verus! {

/// The conditions that the state cache reports to its callers.
#[derive(Clone, Copy, Debug, PartialEq, Eq, Structural)]
pub enum StateError {
    /// A mandatory field of an event, or the membership of a membership
    /// event, is missing.
    MalformedEvent,
    /// An event without a state key was offered as room state.
    InvalidStateEvent,
    /// Nothing was saved under the key asked for.
    NotFound,
}

} // verus!
