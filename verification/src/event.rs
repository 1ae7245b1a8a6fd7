//! The decoded shape of an inbound event.
//!
//! A structured payload describes a modal dialog: an ordered sequence of
//! block descriptors (display definition) and, separately, a nested state
//! map holding the submitted values. A block descriptor carries no value;
//! only the state map does, keyed first by block identifier and then by
//! action identifier. The state map is held flat here, one entry per leaf.

use vstd::prelude::*;

verus! {

/// One block descriptor of a view: an opaque block identifier, an optional
/// human-readable label, and the action identifier of its input element.
#[derive(Clone, Debug, PartialEq, Eq)]
pub struct SlackBlock {
    pub block_id: Option<String>,
    pub label: Option<String>,
    pub action_id: Option<String>,
}

/// One leaf of the submitted-values state map: the value entered for the
/// element `action_id` of the block `block_id`.
#[derive(Clone, Debug, PartialEq, Eq)]
pub struct StateEntry {
    pub block_id: String,
    pub action_id: String,
    pub value: String,
}

/// A view document: block descriptors in order, plus the flat state map.
#[derive(Clone, Debug, PartialEq, Eq)]
pub struct SlackView {
    pub blocks: Vec<SlackBlock>,
    pub state: Vec<StateEntry>,
}

/// A structured payload: a type tag, an optional trigger identifier, and an
/// optional view document.
#[derive(Clone, Debug, PartialEq, Eq)]
pub struct SlackDoc {
    pub payload_type: Option<String>,
    pub trigger_id: Option<String>,
    pub view: Option<SlackView>,
}

/// Exact, case-sensitive string comparison.
pub(crate) fn str_eq(a: &str, b: &str) -> (r: bool)
    ensures
        r == (a@ == b@),
{
    let sa = a.to_owned();
    let sb = b.to_owned();
    sa == sb
}

} // verus!
