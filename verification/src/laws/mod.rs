//! What the operations promise of their answers, whatever they are asked.
//!
//! Each law speaks of an operation through its contract: of every result that the operation can have
//! for the inputs that the law names.

use vstd::prelude::*;

use crate::json::JsonView;

pub mod bridge;
pub mod buffers;
pub mod diagnostics;
pub mod edits;
pub mod lookups;
pub mod menu;
pub mod messages;
pub mod places;
pub mod remote;
pub mod search;
pub mod servers;
pub mod symbols;
pub mod texts;
pub mod tools;

verus! {

/// The value is an object whose member of the name holds `held`; of several, the first counts.
pub open spec fn has_member(value: JsonView, name: Seq<char>, held: JsonView) -> bool {
    &&& value matches JsonView::Object(members)
    &&& exists|i: int|
        {
            &&& 0 <= i < members.len()
            &&& #[trigger] members[i] == (name, held)
            &&& (forall|j: int| 0 <= j < i ==> (#[trigger] members[j]).0 != name)
        }
}

/// The value is an object without a member of the name.
pub open spec fn lacks_member(value: JsonView, name: Seq<char>) -> bool {
    &&& value matches JsonView::Object(members)
    &&& (forall|j: int| 0 <= j < members.len() ==> (#[trigger] members[j]).0 != name)
}

/// A member is found under its name where no other stands before it under that name.
pub(crate) proof fn member_stands_at(members: Seq<(Seq<char>, JsonView)>, i: int)
    requires
        0 <= i < members.len(),
        forall|j: int| 0 <= j < i ==> (#[trigger] members[j]).0 != members[i].0,
    ensures
        has_member(JsonView::Object(members), members[i].0, members[i].1),
{
    let held = JsonView::Object(members)->Object_0;
    assert(held[i] == (members[i].0, members[i].1));
}

} // verus!
