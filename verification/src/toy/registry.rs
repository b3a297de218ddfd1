//! The stable display order of the known toys.
use vstd::prelude::*;

verus! {

/// The toy ids in display order.
pub open spec fn toy_order_spec() -> Seq<Seq<char>> {
    seq!["polytopes"@, "debug_scratchpad"@]
}

/// Returns toy IDs in the preferred display order.
pub fn toy_id_order() -> (r: Vec<&'static str>)
    ensures
        r@.len() == toy_order_spec().len(),
        forall|i: int| 0 <= i < r@.len() ==> (#[trigger] r@[i])@ == toy_order_spec()[i],
{
    let mut ids: Vec<&'static str> = Vec::new();
    ids.push("polytopes");
    ids.push("debug_scratchpad");
    assert forall|i: int| 0 <= i < ids@.len() implies (#[trigger] ids@[i])@ == toy_order_spec()[i] by {
        if i == 0 {
        } else {
        }
    }
    ids
}

} // verus!
