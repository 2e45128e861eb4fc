use vstd::prelude::*;

verus! {

/// The key and button bindings; none are defined yet.
#[derive(Debug)]
pub struct Bindings;

impl Default for Bindings {
    fn default() -> (b: Bindings) {
        Bindings
    }
}

} // verus!
