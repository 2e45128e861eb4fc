use vstd::prelude::*;

verus! {

/// A named workspace.
#[derive(Debug, Clone)]
pub struct Workspace {
    pub name: String,
}

impl Workspace {
    pub fn new(name: &str) -> (w: Workspace)
        ensures
            w.name@ == name@,
    {
        Workspace { name: name.to_owned() }
    }
}

} // verus!
