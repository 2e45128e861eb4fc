use vstd::prelude::*;

use crate::desktop::window::WindowId;

verus! {

/// Keeps every window except `id`.
pub open spec fn other_than(id: WindowId) -> spec_fn(WindowId) -> bool {
    |w: WindowId| w != id
}

/// The order `order` after `id` is raised: every other window keeps its
/// relative place, and `id` ends on top (at the end).
pub open spec fn raised(order: Seq<WindowId>, id: WindowId) -> Seq<WindowId> {
    order.filter(other_than(id)).push(id)
}

/// The windows from bottom to top.
#[derive(Debug)]
pub struct StackingOrder {
    order: Vec<WindowId>,
}

impl View for StackingOrder {
    type V = Seq<WindowId>;

    closed spec fn view(&self) -> Seq<WindowId> {
        self.order@
    }
}

impl Default for StackingOrder {
    /// An empty stack.
    fn default() -> (s: StackingOrder)
        ensures
            s@ == Seq::<WindowId>::empty(),
    {
        StackingOrder { order: Vec::new() }
    }
}

impl StackingOrder {
    /// Puts `id` on top.
    pub fn push(&mut self, id: WindowId)
        ensures
            final(self)@ == old(self)@.push(id),
    {
        self.order.push(id);
    }

    /// Removes every occurrence of `id` and puts it on top; the other
    /// windows keep their relative order below it.
    pub fn raise(&mut self, id: WindowId)
        ensures
            final(self)@ == raised(old(self)@, id),
            final(self)@.len() >= 1,
            final(self)@.last() == id,
            final(self)@.drop_last() == old(self)@.filter(|w: WindowId| w != id),
    {
        let ghost start = self.order@;
        let mut kept: Vec<WindowId> = Vec::new();
        let n = self.order.len();
        for i in 0..n
            invariant
                n == self.order@.len(),
                self.order@ == start,
                kept@ == start.take(i as int).filter(other_than(id)),
        {
            let w = self.order[i];
            proof {
                assert(start.take(i + 1).drop_last() =~= start.take(i as int));
                reveal_with_fuel(Seq::<_>::filter, 1);
            }
            if w.0 != id.0 {
                kept.push(w);
            }
        }
        proof {
            assert(start.take(n as int) =~= start);
            assert(other_than(id) =~= (|w: WindowId| w != id));
        }
        let ghost below = kept@;
        kept.push(id);
        proof {
            assert(kept@.drop_last() =~= below);
        }
        self.order = kept;
    }

    /// The windows from bottom to top.
    pub fn all(&self) -> (s: &[WindowId])
        ensures
            s@ == self@,
    {
        self.order.as_slice()
    }
}

} // verus!
