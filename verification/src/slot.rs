//! Write-once identity slots.
//!
//! An [`IndexSlot`] is a lazily-populated, stable handle that lets a parent
//! widget own and re-find its anonymous sub-widgets across frames. It is
//! created empty; the first resolution allocates a fresh identity from the
//! graph context and stores it, and every later resolution returns the stored
//! identity unchanged without touching the context.

use vstd::prelude::*;

use crate::graph::GraphContext;
use crate::graph::WidgetId;

verus! {

/// A write-once, read-many cache mapping a logical sub-widget role to its
/// allocated widget identity.
#[derive(Clone, Copy, Debug, PartialEq, Eq)]
pub struct IndexSlot {
    maybe_id: Option<WidgetId>,
}

impl IndexSlot {
    /// The stored identity: `None` until the first resolution, then forever
    /// the identity that resolution allocated.
    pub closed spec fn spec_id(&self) -> Option<WidgetId> {
        self.maybe_id
    }

    /// A new, empty slot.
    pub fn new() -> (r: IndexSlot)
        ensures
            r.spec_id() is None,
    {
        IndexSlot { maybe_id: None }
    }

    /// Resolve the slot to a widget identity.
    ///
    /// The first call allocates a fresh identity from the context and stores
    /// it; every subsequent call returns the stored identity unchanged and
    /// leaves the context untouched. Exactly one identity is allocated over
    /// the slot's lifetime.
    pub fn get(&mut self, ctx: &mut GraphContext) -> (id: WidgetId)
        requires
            old(self).spec_id() is None ==> old(ctx).next_id < WidgetId::MAX,
        ensures
            final(self).spec_id() == Some(id),
            old(self).spec_id() matches Some(stored) ==> id == stored && *final(self) == *old(self)
                && *final(ctx) == *old(ctx),
            old(self).spec_id() is None ==> id == old(ctx).next_id && *final(ctx) == (
            GraphContext { next_id: (old(ctx).next_id + 1) as WidgetId, ..*old(ctx) }),
    {
        match self.maybe_id {
            Some(id) => id,
            None => {
                let id = ctx.allocate_identity();
                self.maybe_id = Some(id);
                id
            },
        }
    }
}

} // verus!
