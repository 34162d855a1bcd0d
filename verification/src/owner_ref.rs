//! The owner's projection: exclusive access, narrowed to a part of the value.

use vstd::prelude::*;
use crate::cell::CellView;
use crate::holder::Holder;
use crate::owner::Owner;
use crate::raw::released;
use crate::raw::Heap;
use crate::raw::RawRef;
use crate::ref_::Ref;
use crate::state::RefType;
use crate::state::State;
use crate::viewer::Viewer;

verus! {

/// The owner of a cell together with the address of the part of the value
/// that it works on. It counts as the cell's owner in every respect.
#[derive(Debug, PartialEq, Eq, Hash)]
#[must_use]
pub struct OwnerRef<Source, Target> {
    ref_: Ref<Source, Target>,
}

impl<Source, Target> OwnerRef<Source, Target> {
    /// The address of the cell this reference owns.
    pub closed spec fn addr(&self) -> usize {
        self.ref_.addr()
    }

    /// The target.
    pub closed spec fn spec_target(&self) -> Target {
        self.ref_.spec_target()
    }

    /// The cell this reference owns.
    pub open spec fn cell(&self, heap: &Heap<Source>) -> CellView<Source> {
        heap@[self.addr()]
    }

    /// The reference is the counted owner of a live cell of `heap` whose
    /// value is alive.
    pub open spec fn valid(&self, heap: &Heap<Source>) -> bool {
        &&& heap.wf()
        &&& heap@.dom().contains(self.addr())
        &&& self.cell(heap).state.owned
        &&& !self.cell(heap).state.dropped
    }

    /// A snapshot of the cell's state.
    pub fn state(owner: &Self, heap: &Heap<Source>) -> (r: State)
        requires
            owner.valid(heap),
        ensures
            r@ == owner.cell(heap).state,
    {
        owner.ref_.source().shared(heap).state()
    }

    /// Narrows the target: `map` reads the value and the current target and
    /// returns the new one. The cell stays owned throughout and its counts
    /// do not change.
    pub fn map<Target2, F>(owner: Self, map: F, heap: &Heap<Source>) -> (r: OwnerRef<
        Source,
        Target2,
    >)
        where
            F: FnOnce(&Source, Target) -> Target2,
        requires
            owner.valid(heap),
            map.requires((&owner.cell(heap).value->0, owner.spec_target())),
        ensures
            r.addr() == owner.addr(),
            r.valid(heap),
            map.ensures((&owner.cell(heap).value->0, owner.spec_target()), r.spec_target()),
    {
        let value = owner.ref_.deref(heap);
        OwnerRef { ref_: owner.ref_.map_target(value, map) }
    }

    /// Narrows the target with a `map` that may fail. On success the cell
    /// stays owned and its counts do not change. On failure the error of
    /// `map` is returned and the owner is given up.
    pub fn try_map<Target2, E, F>(owner: Self, map: F, heap: &mut Heap<Source>) -> (r: Result<
        OwnerRef<Source, Target2>,
        E,
    >)
        where
            F: FnOnce(&Source, Target) -> Result<Target2, E>,
        requires
            owner.valid(old(heap)),
            map.requires((&owner.cell(old(heap)).value->0, owner.spec_target())),
        ensures
            final(heap).wf(),
            match r {
                Ok(n) => n.addr() == owner.addr() && n.valid(final(heap)) && final(heap)@ == old(
                    heap,
                )@ && map.ensures(
                    (&owner.cell(old(heap)).value->0, owner.spec_target()),
                    Ok(n.spec_target()),
                ),
                Err(e) => final(heap)@ == released(old(heap)@, owner.addr(), RefType::Owner)
                    && map.ensures(
                    (&owner.cell(old(heap)).value->0, owner.spec_target()),
                    Err(e),
                ),
            },
    {
        let value = owner.ref_.deref(heap);
        match owner.ref_.try_map_target(value, map) {
            Ok(ref_) => Ok(OwnerRef { ref_ }),
            Err((source, e)) => {
                source.drop_from_owner(heap);
                Err(e)
            },
        }
    }

    /// The raw reference that keeps the cell alive.
    pub fn source(owner: &Self) -> (r: &RawRef<Source>)
        ensures
            r.addr() == owner.addr(),
    {
        owner.ref_.source()
    }

    /// The target.
    pub fn target(owner: &Self) -> (r: &Target)
        ensures
            *r == owner.spec_target(),
    {
        owner.ref_.target()
    }

    /// Splits the reference into the plain owner and the target.
    pub fn into_parts(self) -> (r: (Owner<Source>, Target))
        ensures
            r.0.addr() == self.addr(),
            r.1 == self.spec_target(),
    {
        let (source, target) = self.ref_.into_parts();
        (Owner::from_raw(source), target)
    }

    /// Pairs a plain owner with a target.
    pub fn from_parts(owner: Owner<Source>, target: Target) -> (r: Self)
        ensures
            r.addr() == owner.addr(),
            r.spec_target() == target,
    {
        OwnerRef { ref_: Ref::new(owner.into_raw(), target) }
    }

    /// Gives up this owner. Viewers and owners may attach again; if no
    /// reference of any role is left the value is dropped and the cell is
    /// deallocated.
    pub fn drop(self, heap: &mut Heap<Source>)
        requires
            self.valid(old(heap)),
        ensures
            final(heap).wf(),
            final(heap)@ == released(old(heap)@, self.addr(), RefType::Owner),
    {
        let (source, _) = self.ref_.into_parts();
        source.drop_from_owner(heap)
    }

    /// The value within which the target lies, for reading.
    pub fn deref<'a>(&self, heap: &'a Heap<Source>) -> (r: &'a Source)
        requires
            self.valid(heap),
        ensures
            self.cell(heap).value == Some(*r),
    {
        self.ref_.deref(heap)
    }

    /// The value within which the target lies, for writing. Whatever is
    /// written is the cell's value afterwards; the counts do not change.
    pub fn deref_mut<'a>(&self, heap: &'a mut Heap<Source>) -> (r: &'a mut Source)
        requires
            self.valid(old(heap)),
        ensures
            self.cell(old(heap)).value == Some(*r),
            self.valid(final(heap)),
            final(heap)@ == old(heap)@.insert(
                self.addr(),
                self.cell(old(heap)).with_value(*final(r)),
            ),
    {
        self.ref_.deref_mut(heap)
    }
}

impl<Source> OwnerRef<Source, ()> {
    /// Turns an owner into its identity projection. The counts do not change.
    pub fn from_owner(owner: Owner<Source>) -> (r: Self)
        ensures
            r.addr() == owner.addr(),
    {
        OwnerRef { ref_: Ref::from_source(owner.into_raw()) }
    }

    /// The identity projection of the owner of the cell that `holder` keeps,
    /// unless the value is dropped, viewed or owned. The holder stays, and
    /// on refusal nothing changes.
    pub fn try_from_holder_ref(holder: &Holder<Source>, heap: &mut Heap<Source>) -> (r: Result<
        Self,
        State,
    >)
        requires
            holder.valid(old(heap)),
        ensures
            holder.valid(final(heap)),
            match r {
                Ok(o) => o.addr() == holder.addr() && o.valid(final(heap)) && holder.cell(
                    old(heap),
                ).state.can_acquire(RefType::Owner) && final(heap)@ == old(heap)@.insert(
                    holder.addr(),
                    holder.cell(old(heap)).acquire(RefType::Owner),
                ),
                Err(e) => !holder.cell(old(heap)).state.can_acquire(RefType::Owner) && e@
                    == holder.cell(old(heap)).state && final(heap)@ == old(heap)@,
            },
    {
        match Owner::try_from_holder_ref(holder, heap) {
            Ok(owner) => Ok(OwnerRef::from_owner(owner)),
            Err(e) => Err(e),
        }
    }

    /// Turns a holder into the identity projection of the owner of the same
    /// cell, unless the value is dropped, viewed or owned. The holder is
    /// given up either way.
    pub fn try_from_holder(holder: Holder<Source>, heap: &mut Heap<Source>) -> (r: Result<
        Self,
        State,
    >)
        requires
            holder.valid(old(heap)),
        ensures
            final(heap).wf(),
            match r {
                Ok(o) => o.addr() == holder.addr() && o.valid(final(heap)) && holder.cell(
                    old(heap),
                ).state.can_acquire(RefType::Owner) && final(heap)@ == old(heap)@.insert(
                    holder.addr(),
                    holder.cell(old(heap)).convert(RefType::Holder, RefType::Owner),
                ),
                Err(e) => !holder.cell(old(heap)).state.can_acquire(RefType::Owner) && e@
                    == holder.cell(old(heap)).state && final(heap)@ == released(
                    old(heap)@,
                    holder.addr(),
                    RefType::Holder,
                ),
            },
    {
        match Owner::try_from_holder(holder, heap) {
            Ok(owner) => Ok(OwnerRef::from_owner(owner)),
            Err(e) => Err(e),
        }
    }

    /// Turns a viewer into the identity projection of the owner of the same
    /// cell, which succeeds if and only if it is the last viewer. The viewer
    /// is given up either way; the state reported on refusal is the one that
    /// refused, in which a holder stands in for the viewer.
    pub fn try_from_viewer(viewer: Viewer<Source>, heap: &mut Heap<Source>) -> (r: Result<
        Self,
        State,
    >)
        requires
            viewer.valid(old(heap)),
            viewer.cell(old(heap)).state.has_room(RefType::Holder),
        ensures
            final(heap).wf(),
            match r {
                Ok(o) => o.addr() == viewer.addr() && o.valid(final(heap)) && viewer.cell(
                    old(heap),
                ).state.sharers == 1 && final(heap)@ == old(heap)@.insert(
                    viewer.addr(),
                    viewer.cell(old(heap)).convert(RefType::Sharer, RefType::Owner),
                ),
                Err(e) => viewer.cell(old(heap)).state.sharers > 1 && e@ == viewer.cell(
                    old(heap),
                ).convert(RefType::Sharer, RefType::Holder).state && final(heap)@ == released(
                    old(heap)@,
                    viewer.addr(),
                    RefType::Sharer,
                ),
            },
    {
        match Owner::try_from_viewer(viewer, heap) {
            Ok(owner) => Ok(OwnerRef::from_owner(owner)),
            Err(e) => Err(e),
        }
    }
}

} // verus!
