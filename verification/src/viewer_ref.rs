//! The viewer's projection: shared access, narrowed to a part of the value.

use vstd::prelude::*;
use crate::cell::CellView;
use crate::holder::Holder;
use crate::owner::Owner;
use crate::owner_ref::OwnerRef;
use crate::raw::acquired;
use crate::raw::released;
use crate::raw::Heap;
use crate::raw::RawRef;
use crate::ref_::Ref;
use crate::state::RefType;
use crate::state::State;
use crate::viewer::Viewer;

verus! {

/// A viewer of a cell together with the address of the part of the value
/// that it reads. It counts as one of the cell's viewers in every respect.
#[derive(Debug, PartialEq, Eq, Hash)]
#[must_use]
pub struct ViewerRef<Source, Target> {
    ref_: Ref<Source, Target>,
}

impl<Source, Target> ViewerRef<Source, Target> {
    /// The address of the cell this reference reads.
    pub closed spec fn addr(&self) -> usize {
        self.ref_.addr()
    }

    /// The target.
    pub closed spec fn spec_target(&self) -> Target {
        self.ref_.spec_target()
    }

    /// The cell this reference reads.
    pub open spec fn cell(&self, heap: &Heap<Source>) -> CellView<Source> {
        heap@[self.addr()]
    }

    /// The reference is one of the counted viewers of a live cell of `heap`.
    pub open spec fn valid(&self, heap: &Heap<Source>) -> bool {
        &&& heap.wf()
        &&& heap@.dom().contains(self.addr())
        &&& self.cell(heap).state.sharers > 0
    }

    /// A snapshot of the cell's state.
    pub fn state(viewer: &Self, heap: &Heap<Source>) -> (r: State)
        requires
            viewer.valid(heap),
        ensures
            r@ == viewer.cell(heap).state,
    {
        viewer.ref_.source().shared(heap).state()
    }

    /// Narrows the target: `map` reads the value and the current target and
    /// returns the new one. The counts do not change.
    pub fn map<Target2, F>(viewer: Self, map: F, heap: &Heap<Source>) -> (r: ViewerRef<
        Source,
        Target2,
    >)
        where
            F: FnOnce(&Source, Target) -> Target2,
        requires
            viewer.valid(heap),
            map.requires((&viewer.cell(heap).value->0, viewer.spec_target())),
        ensures
            r.addr() == viewer.addr(),
            r.valid(heap),
            map.ensures((&viewer.cell(heap).value->0, viewer.spec_target()), r.spec_target()),
    {
        let value = viewer.ref_.deref(heap);
        ViewerRef { ref_: viewer.ref_.map_target(value, map) }
    }

    /// The raw reference that keeps the cell alive.
    pub fn source(viewer: &Self) -> (r: &RawRef<Source>)
        ensures
            r.addr() == viewer.addr(),
    {
        viewer.ref_.source()
    }

    /// The target.
    pub fn target(viewer: &Self) -> (r: &Target)
        ensures
            *r == viewer.spec_target(),
    {
        viewer.ref_.target()
    }

    /// Splits the reference into the plain viewer and the target.
    pub fn into_parts(self) -> (r: (Viewer<Source>, Target))
        ensures
            r.0.addr() == self.addr(),
            r.1 == self.spec_target(),
    {
        let (source, target) = self.ref_.into_parts();
        (Viewer::from_raw(source), target)
    }

    /// Pairs a plain viewer with a target.
    pub fn from_parts(viewer: Viewer<Source>, target: Target) -> (r: Self)
        ensures
            r.addr() == viewer.addr(),
            r.spec_target() == target,
    {
        ViewerRef { ref_: Ref::new(viewer.into_raw(), target) }
    }

    /// One more viewer of the same cell with the same target.
    pub fn clone(&self, heap: &mut Heap<Source>) -> (r: Self)
        where
            Target: Copy,
        requires
            self.valid(old(heap)),
            self.cell(old(heap)).state.has_room(RefType::Sharer),
        ensures
            r.addr() == self.addr(),
            r.spec_target() == self.spec_target(),
            r.valid(final(heap)),
            final(heap)@ == acquired(old(heap)@, self.addr(), RefType::Sharer),
    {
        let source = match self.ref_.source().clone_to_viewer(heap) {
            Ok(source) => source,
            Err(_) => vstd::pervasive::unreached(),
        };
        ViewerRef { ref_: Ref::new(source, *self.ref_.target()) }
    }

    /// Gives up this viewer. If it was the last reference of any role the
    /// value is dropped and the cell is deallocated.
    pub fn drop(self, heap: &mut Heap<Source>)
        requires
            self.valid(old(heap)),
        ensures
            final(heap).wf(),
            final(heap)@ == released(old(heap)@, self.addr(), RefType::Sharer),
    {
        let (source, _) = self.ref_.into_parts();
        source.drop_from_viewer(heap)
    }

    /// The value within which the target lies.
    pub fn deref<'a>(&self, heap: &'a Heap<Source>) -> (r: &'a Source)
        requires
            self.valid(heap),
        ensures
            self.cell(heap).value == Some(*r),
    {
        self.ref_.deref(heap)
    }

    /// Turns the owner's projection into a viewer's with the same target.
    /// This never fails.
    pub fn from_owner_ref(owner: OwnerRef<Source, Target>, heap: &mut Heap<Source>) -> (r: Self)
        requires
            owner.valid(old(heap)),
            owner.cell(old(heap)).state.has_room(RefType::Holder),
        ensures
            r.addr() == owner.addr(),
            r.spec_target() == owner.spec_target(),
            r.valid(final(heap)),
            final(heap)@ == old(heap)@.insert(
                owner.addr(),
                owner.cell(old(heap)).convert(RefType::Owner, RefType::Sharer),
            ),
    {
        let (owner, target) = owner.into_parts();
        ViewerRef::from_parts(Viewer::from_owner(owner, heap), target)
    }
}

impl<Source> ViewerRef<Source, ()> {
    /// Turns a viewer into its identity projection. The counts do not change.
    pub fn from_viewer(viewer: Viewer<Source>) -> (r: Self)
        ensures
            r.addr() == viewer.addr(),
    {
        ViewerRef { ref_: Ref::from_source(viewer.into_raw()) }
    }

    /// The identity projection of one more viewer of the cell that `viewer`
    /// reads. The viewer stays.
    pub fn from_viewer_ref(viewer: &Viewer<Source>, heap: &mut Heap<Source>) -> (r: Self)
        requires
            viewer.valid(old(heap)),
            viewer.cell(old(heap)).state.has_room(RefType::Sharer),
        ensures
            r.addr() == viewer.addr(),
            r.valid(final(heap)),
            final(heap)@ == acquired(old(heap)@, viewer.addr(), RefType::Sharer),
    {
        ViewerRef::from_viewer(viewer.clone(heap))
    }

    /// The identity projection of a viewer of the cell that `holder` keeps,
    /// unless the value is dropped or owned. The holder stays, and on
    /// refusal nothing changes.
    pub fn try_from_holder_ref(holder: &Holder<Source>, heap: &mut Heap<Source>) -> (r: Result<
        Self,
        State,
    >)
        requires
            holder.valid(old(heap)),
            holder.cell(old(heap)).state.has_room(RefType::Sharer),
        ensures
            holder.valid(final(heap)),
            match r {
                Ok(v) => v.addr() == holder.addr() && v.valid(final(heap)) && holder.cell(
                    old(heap),
                ).state.can_acquire(RefType::Sharer) && final(heap)@ == acquired(
                    old(heap)@,
                    holder.addr(),
                    RefType::Sharer,
                ),
                Err(e) => !holder.cell(old(heap)).state.can_acquire(RefType::Sharer) && e@
                    == holder.cell(old(heap)).state && final(heap)@ == old(heap)@,
            },
    {
        match Viewer::try_from_holder_ref(holder, heap) {
            Ok(viewer) => Ok(ViewerRef::from_viewer(viewer)),
            Err(e) => Err(e),
        }
    }

    /// Turns a holder into the identity projection of a viewer of the same
    /// cell, unless the value is dropped or owned. The holder is given up
    /// either way.
    pub fn try_from_holder(holder: Holder<Source>, heap: &mut Heap<Source>) -> (r: Result<
        Self,
        State,
    >)
        requires
            holder.valid(old(heap)),
            holder.cell(old(heap)).state.has_room(RefType::Sharer),
        ensures
            final(heap).wf(),
            match r {
                Ok(v) => v.addr() == holder.addr() && v.valid(final(heap)) && holder.cell(
                    old(heap),
                ).state.can_acquire(RefType::Sharer) && final(heap)@ == old(heap)@.insert(
                    holder.addr(),
                    holder.cell(old(heap)).convert(RefType::Holder, RefType::Sharer),
                ),
                Err(e) => !holder.cell(old(heap)).state.can_acquire(RefType::Sharer) && e@
                    == holder.cell(old(heap)).state && final(heap)@ == released(
                    old(heap)@,
                    holder.addr(),
                    RefType::Holder,
                ),
            },
    {
        match Viewer::try_from_holder(holder, heap) {
            Ok(viewer) => Ok(ViewerRef::from_viewer(viewer)),
            Err(e) => Err(e),
        }
    }

    /// Turns an owner into the identity projection of a viewer of the same
    /// cell. This never fails.
    pub fn from_owner(owner: Owner<Source>, heap: &mut Heap<Source>) -> (r: Self)
        requires
            owner.valid(old(heap)),
            owner.cell(old(heap)).state.has_room(RefType::Holder),
        ensures
            r.addr() == owner.addr(),
            r.valid(final(heap)),
            final(heap)@ == old(heap)@.insert(
                owner.addr(),
                owner.cell(old(heap)).convert(RefType::Owner, RefType::Sharer),
            ),
    {
        ViewerRef::from_viewer(Viewer::from_owner(owner, heap))
    }
}

} // verus!
