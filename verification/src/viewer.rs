//! The viewer: a reference with shared read-only access to the value.

use vstd::prelude::*;
use crate::cell::CellView;
use crate::holder::Holder;
use crate::owner::Owner;
use crate::raw::acquired;
use crate::raw::released;
use crate::raw::Heap;
use crate::raw::RawRef;
use crate::state::RefType;
use crate::state::State;

verus! {

/// A reference that reads the value of its cell. Any number of viewers may
/// exist side by side; none exists while the cell is owned.
#[derive(Debug, PartialEq, Eq, Hash)]
#[must_use]
pub struct Viewer<D> {
    ptr: RawRef<D>,
}

/// The sharer is the viewer under the role's other name.
pub type Sharer<D> = Viewer<D>;

impl<D> Viewer<D> {
    /// The address of the cell this viewer refers to.
    pub closed spec fn addr(&self) -> usize {
        self.ptr.addr()
    }

    /// The cell this viewer refers to.
    pub open spec fn cell(&self, heap: &Heap<D>) -> CellView<D> {
        heap@[self.addr()]
    }

    /// The viewer is one of the counted viewers of a live cell of `heap`.
    /// The value of such a cell is alive and has no owner.
    pub open spec fn valid(&self, heap: &Heap<D>) -> bool {
        &&& heap.wf()
        &&& heap@.dom().contains(self.addr())
        &&& self.cell(heap).state.sharers > 0
    }

    /// Wraps a raw reference that is counted as a viewer.
    pub(crate) fn from_raw(ptr: RawRef<D>) -> (r: Self)
        ensures
            r.addr() == ptr.addr(),
    {
        Viewer { ptr }
    }

    /// Unwraps the raw reference, which stays counted as a viewer.
    pub(crate) fn into_raw(self) -> (r: RawRef<D>)
        ensures
            r.addr() == self.addr(),
    {
        self.ptr
    }

    /// Allocates a cell around `data` and returns its first reference.
    pub fn new(data: D, heap: &mut Heap<D>) -> (r: Self)
        requires
            old(heap).wf(),
        ensures
            r.valid(final(heap)),
            !old(heap)@.dom().contains(r.addr()),
            final(heap)@ == old(heap)@.insert(r.addr(), CellView::new(data, RefType::Sharer)),
    {
        Viewer { ptr: RawRef::new_viewer(data, heap) }
    }

    /// A snapshot of the cell's state.
    pub fn state(viewer: &Self, heap: &Heap<D>) -> (r: State)
        requires
            viewer.valid(heap),
        ensures
            r@ == viewer.cell(heap).state,
    {
        viewer.ptr.shared(heap).state()
    }

    /// The raw reference behind this viewer.
    pub fn ptr(&self) -> (r: &RawRef<D>)
        ensures
            r.addr() == self.addr(),
    {
        &self.ptr
    }

    /// The value.
    pub fn deref<'a>(&self, heap: &'a Heap<D>) -> (r: &'a D)
        requires
            self.valid(heap),
        ensures
            self.cell(heap).value == Some(*r),
    {
        self.ptr.shared(heap).deref()
    }

    /// One more viewer of the same cell. This never fails: where one viewer
    /// exists, the value is alive and has no owner.
    pub fn clone(&self, heap: &mut Heap<D>) -> (r: Self)
        requires
            self.valid(old(heap)),
            self.cell(old(heap)).state.has_room(RefType::Sharer),
        ensures
            r.addr() == self.addr(),
            r.valid(final(heap)),
            final(heap)@ == acquired(old(heap)@, self.addr(), RefType::Sharer),
    {
        match self.ptr.clone_to_viewer(heap) {
            Ok(ptr) => Viewer { ptr },
            Err(_) => vstd::pervasive::unreached(),
        }
    }

    /// Gives up this viewer. If it was the last reference of any role the
    /// value is dropped and the cell is deallocated.
    pub fn drop(self, heap: &mut Heap<D>)
        requires
            self.valid(old(heap)),
        ensures
            final(heap).wf(),
            final(heap)@ == released(old(heap)@, self.addr(), RefType::Sharer),
    {
        self.ptr.drop_from_viewer(heap)
    }

    /// A viewer of the cell that `holder` keeps, unless the value is dropped
    /// or owned. The holder stays, and on refusal nothing changes.
    pub fn try_from_holder_ref(holder: &Holder<D>, heap: &mut Heap<D>) -> (r: Result<Self, State>)
        requires
            holder.valid(old(heap)),
            holder.cell(old(heap)).state.has_room(RefType::Sharer),
        ensures
            holder.valid(final(heap)),
            match r {
                Ok(v) => v.addr() == holder.addr() && v.valid(final(heap)) && holder.cell(
                    old(heap),
                ).state.can_acquire(RefType::Sharer) && final(heap)@ == acquired(
                    old(heap)@,
                    holder.addr(),
                    RefType::Sharer,
                ),
                Err(e) => !holder.cell(old(heap)).state.can_acquire(RefType::Sharer) && e@
                    == holder.cell(old(heap)).state && final(heap)@ == old(heap)@,
            },
    {
        match holder.ptr().clone_to_viewer(heap) {
            Ok(ptr) => Ok(Viewer { ptr }),
            Err(e) => Err(e),
        }
    }

    /// Turns a holder into a viewer of the same cell, unless the value is
    /// dropped or owned. The holder is given up either way.
    pub fn try_from_holder(holder: Holder<D>, heap: &mut Heap<D>) -> (r: Result<Self, State>)
        requires
            holder.valid(old(heap)),
            holder.cell(old(heap)).state.has_room(RefType::Sharer),
        ensures
            final(heap).wf(),
            match r {
                Ok(v) => v.addr() == holder.addr() && v.valid(final(heap)) && holder.cell(
                    old(heap),
                ).state.can_acquire(RefType::Sharer) && final(heap)@ == old(heap)@.insert(
                    holder.addr(),
                    holder.cell(old(heap)).convert(RefType::Holder, RefType::Sharer),
                ),
                Err(e) => !holder.cell(old(heap)).state.can_acquire(RefType::Sharer) && e@
                    == holder.cell(old(heap)).state && final(heap)@ == released(
                    old(heap)@,
                    holder.addr(),
                    RefType::Holder,
                ),
            },
    {
        let r = Viewer::try_from_holder_ref(&holder, heap);
        holder.drop(heap);
        r
    }

    /// Turns an owner into a viewer of the same cell. This never fails: the
    /// owner's value is alive, and giving up the owner frees the way.
    pub fn from_owner(owner: Owner<D>, heap: &mut Heap<D>) -> (r: Self)
        requires
            owner.valid(old(heap)),
            owner.cell(old(heap)).state.has_room(RefType::Holder),
        ensures
            r.addr() == owner.addr(),
            r.valid(final(heap)),
            final(heap)@ == old(heap)@.insert(
                owner.addr(),
                owner.cell(old(heap)).convert(RefType::Owner, RefType::Sharer),
            ),
    {
        let holder = Holder::from_owner(owner, heap);
        let ptr = match holder.ptr().clone_to_viewer(heap) {
            Ok(ptr) => ptr,
            Err(_) => vstd::pervasive::unreached(),
        };
        holder.drop(heap);
        Viewer { ptr }
    }
}

} // verus!
