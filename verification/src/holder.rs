//! The holder: a reference that keeps a cell allocated and nothing more.

use vstd::prelude::*;
use crate::cell::CellView;
use crate::owner::Owner;
use crate::raw::acquired;
use crate::raw::released;
use crate::raw::Heap;
use crate::raw::RawRef;
use crate::state::RefType;
use crate::state::State;
use crate::viewer::Viewer;

verus! {

/// A reference that keeps its cell allocated without any access to the
/// value. Holders outlive the value and may give the cell a new one.
#[derive(Debug, PartialEq, Eq, Hash)]
#[must_use]
pub struct Holder<D> {
    ptr: RawRef<D>,
}

impl<D> Holder<D> {
    /// The address of the cell this holder refers to.
    pub closed spec fn addr(&self) -> usize {
        self.ptr.addr()
    }

    /// The cell this holder refers to.
    pub open spec fn cell(&self, heap: &Heap<D>) -> CellView<D> {
        heap@[self.addr()]
    }

    /// The holder is one of the counted holders of a live cell of `heap`.
    pub open spec fn valid(&self, heap: &Heap<D>) -> bool {
        &&& heap.wf()
        &&& heap@.dom().contains(self.addr())
        &&& self.cell(heap).state.holders > 0
    }

    /// Allocates a cell around `data` and returns its first reference.
    pub fn new(data: D, heap: &mut Heap<D>) -> (r: Self)
        requires
            old(heap).wf(),
        ensures
            r.valid(final(heap)),
            !old(heap)@.dom().contains(r.addr()),
            final(heap)@ == old(heap)@.insert(r.addr(), CellView::new(data, RefType::Holder)),
    {
        Holder { ptr: RawRef::new_holder(data, heap) }
    }

    /// A snapshot of the cell's state.
    pub fn state(holder: &Self, heap: &Heap<D>) -> (r: State)
        requires
            holder.valid(heap),
        ensures
            r@ == holder.cell(heap).state,
    {
        holder.ptr.shared(heap).state()
    }

    /// The raw reference behind this holder.
    pub fn ptr(&self) -> (r: &RawRef<D>)
        ensures
            r.addr() == self.addr(),
    {
        &self.ptr
    }

    /// Gives a dropped cell a new value. A cell whose value is alive is left
    /// unchanged and reports its state; `data` is then discarded.
    pub fn reinit(holder: &Self, data: D, heap: &mut Heap<D>) -> (r: Result<(), State>)
        requires
            holder.valid(old(heap)),
        ensures
            holder.valid(final(heap)),
            match r {
                Ok(_) => holder.cell(old(heap)).state.dropped && final(heap)@ == old(heap)@.insert(
                    holder.addr(),
                    holder.cell(old(heap)).reinit(data),
                ),
                Err(e) => !holder.cell(old(heap)).state.dropped && e@ == holder.cell(
                    old(heap),
                ).state && final(heap)@ == old(heap)@,
            },
    {
        let r = holder.ptr.shared_mut(heap).reinit_data(data);
        r
    }

    /// One more holder of the same cell. This never fails.
    pub fn clone(&self, heap: &mut Heap<D>) -> (r: Self)
        requires
            self.valid(old(heap)),
            self.cell(old(heap)).state.has_room(RefType::Holder),
        ensures
            r.addr() == self.addr(),
            r.valid(final(heap)),
            final(heap)@ == acquired(old(heap)@, self.addr(), RefType::Holder),
    {
        Holder { ptr: self.ptr.clone_to_holder(heap) }
    }

    /// Gives up this holder. If it was the last reference of any role the
    /// value is dropped, and the cell is deallocated once its value is gone.
    pub fn drop(self, heap: &mut Heap<D>)
        requires
            self.valid(old(heap)),
        ensures
            final(heap).wf(),
            final(heap)@ == released(old(heap)@, self.addr(), RefType::Holder),
    {
        self.ptr.drop_from_holder(heap)
    }

    /// A holder of the cell that `viewer` reads. The viewer stays.
    pub fn from_viewer_ref(viewer: &Viewer<D>, heap: &mut Heap<D>) -> (r: Self)
        requires
            viewer.valid(old(heap)),
            viewer.cell(old(heap)).state.has_room(RefType::Holder),
        ensures
            r.addr() == viewer.addr(),
            r.valid(final(heap)),
            final(heap)@ == acquired(old(heap)@, viewer.addr(), RefType::Holder),
    {
        Holder { ptr: viewer.ptr().clone_to_holder(heap) }
    }

    /// Turns a viewer into a holder of the same cell.
    pub fn from_viewer(viewer: Viewer<D>, heap: &mut Heap<D>) -> (r: Self)
        requires
            viewer.valid(old(heap)),
            viewer.cell(old(heap)).state.has_room(RefType::Holder),
        ensures
            r.addr() == viewer.addr(),
            r.valid(final(heap)),
            final(heap)@ == old(heap)@.insert(
                viewer.addr(),
                viewer.cell(old(heap)).convert(RefType::Sharer, RefType::Holder),
            ),
    {
        let r = Holder::from_viewer_ref(&viewer, heap);
        viewer.drop(heap);
        r
    }

    /// A holder of the cell that `owner` owns. The owner stays.
    pub fn from_owner_ref(owner: &Owner<D>, heap: &mut Heap<D>) -> (r: Self)
        requires
            owner.valid(old(heap)),
            owner.cell(old(heap)).state.has_room(RefType::Holder),
        ensures
            r.addr() == owner.addr(),
            r.valid(final(heap)),
            final(heap)@ == acquired(old(heap)@, owner.addr(), RefType::Holder),
    {
        Holder { ptr: Owner::ptr(owner).clone_to_holder(heap) }
    }

    /// Turns an owner into a holder of the same cell. The value stays alive
    /// and may be shared or owned again.
    pub fn from_owner(owner: Owner<D>, heap: &mut Heap<D>) -> (r: Self)
        requires
            owner.valid(old(heap)),
            owner.cell(old(heap)).state.has_room(RefType::Holder),
        ensures
            r.addr() == owner.addr(),
            r.valid(final(heap)),
            final(heap)@ == old(heap)@.insert(
                owner.addr(),
                owner.cell(old(heap)).convert(RefType::Owner, RefType::Holder),
            ),
    {
        let r = Holder::from_owner_ref(&owner, heap);
        owner.drop(heap);
        r
    }
}

} // verus!
