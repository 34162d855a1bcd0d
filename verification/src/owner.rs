//! The owner: the one reference with exclusive read-write access.

use vstd::prelude::*;
use crate::cell::CellView;
use crate::holder::Holder;
use crate::owner_ref::OwnerRef;
use crate::viewer_ref::ViewerRef;
use crate::raw::released;
use crate::raw::Heap;
use crate::raw::RawRef;
use crate::state::RefType;
use crate::state::State;
use crate::viewer::Viewer;

verus! {

/// The reference that reads and writes the value of its cell. While it
/// exists there is no viewer and no second owner.
#[derive(Debug, PartialEq, Eq, Hash)]
#[must_use]
pub struct Owner<D> {
    ptr: RawRef<D>,
}

impl<D> Owner<D> {
    /// The address of the cell this owner refers to.
    pub closed spec fn addr(&self) -> usize {
        self.ptr.addr()
    }

    /// The cell this owner refers to.
    pub open spec fn cell(&self, heap: &Heap<D>) -> CellView<D> {
        heap@[self.addr()]
    }

    /// The owner is the counted owner of a live cell of `heap` whose value
    /// is alive.
    pub open spec fn valid(&self, heap: &Heap<D>) -> bool {
        &&& heap.wf()
        &&& heap@.dom().contains(self.addr())
        &&& self.cell(heap).state.owned
        &&& !self.cell(heap).state.dropped
    }

    /// Wraps a raw reference that is counted as the owner.
    pub(crate) fn from_raw(ptr: RawRef<D>) -> (r: Self)
        ensures
            r.addr() == ptr.addr(),
    {
        Owner { ptr }
    }

    /// Unwraps the raw reference, which stays counted as the owner.
    pub(crate) fn into_raw(self) -> (r: RawRef<D>)
        ensures
            r.addr() == self.addr(),
    {
        self.ptr
    }

    /// Allocates a cell around `data` and returns its first reference.
    pub fn new(data: D, heap: &mut Heap<D>) -> (r: Self)
        requires
            old(heap).wf(),
        ensures
            r.valid(final(heap)),
            !old(heap)@.dom().contains(r.addr()),
            final(heap)@ == old(heap)@.insert(r.addr(), CellView::new(data, RefType::Owner)),
    {
        Owner { ptr: RawRef::new_owner(data, heap) }
    }

    /// A snapshot of the cell's state.
    pub fn state(owner: &Self, heap: &Heap<D>) -> (r: State)
        requires
            owner.valid(heap),
        ensures
            r@ == owner.cell(heap).state,
    {
        owner.ptr.shared(heap).state()
    }

    /// Takes the value out of the cell and gives up the owner. The value
    /// counts as dropped; holders that remain may give the cell a new one.
    pub fn move_data(owner: Self, heap: &mut Heap<D>) -> (r: D)
        requires
            owner.valid(old(heap)),
        ensures
            final(heap).wf(),
            owner.cell(old(heap)).value == Some(r),
            final(heap)@ == released(
                old(heap)@.insert(owner.addr(), owner.cell(old(heap)).consume()),
                owner.addr(),
                RefType::Owner,
            ),
    {
        let cell = owner.ptr.shared_mut(heap);
        let data = cell.move_data();
        owner.ptr.drop_from_owner(heap);
        data
    }

    /// Destroys the value and gives up the owner. Holders that remain may
    /// give the cell a new value.
    pub fn drop_data(owner: Self, heap: &mut Heap<D>)
        requires
            owner.valid(old(heap)),
        ensures
            final(heap).wf(),
            final(heap)@ == released(
                old(heap)@.insert(owner.addr(), owner.cell(old(heap)).consume()),
                owner.addr(),
                RefType::Owner,
            ),
    {
        let cell = owner.ptr.shared_mut(heap);
        cell.drop_data();
        owner.ptr.drop_from_owner(heap);
    }

    /// The raw reference behind this owner.
    pub fn ptr(owner: &Self) -> (r: &RawRef<D>)
        ensures
            r.addr() == owner.addr(),
    {
        &owner.ptr
    }

    /// The value, for reading.
    pub fn deref<'a>(&self, heap: &'a Heap<D>) -> (r: &'a D)
        requires
            self.valid(heap),
        ensures
            self.cell(heap).value == Some(*r),
    {
        self.ptr.shared(heap).deref()
    }

    /// The value, for writing. Whatever is written is the cell's value
    /// afterwards; the counts do not change.
    pub fn deref_mut<'a>(&self, heap: &'a mut Heap<D>) -> (r: &'a mut D)
        requires
            self.valid(old(heap)),
        ensures
            self.cell(old(heap)).value == Some(*r),
            self.valid(final(heap)),
            final(heap)@ == old(heap)@.insert(
                self.addr(),
                self.cell(old(heap)).with_value(*final(r)),
            ),
    {
        self.ptr.shared_mut(heap).deref_mut()
    }

    /// Gives up this owner. Viewers and owners may attach again; if no
    /// reference of any role is left the value is dropped and the cell is
    /// deallocated.
    pub fn drop(self, heap: &mut Heap<D>)
        requires
            self.valid(old(heap)),
        ensures
            final(heap).wf(),
            final(heap)@ == released(old(heap)@, self.addr(), RefType::Owner),
    {
        self.ptr.drop_from_owner(heap)
    }

    /// The owner of the cell that `holder` keeps, unless the value is
    /// dropped, viewed or owned. The holder stays, and on refusal nothing
    /// changes.
    pub fn try_from_holder_ref(holder: &Holder<D>, heap: &mut Heap<D>) -> (r: Result<Self, State>)
        requires
            holder.valid(old(heap)),
        ensures
            holder.valid(final(heap)),
            match r {
                Ok(o) => o.addr() == holder.addr() && o.valid(final(heap)) && holder.cell(
                    old(heap),
                ).state.can_acquire(RefType::Owner) && final(heap)@ == old(heap)@.insert(
                    holder.addr(),
                    holder.cell(old(heap)).acquire(RefType::Owner),
                ),
                Err(e) => !holder.cell(old(heap)).state.can_acquire(RefType::Owner) && e@
                    == holder.cell(old(heap)).state && final(heap)@ == old(heap)@,
            },
    {
        match holder.ptr().clone_to_owner(heap) {
            Ok(ptr) => Ok(Owner { ptr }),
            Err(e) => Err(e),
        }
    }

    /// Turns a holder into the owner of the same cell, unless the value is
    /// dropped, viewed or owned. The holder is given up either way.
    pub fn try_from_holder(holder: Holder<D>, heap: &mut Heap<D>) -> (r: Result<Self, State>)
        requires
            holder.valid(old(heap)),
        ensures
            final(heap).wf(),
            match r {
                Ok(o) => o.addr() == holder.addr() && o.valid(final(heap)) && holder.cell(
                    old(heap),
                ).state.can_acquire(RefType::Owner) && final(heap)@ == old(heap)@.insert(
                    holder.addr(),
                    holder.cell(old(heap)).convert(RefType::Holder, RefType::Owner),
                ),
                Err(e) => !holder.cell(old(heap)).state.can_acquire(RefType::Owner) && e@
                    == holder.cell(old(heap)).state && final(heap)@ == released(
                    old(heap)@,
                    holder.addr(),
                    RefType::Holder,
                ),
            },
    {
        let r = Owner::try_from_holder_ref(&holder, heap);
        holder.drop(heap);
        r
    }

    /// Turns a viewer into the owner of the same cell, which succeeds if and
    /// only if it is the last viewer. The viewer is given up either way; the
    /// state reported on refusal is the one that refused, in which a holder
    /// stands in for the viewer.
    pub fn try_from_viewer(viewer: Viewer<D>, heap: &mut Heap<D>) -> (r: Result<Self, State>)
        requires
            viewer.valid(old(heap)),
            viewer.cell(old(heap)).state.has_room(RefType::Holder),
        ensures
            final(heap).wf(),
            match r {
                Ok(o) => o.addr() == viewer.addr() && o.valid(final(heap)) && viewer.cell(
                    old(heap),
                ).state.sharers == 1 && final(heap)@ == old(heap)@.insert(
                    viewer.addr(),
                    viewer.cell(old(heap)).convert(RefType::Sharer, RefType::Owner),
                ),
                Err(e) => viewer.cell(old(heap)).state.sharers > 1 && e@ == viewer.cell(
                    old(heap),
                ).convert(RefType::Sharer, RefType::Holder).state && final(heap)@ == released(
                    old(heap)@,
                    viewer.addr(),
                    RefType::Sharer,
                ),
            },
    {
        let holder = Holder::from_viewer(viewer, heap);
        let r = Owner::try_from_holder_ref(&holder, heap);
        holder.drop(heap);
        r
    }

    /// Turns a viewer's projection into the owner of the same cell, which
    /// succeeds if and only if it is the last viewer. The target is
    /// discarded and the viewer is given up either way.
    pub fn try_from_viewer_ref<Target>(viewer: ViewerRef<D, Target>, heap: &mut Heap<D>) -> (r:
        Result<Self, State>)
        requires
            viewer.valid(old(heap)),
            viewer.cell(old(heap)).state.has_room(RefType::Holder),
        ensures
            final(heap).wf(),
            match r {
                Ok(o) => o.addr() == viewer.addr() && o.valid(final(heap)) && viewer.cell(
                    old(heap),
                ).state.sharers == 1 && final(heap)@ == old(heap)@.insert(
                    viewer.addr(),
                    viewer.cell(old(heap)).convert(RefType::Sharer, RefType::Owner),
                ),
                Err(e) => viewer.cell(old(heap)).state.sharers > 1 && e@ == viewer.cell(
                    old(heap),
                ).convert(RefType::Sharer, RefType::Holder).state && final(heap)@ == released(
                    old(heap)@,
                    viewer.addr(),
                    RefType::Sharer,
                ),
            },
    {
        let (viewer, _) = viewer.into_parts();
        Owner::try_from_viewer(viewer, heap)
    }

    /// Turns the owner's projection back into the plain owner. The target is
    /// discarded; the counts do not change.
    pub fn from_owner_ref<Target>(owner: OwnerRef<D, Target>) -> (r: Self)
        ensures
            r.addr() == owner.addr(),
    {
        let (owner, _) = owner.into_parts();
        owner
    }
}

} // verus!
