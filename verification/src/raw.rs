//! The heap of shared cells and the raw reference into it.
//!
//! A [`Heap`] stands for the allocator: a cell is allocated into a slot when
//! its first reference is made and the slot is freed when its last reference
//! is released. A [`RawRef`] is the address of one slot. It carries no role;
//! the role is named on every call, and the typed references built on top fix
//! it once and for all.

use vstd::prelude::*;
use core::marker::PhantomData;
use crate::cell::CellView;
use crate::cell::SharedCell;
use crate::state::RefType;
use crate::state::State;

verus! {

/// A slab of shared cells. A cell lives in one slot from its allocation to
/// its deallocation; freed slots are handed out again.
pub struct Heap<D> {
    slots: Vec<Option<SharedCell<D>>>,
    free: Vec<usize>,
}

/// A non-owning handle on one cell of a [`Heap`].
#[derive(Debug, PartialEq, Eq, Hash)]
#[must_use]
pub struct RawRef<D> {
    addr: usize,
    phantom: PhantomData<D>,
}

/// The live cells of a heap, by address.
pub type HeapView<D> = Map<usize, CellView<D>>;

/// The live cells after a reference of the given role was attached to the
/// cell at `addr`.
pub open spec fn acquired<D>(cells: HeapView<D>, addr: usize, role: RefType) -> HeapView<D> {
    cells.insert(addr, cells[addr].acquire(role))
}

/// The live cells after a reference of the given role was detached from the
/// cell at `addr`: the cell settles, and it is deallocated if that was its
/// last reference.
pub open spec fn released<D>(cells: HeapView<D>, addr: usize, role: RefType) -> HeapView<D> {
    let cell = cells[addr].release(role);
    if cell.state.should_dealloc() {
        cells.remove(addr)
    } else {
        cells.insert(addr, cell)
    }
}

/// Every live cell is well formed and referenced by someone.
pub open spec fn cells_wf<D>(cells: HeapView<D>) -> bool {
    forall|a: usize| #[trigger]
        cells.dom().contains(a) ==> cells[a].wf() && cells[a].state.referenced()
}

impl<D> View for Heap<D> {
    type V = HeapView<D>;

    closed spec fn view(&self) -> HeapView<D> {
        Map::new(
            |a: usize| a < self.slots.len() && self.slots[a as int] is Some,
            |a: usize| self.slots[a as int]->0@,
        )
    }
}

impl<D> Heap<D> {
    /// The free list names exactly the empty slots, each once.
    pub closed spec fn inv(&self) -> bool {
        &&& forall|i: int|
            0 <= i < self.free.len() ==> (#[trigger] self.free[i]) < self.slots.len()
                && self.slots[self.free[i] as int] is None
        &&& forall|i: int, j: int|
            0 <= i < j < self.free.len() ==> self.free[i] != self.free[j]
        &&& forall|a: int|
            0 <= a < self.slots.len() && (#[trigger] self.slots[a]) is None ==> exists|i: int|
                0 <= i < self.free.len() && self.free[i] == a
    }

    /// The heap is consistent and so is every live cell.
    pub open spec fn wf(&self) -> bool {
        self.inv() && cells_wf(self@)
    }

    /// An empty heap.
    pub fn new() -> (r: Self)
        ensures
            r@ == HeapView::<D>::empty(),
            r.wf(),
    {
        let r = Heap { slots: Vec::new(), free: Vec::new() };
        r
    }

    /// Whether a live cell stands at `addr`.
    pub fn contains(&self, addr: usize) -> (r: bool)
        ensures
            r == self@.dom().contains(addr),
    {
        addr < self.slots.len() && self.slots[addr].is_some()
    }

    /// Puts a cell into an empty slot and returns the slot's address.
    fn allocate(&mut self, cell: SharedCell<D>) -> (addr: usize)
        requires
            old(self).inv(),
        ensures
            final(self).inv(),
            !old(self)@.dom().contains(addr),
            final(self)@ == old(self)@.insert(addr, cell@),
    {
        let ghost free = self.free@;
        match self.free.pop() {
            Some(addr) => {
                self.slots[addr] = Some(cell);
                assert forall|a: int|
                    0 <= a < self.slots.len() && (#[trigger] self.slots[a]) is None implies exists|
                    i: int,
                | 0 <= i < self.free.len() && self.free[i] == a by {
                    let i = choose|i: int| 0 <= i < free.len() && free[i] == a;
                    assert(self.free[i] == a);
                }
                addr
            },
            None => {
                self.slots.push(Some(cell));
                self.slots.len() - 1
            },
        }
    }

    /// Empties the slot at `addr` and puts it on the free list.
    fn deallocate(&mut self, addr: usize)
        requires
            old(self).inv(),
            old(self)@.dom().contains(addr),
        ensures
            final(self).inv(),
            final(self)@ == old(self)@.remove(addr),
    {
        let ghost free = self.free@;
        self.slots[addr] = None;
        self.free.push(addr);
        assert forall|a: int|
            0 <= a < self.slots.len() && (#[trigger] self.slots[a]) is None implies exists|i: int|
            0 <= i < self.free.len() && self.free[i] == a by {
            if a == addr {
                assert(self.free[free.len() as int] == a);
            } else {
                let i = choose|i: int| 0 <= i < free.len() && free[i] == a;
                assert(self.free[i] == a);
            }
        }
    }

    /// The cell at `addr`.
    fn cell(&self, addr: usize) -> (r: &SharedCell<D>)
        requires
            self@.dom().contains(addr),
        ensures
            r@ == self@[addr],
    {
        match &self.slots[addr] {
            Some(cell) => cell,
            None => vstd::pervasive::unreached(),
        }
    }

    /// The cell at `addr`, for writing.
    fn cell_mut(&mut self, addr: usize) -> (r: &mut SharedCell<D>)
        requires
            old(self).inv(),
            old(self)@.dom().contains(addr),
        ensures
            r@ == old(self)@[addr],
            final(self).inv(),
            final(self)@ == old(self)@.insert(addr, final(r)@),
    {
        match &mut self.slots[addr] {
            Some(cell) => cell,
            None => vstd::pervasive::unreached(),
        }
    }
}

impl<D> Default for Heap<D> {
    /// An empty heap.
    fn default() -> (r: Self)
        ensures
            r@ == HeapView::<D>::empty(),
            r.wf(),
    {
        Heap::new()
    }
}

impl<D> RawRef<D> {
    /// The address of the cell this handle refers to.
    pub closed spec fn addr(&self) -> usize {
        self.addr
    }

    /// The handle refers to a live cell of `heap`.
    pub open spec fn live(&self, heap: &Heap<D>) -> bool {
        heap@.dom().contains(self.addr())
    }

    /// The cell this handle refers to.
    pub open spec fn cell(&self, heap: &Heap<D>) -> CellView<D> {
        heap@[self.addr()]
    }

    /// The address of the cell this handle refers to.
    pub fn address(&self) -> (r: usize)
        ensures
            r == self.addr(),
    {
        self.addr
    }

    /// Allocates a cell around `d` and returns its first reference, which
    /// has the given role.
    pub fn new(d: D, ref_type: RefType, heap: &mut Heap<D>) -> (r: RawRef<D>)
        requires
            old(heap).wf(),
        ensures
            final(heap).wf(),
            !old(heap)@.dom().contains(r.addr()),
            final(heap)@ == old(heap)@.insert(r.addr(), CellView::new(d, ref_type)),
    {
        let addr = heap.allocate(SharedCell::new(d, ref_type));
        RawRef { addr, phantom: PhantomData }
    }

    /// Allocates a cell around `data`, first referenced by a holder.
    pub fn new_holder(data: D, heap: &mut Heap<D>) -> (r: RawRef<D>)
        requires
            old(heap).wf(),
        ensures
            final(heap).wf(),
            !old(heap)@.dom().contains(r.addr()),
            final(heap)@ == old(heap)@.insert(r.addr(), CellView::new(data, RefType::Holder)),
    {
        RawRef::new(data, RefType::Holder, heap)
    }

    /// Allocates a cell around `data`, first referenced by a viewer.
    pub fn new_viewer(data: D, heap: &mut Heap<D>) -> (r: RawRef<D>)
        requires
            old(heap).wf(),
        ensures
            final(heap).wf(),
            !old(heap)@.dom().contains(r.addr()),
            final(heap)@ == old(heap)@.insert(r.addr(), CellView::new(data, RefType::Sharer)),
    {
        RawRef::new(data, RefType::Sharer, heap)
    }

    /// Allocates a cell around `data`, first referenced by its owner.
    pub fn new_owner(data: D, heap: &mut Heap<D>) -> (r: RawRef<D>)
        requires
            old(heap).wf(),
        ensures
            final(heap).wf(),
            !old(heap)@.dom().contains(r.addr()),
            final(heap)@ == old(heap)@.insert(r.addr(), CellView::new(data, RefType::Owner)),
    {
        RawRef::new(data, RefType::Owner, heap)
    }

    /// Attaches one more reference of the given role to the cell and returns
    /// it. On refusal the heap is unchanged, this handle stays valid, and the
    /// refusing state is returned.
    pub fn clone_to(&self, ref_type: RefType, heap: &mut Heap<D>) -> (r: Result<RawRef<D>, State>)
        requires
            old(heap).wf(),
            self.live(old(heap)),
            self.cell(old(heap)).state.has_room(ref_type),
        ensures
            final(heap).wf(),
            match r {
                Ok(n) => n.addr() == self.addr() && self.cell(old(heap)).state.can_acquire(ref_type)
                    && final(heap)@ == acquired(old(heap)@, self.addr(), ref_type),
                Err(e) => !self.cell(old(heap)).state.can_acquire(ref_type) && e@ == self.cell(
                    old(heap),
                ).state && final(heap)@ == old(heap)@,
            },
    {
        let cell = heap.cell_mut(self.addr);
        match cell.clone_to(ref_type) {
            Ok(_) => Ok(RawRef { addr: self.addr, phantom: PhantomData }),
            Err(e) => {
                Err(e)
            },
        }
    }

    /// Attaches one more holder to the cell. This never fails.
    pub fn clone_to_holder(&self, heap: &mut Heap<D>) -> (r: RawRef<D>)
        requires
            old(heap).wf(),
            self.live(old(heap)),
            self.cell(old(heap)).state.has_room(RefType::Holder),
        ensures
            final(heap).wf(),
            r.addr() == self.addr(),
            final(heap)@ == acquired(old(heap)@, self.addr(), RefType::Holder),
    {
        match self.clone_to(RefType::Holder, heap) {
            Ok(r) => r,
            Err(_) => vstd::pervasive::unreached(),
        }
    }

    /// Attaches one more viewer unless the value is dropped or owned.
    pub fn clone_to_viewer(&self, heap: &mut Heap<D>) -> (r: Result<RawRef<D>, State>)
        requires
            old(heap).wf(),
            self.live(old(heap)),
            self.cell(old(heap)).state.has_room(RefType::Sharer),
        ensures
            final(heap).wf(),
            match r {
                Ok(n) => n.addr() == self.addr() && self.cell(old(heap)).state.can_acquire(
                    RefType::Sharer,
                ) && final(heap)@ == acquired(old(heap)@, self.addr(), RefType::Sharer),
                Err(e) => !self.cell(old(heap)).state.can_acquire(RefType::Sharer) && e@
                    == self.cell(old(heap)).state && final(heap)@ == old(heap)@,
            },
    {
        self.clone_to(RefType::Sharer, heap)
    }

    /// Attaches the owner unless the value is dropped, shared or owned.
    pub fn clone_to_owner(&self, heap: &mut Heap<D>) -> (r: Result<RawRef<D>, State>)
        requires
            old(heap).wf(),
            self.live(old(heap)),
        ensures
            final(heap).wf(),
            match r {
                Ok(n) => n.addr() == self.addr() && self.cell(old(heap)).state.can_acquire(
                    RefType::Owner,
                ) && final(heap)@ == acquired(old(heap)@, self.addr(), RefType::Owner),
                Err(e) => !self.cell(old(heap)).state.can_acquire(RefType::Owner) && e@
                    == self.cell(old(heap)).state && final(heap)@ == old(heap)@,
            },
    {
        self.clone_to(RefType::Owner, heap)
    }

    /// Gives up this reference, which has the given role. The value is
    /// dropped if no reference of any role is left, and the cell is then
    /// deallocated.
    pub fn drop_from(self, ref_type: RefType, heap: &mut Heap<D>)
        requires
            old(heap).wf(),
            self.live(old(heap)),
            self.cell(old(heap)).state.can_release(ref_type),
        ensures
            final(heap).wf(),
            final(heap)@ == released(old(heap)@, self.addr(), ref_type),
    {
        let cell = heap.cell_mut(self.addr);
        cell.drop_from(ref_type);
        self.check_dealloc(heap);
    }

    /// Gives up this reference, a holder.
    pub fn drop_from_holder(self, heap: &mut Heap<D>)
        requires
            old(heap).wf(),
            self.live(old(heap)),
            self.cell(old(heap)).state.can_release(RefType::Holder),
        ensures
            final(heap).wf(),
            final(heap)@ == released(old(heap)@, self.addr(), RefType::Holder),
    {
        self.drop_from(RefType::Holder, heap)
    }

    /// Gives up this reference, a viewer.
    pub fn drop_from_viewer(self, heap: &mut Heap<D>)
        requires
            old(heap).wf(),
            self.live(old(heap)),
            self.cell(old(heap)).state.can_release(RefType::Sharer),
        ensures
            final(heap).wf(),
            final(heap)@ == released(old(heap)@, self.addr(), RefType::Sharer),
    {
        self.drop_from(RefType::Sharer, heap)
    }

    /// Gives up this reference, the owner.
    pub fn drop_from_owner(self, heap: &mut Heap<D>)
        requires
            old(heap).wf(),
            self.live(old(heap)),
            self.cell(old(heap)).state.can_release(RefType::Owner),
        ensures
            final(heap).wf(),
            final(heap)@ == released(old(heap)@, self.addr(), RefType::Owner),
    {
        self.drop_from(RefType::Owner, heap)
    }

    /// Frees the cell if its state asks for it. This is the last thing a
    /// reference does.
    fn check_dealloc(self, heap: &mut Heap<D>)
        requires
            old(heap).inv(),
            self.live(old(heap)),
        ensures
            final(heap).inv(),
            final(heap)@ == (if self.cell(old(heap)).state.should_dealloc() {
                old(heap)@.remove(self.addr())
            } else {
                old(heap)@
            }),
    {
        if heap.cell(self.addr).should_dealloc() {
            heap.deallocate(self.addr);
        }
    }

    /// The cell this handle refers to.
    pub fn shared<'a>(&self, heap: &'a Heap<D>) -> (r: &'a SharedCell<D>)
        requires
            self.live(heap),
        ensures
            r@ == self.cell(heap),
    {
        heap.cell(self.addr)
    }

    /// The cell this handle refers to, for writing.
    pub(crate) fn shared_mut<'a>(&self, heap: &'a mut Heap<D>) -> (r: &'a mut SharedCell<D>)
        requires
            old(heap).inv(),
            self.live(old(heap)),
        ensures
            r@ == self.cell(old(heap)),
            final(heap).inv(),
            final(heap)@ == old(heap)@.insert(self.addr(), final(r)@),
    {
        heap.cell_mut(self.addr)
    }
}

} // verus!
