//! The shared cell: one state word and one value slot.
//!
//! The value slot is empty exactly while the value is logically dropped. The
//! cell knows nothing about who calls it: each operation names, as its
//! precondition, the role that the caller must hold.

use vstd::prelude::*;
use crate::state::RefType;
use crate::state::State;
use crate::state::StateView;

verus! {

/// The mathematical content of a [`SharedCell`].
pub ghost struct CellView<D> {
    /// The reference counts and flags.
    pub state: StateView,
    /// The value, absent while it is logically dropped.
    pub value: Option<D>,
}

impl<D> CellView<D> {
    /// The states a cell can be in: an owner excludes sharers, a dropped value
    /// has no sharers, and the slot is filled exactly while the value is not
    /// dropped.
    pub open spec fn wf(self) -> bool {
        &&& self.state.wf()
        &&& self.state.dropped ==> self.state.sharers == 0
        &&& self.value is Some <==> !self.state.dropped
    }

    /// A fresh cell around `value`, first referenced in the given role.
    pub open spec fn new(value: D, role: RefType) -> CellView<D> {
        CellView { state: StateView::new(role), value: Some(value) }
    }

    /// The cell after one more reference of the given role was attached.
    pub open spec fn acquire(self, role: RefType) -> CellView<D> {
        CellView { state: self.state.acquire(role), ..self }
    }

    /// The cell after one reference of the given role was detached. If it was
    /// the last reference of any role, the value is dropped with it.
    pub open spec fn release(self, role: RefType) -> CellView<D> {
        CellView {
            state: self.state.settle(role),
            value: if self.state.release(role).should_drop() {
                None
            } else {
                self.value
            },
        }
    }

    /// The cell after its value was taken out or destroyed.
    pub open spec fn consume(self) -> CellView<D> {
        CellView { state: self.state.mark_dropped(), value: None }
    }

    /// The cell after `value` was written into the empty slot.
    pub open spec fn reinit(self, value: D) -> CellView<D> {
        CellView { state: self.state.mark_reinitialized(), value: Some(value) }
    }

    /// The cell after one reference changed its role from `from` to `to`.
    /// The cell is never without a reference in between, so the value stays.
    pub open spec fn convert(self, from: RefType, to: RefType) -> CellView<D> {
        CellView { state: self.state.release(from).acquire(to), ..self }
    }

    /// The cell with the same counts and another value in the slot.
    pub open spec fn with_value(self, value: D) -> CellView<D> {
        CellView { value: Some(value), ..self }
    }
}

/// One state word and one value slot, the unit that references share.
pub struct SharedCell<D> {
    state: State,
    data: Option<D>,
}

impl<D> View for SharedCell<D> {
    type V = CellView<D>;

    closed spec fn view(&self) -> CellView<D> {
        CellView { state: self.state@, value: self.data }
    }
}

impl<D> SharedCell<D> {
    /// A fresh cell around `d`, first referenced in the given role.
    pub fn new(d: D, ref_type: RefType) -> (r: Self)
        ensures
            r@ == CellView::new(d, ref_type),
            r@.wf(),
    {
        SharedCell { state: State::new(ref_type), data: Some(d) }
    }

    /// A snapshot of the current state.
    pub fn state(&self) -> (r: State)
        ensures
            r@ == self@.state,
    {
        self.state
    }

    /// Attaches one more reference of the given role. On refusal the cell is
    /// unchanged and the refusing state is returned.
    pub fn clone_to(&mut self, ref_type: RefType) -> (r: Result<(), State>)
        requires
            old(self)@.state.has_room(ref_type),
        ensures
            match r {
                Ok(_) => old(self)@.state.can_acquire(ref_type) && final(self)@ == old(self)@.acquire(
                    ref_type,
                ),
                Err(e) => !old(self)@.state.can_acquire(ref_type) && e@ == old(self)@.state
                    && *final(self) == *old(self),
            },
            old(self)@.wf() ==> final(self)@.wf(),
    {
        match self.state.clone_to(ref_type) {
            Ok(s) => {
                self.state = s;
                Ok(())
            },
            Err(e) => Err(e),
        }
    }

    /// Detaches one reference of the given role. If it was the last reference
    /// of any role, the value is dropped in place.
    pub fn drop_from(&mut self, ref_type: RefType)
        requires
            old(self)@.state.can_release(ref_type),
        ensures
            final(self)@ == old(self)@.release(ref_type),
            old(self)@.wf() ==> final(self)@.wf(),
    {
        self.state = self.state.drop_from(ref_type);
        self.check_drop_data();
    }

    /// Drops the value in place if nothing refers to the cell any more.
    fn check_drop_data(&mut self)
        ensures
            final(self)@ == (if old(self)@.state.should_drop() {
                old(self)@.consume()
            } else {
                old(self)@
            }),
    {
        if self.state.should_drop() {
            self.drop_data();
        }
    }

    /// Takes the value out of the cell and marks it dropped.
    ///
    /// Only the owner may call this, and must not read the value afterwards.
    pub fn move_data(&mut self) -> (r: D)
        requires
            old(self)@.value is Some,
            old(self)@.state.owned,
        ensures
            old(self)@.value == Some(r),
            final(self)@ == old(self)@.consume(),
            old(self)@.wf() ==> final(self)@.wf(),
    {
        self.state = self.state.drop();
        match self.data.take() {
            Some(d) => d,
            None => vstd::pervasive::unreached(),
        }
    }

    /// Destroys the value in place and marks it dropped.
    ///
    /// Only the owner may call this, or whoever detached the last reference.
    pub fn drop_data(&mut self)
        requires
            old(self)@.state.owned || old(self)@.state.should_drop(),
        ensures
            final(self)@ == old(self)@.consume(),
            old(self)@.wf() ==> final(self)@.wf(),
    {
        self.state = self.state.drop();
        self.data = None;
    }

    /// Writes a fresh value into a dropped cell and clears the dropped flag.
    /// A cell whose value is alive is left unchanged and reports its state;
    /// `d` is then discarded.
    pub fn reinit_data(&mut self, d: D) -> (r: Result<(), State>)
        ensures
            match r {
                Ok(_) => old(self)@.state.dropped && final(self)@ == old(self)@.reinit(d),
                Err(e) => !old(self)@.state.dropped && e@ == old(self)@.state && *final(self)
                    == *old(self),
            },
            old(self)@.wf() ==> final(self)@.wf(),
    {
        if self.state.is_dropped() {
            self.state = self.state.reinit();
            self.data = Some(d);
            Ok(())
        } else {
            Err(self.state)
        }
    }

    /// Whether the allocation that holds this cell must be freed now.
    pub fn should_dealloc(&self) -> (r: bool)
        ensures
            r == self@.state.should_dealloc(),
    {
        self.state.should_dealloc()
    }

    /// Shared access to the value. The caller holds a sharer or the owner.
    pub fn deref(&self) -> (r: &D)
        requires
            self@.value is Some,
            self@.state.sharers > 0 || self@.state.owned,
        ensures
            self@.value == Some(*r),
    {
        match &self.data {
            Some(d) => d,
            None => vstd::pervasive::unreached(),
        }
    }

    /// Exclusive access to the value. The caller holds the owner.
    pub fn deref_mut(&mut self) -> (r: &mut D)
        requires
            old(self)@.value is Some,
            old(self)@.state.owned,
        ensures
            old(self)@.value == Some(*r),
            final(self)@ == old(self)@.with_value(*final(r)),
    {
        match &mut self.data {
            Some(d) => d,
            None => vstd::pervasive::unreached(),
        }
    }
}

} // verus!
