//! The state word of a shared cell: how many references of each role are
//! alive, and whether the value has been logically dropped.
//!
//! The rules live in [`StateView`], a mathematical record with unbounded
//! counters. [`State`] is the machine representation; every operation on it is
//! specified as the corresponding operation on its view.

use vstd::prelude::*;

verus! {

/// The access mode a reference holds over a cell.
#[derive(Clone, Copy, Debug, PartialEq, Eq, Hash, Structural)]
pub enum RefType {
    /// Keeps the allocation alive; grants no access to the value.
    Holder,
    /// Shared read-only access to the value.
    Sharer,
    /// Exclusive read-write access to the value.
    Owner,
}

/// The mathematical content of a [`State`].
pub ghost struct StateView {
    /// Number of live holder references.
    pub holders: nat,
    /// Number of live sharer references.
    pub sharers: nat,
    /// Whether the single owner reference exists.
    pub owned: bool,
    /// Whether the value has been logically dropped.
    pub dropped: bool,
}

impl StateView {
    /// An owner and sharers never coexist.
    pub open spec fn wf(self) -> bool {
        self.owned ==> self.sharers == 0
    }

    /// The state of a cell whose only reference has the given role.
    pub open spec fn new(role: RefType) -> StateView {
        match role {
            RefType::Holder => StateView { holders: 1, sharers: 0, owned: false, dropped: false },
            RefType::Sharer => StateView { holders: 0, sharers: 1, owned: false, dropped: false },
            RefType::Owner => StateView { holders: 0, sharers: 0, owned: true, dropped: false },
        }
    }

    /// Neither a sharer nor an owner is attached.
    pub open spec fn secondary_free(self) -> bool {
        self.sharers == 0 && !self.owned
    }

    /// Whether one more reference of the given role may be attached.
    ///
    /// A holder is always admitted. A sharer needs a live value and no owner.
    /// An owner needs a live value and nobody else reading or writing it.
    pub open spec fn can_acquire(self, role: RefType) -> bool {
        match role {
            RefType::Holder => true,
            RefType::Sharer => !self.dropped && !self.owned,
            RefType::Owner => !self.dropped && self.secondary_free(),
        }
    }

    /// The state after one more reference of the given role was attached.
    pub open spec fn acquire(self, role: RefType) -> StateView {
        match role {
            RefType::Holder => StateView { holders: self.holders + 1, ..self },
            RefType::Sharer => StateView { sharers: self.sharers + 1, ..self },
            RefType::Owner => StateView { sharers: 0, owned: true, ..self },
        }
    }

    /// Whether the counters admit the release of a reference of the given
    /// role, that is, whether such a reference can exist at all.
    pub open spec fn can_release(self, role: RefType) -> bool {
        match role {
            RefType::Holder => self.holders > 0,
            RefType::Sharer => self.sharers > 0,
            RefType::Owner => self.owned,
        }
    }

    /// The state after one reference of the given role was detached.
    ///
    /// Releasing the owner returns the cell to the pool in which sharers and
    /// owners may attach again.
    pub open spec fn release(self, role: RefType) -> StateView {
        match role {
            RefType::Holder => StateView { holders: (self.holders - 1) as nat, ..self },
            RefType::Sharer => StateView { sharers: (self.sharers - 1) as nat, ..self },
            RefType::Owner => StateView { sharers: 0, owned: false, ..self },
        }
    }

    /// The state after the value was logically dropped.
    pub open spec fn mark_dropped(self) -> StateView {
        StateView { dropped: true, ..self }
    }

    /// The state after a fresh value was written into a dropped cell.
    pub open spec fn mark_reinitialized(self) -> StateView {
        StateView { dropped: false, ..self }
    }

    /// No reference of any role is left and the value is still alive, so the
    /// value must be dropped now.
    pub open spec fn should_drop(self) -> bool {
        self.holders == 0 && self.secondary_free() && !self.dropped
    }

    /// The value is gone and no reference of any role is left, so the
    /// allocation must be freed now.
    pub open spec fn should_dealloc(self) -> bool {
        self.holders == 0 && self.secondary_free() && self.dropped
    }

    /// The state in which a cell settles after a release: the reference is
    /// detached, and if it was the last one the value is dropped with it.
    pub open spec fn settle(self, role: RefType) -> StateView {
        let released = self.release(role);
        if released.should_drop() {
            released.mark_dropped()
        } else {
            released
        }
    }

    /// Whether attaching one more reference of the given role keeps the
    /// counters within the machine representation.
    pub open spec fn has_room(self, role: RefType) -> bool {
        match role {
            RefType::Holder => self.holders < usize::MAX,
            RefType::Sharer => self.can_acquire(RefType::Sharer) ==> self.sharers < usize::MAX,
            RefType::Owner => true,
        }
    }

    /// Some reference of some role is attached.
    pub open spec fn referenced(self) -> bool {
        self.holders > 0 || self.sharers > 0 || self.owned
    }

    /// Both counters fit the machine representation.
    pub open spec fn fits(self) -> bool {
        self.holders <= usize::MAX && self.sharers <= usize::MAX
    }
}

/// A snapshot of a cell's reference counts and flags.
#[derive(Clone, Copy, Debug, PartialEq, Eq, Hash, Structural)]
pub struct State {
    dropped: bool,
    holder: usize,
    viewer: usize,
    owned: bool,
}

impl View for State {
    type V = StateView;

    closed spec fn view(&self) -> StateView {
        StateView {
            holders: self.holder as nat,
            sharers: self.viewer as nat,
            owned: self.owned,
            dropped: self.dropped,
        }
    }
}

impl State {
    /// Two states with the same content are the same state, and the content
    /// of a state always fits the machine representation.
    pub proof fn lemma_view(self, other: State)
        ensures
            self@.fits(),
            self@ == other@ <==> self == other,
    {
    }

    /// Whether the value has been logically dropped.
    pub fn is_dropped(&self) -> (r: bool)
        ensures
            r == self@.dropped,
    {
        self.dropped
    }

    /// Number of live holder references.
    pub fn holder_count(&self) -> (r: usize)
        ensures
            r == self@.holders,
    {
        self.holder
    }

    /// Number of live viewer references; zero while an owner exists.
    pub fn viewer_count(&self) -> (r: usize)
        ensures
            r == self@.sharers,
    {
        self.viewer
    }

    /// Number of live sharer references, under the role's other name.
    pub fn sharer_count(&self) -> (r: usize)
        ensures
            r == self@.sharers,
    {
        self.viewer
    }

    /// Whether the single owner reference exists.
    pub fn is_owned(&self) -> (r: bool)
        ensures
            r == self@.owned,
    {
        self.owned
    }

    /// The state of a fresh cell whose first reference has the given role.
    pub fn new(ref_type: RefType) -> (r: State)
        ensures
            r@ == StateView::new(ref_type),
    {
        match ref_type {
            RefType::Holder => State::new_holder(),
            RefType::Sharer => State::new_viewer(),
            RefType::Owner => State::new_owner(),
        }
    }

    /// The state of a fresh cell first referenced by a holder.
    pub fn new_holder() -> (r: State)
        ensures
            r@ == StateView::new(RefType::Holder),
    {
        State { dropped: false, holder: 1, viewer: 0, owned: false }
    }

    /// The state of a fresh cell first referenced by a viewer.
    pub fn new_viewer() -> (r: State)
        ensures
            r@ == StateView::new(RefType::Sharer),
    {
        State { dropped: false, holder: 0, viewer: 1, owned: false }
    }

    /// The state of a fresh cell first referenced by an owner.
    pub fn new_owner() -> (r: State)
        ensures
            r@ == StateView::new(RefType::Owner),
    {
        State { dropped: false, holder: 0, viewer: 0, owned: true }
    }

    /// Attaches one more reference of the given role, or reports the
    /// unchanged state if the role cannot be granted.
    pub fn clone_to(self, ref_type: RefType) -> (r: Result<State, State>)
        requires
            self@.has_room(ref_type),
        ensures
            match r {
                Ok(s) => self@.can_acquire(ref_type) && s@ == self@.acquire(ref_type),
                Err(e) => !self@.can_acquire(ref_type) && e == self,
            },
    {
        match ref_type {
            RefType::Holder => Ok(self.clone_to_holder()),
            RefType::Sharer => self.clone_to_viewer(),
            RefType::Owner => self.clone_to_owner(),
        }
    }

    /// Attaches one more holder. This never fails.
    pub fn clone_to_holder(self) -> (r: State)
        requires
            self@.has_room(RefType::Holder),
        ensures
            r@ == self@.acquire(RefType::Holder),
    {
        State { holder: self.holder + 1, ..self }
    }

    /// Attaches one more viewer unless the value is dropped or owned.
    pub fn clone_to_viewer(self) -> (r: Result<State, State>)
        requires
            self@.has_room(RefType::Sharer),
        ensures
            match r {
                Ok(s) => self@.can_acquire(RefType::Sharer) && s@ == self@.acquire(RefType::Sharer),
                Err(e) => !self@.can_acquire(RefType::Sharer) && e == self,
            },
    {
        if self.is_dropped() || self.is_owned() {
            Err(self)
        } else {
            Ok(State { viewer: self.viewer + 1, ..self })
        }
    }

    /// Attaches the owner unless the value is dropped, shared or owned.
    pub fn clone_to_owner(self) -> (r: Result<State, State>)
        ensures
            match r {
                Ok(s) => self@.can_acquire(RefType::Owner) && s@ == self@.acquire(RefType::Owner),
                Err(e) => !self@.can_acquire(RefType::Owner) && e == self,
            },
    {
        if self.is_dropped() || self.viewer != 0 || self.owned {
            Err(self)
        } else {
            Ok(State { viewer: 0, owned: true, ..self })
        }
    }

    /// Detaches one reference of the given role.
    pub fn drop_from(self, ref_type: RefType) -> (r: State)
        requires
            self@.can_release(ref_type),
        ensures
            r@ == self@.release(ref_type),
    {
        match ref_type {
            RefType::Holder => self.drop_from_holder(),
            RefType::Sharer => self.drop_from_viewer(),
            RefType::Owner => self.drop_from_owner(),
        }
    }

    /// Detaches one holder.
    pub fn drop_from_holder(self) -> (r: State)
        requires
            self@.can_release(RefType::Holder),
        ensures
            r@ == self@.release(RefType::Holder),
    {
        State { holder: self.holder - 1, ..self }
    }

    /// Detaches one viewer.
    pub fn drop_from_viewer(self) -> (r: State)
        requires
            self@.can_release(RefType::Sharer),
        ensures
            r@ == self@.release(RefType::Sharer),
    {
        State { viewer: self.viewer - 1, ..self }
    }

    /// Detaches the owner and frees the secondary slot.
    pub fn drop_from_owner(self) -> (r: State)
        requires
            self@.can_release(RefType::Owner),
        ensures
            r@ == self@.release(RefType::Owner),
    {
        State { viewer: 0, owned: false, ..self }
    }

    /// Records that the value was logically dropped.
    pub fn drop(self) -> (r: State)
        ensures
            r@ == self@.mark_dropped(),
    {
        State { dropped: true, ..self }
    }

    /// Records that a fresh value was written.
    pub fn reinit(self) -> (r: State)
        ensures
            r@ == self@.mark_reinitialized(),
    {
        State { dropped: false, ..self }
    }

    /// Whether the value must be dropped now. False once it is dropped.
    pub fn should_drop(&self) -> (r: bool)
        ensures
            r == self@.should_drop(),
    {
        !self.dropped && self.holder == 0 && self.viewer == 0 && !self.owned
    }

    /// Whether the allocation must be freed now.
    pub fn should_dealloc(&self) -> (r: bool)
        ensures
            r == self@.should_dealloc(),
    {
        self.dropped && self.holder == 0 && self.viewer == 0 && !self.owned
    }
}

} // verus!
