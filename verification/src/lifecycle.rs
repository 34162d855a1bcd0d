//! The life of one cell, seen as a sequence of events, and what holds of
//! every such life.
//!
//! A [`Life`] pairs the state word of a cell with a census of the references
//! that are actually alive, and counts the values written into the cell and
//! the values dropped from it. The events are the operations that references
//! perform on their cell; each is specified by the same functions that specify
//! the executable operations. The theorems of this module say how the state
//! word, the census and the two counts relate after any sequence of events.

use vstd::prelude::*;
use crate::cell::CellView;
use crate::raw::released;
use crate::raw::HeapView;
use crate::state::RefType;
use crate::state::StateView;

verus! {

/// What a reference can do to its cell.
pub ghost enum Event {
    /// A reference tries to attach one more reference of the given role.
    Acquire(RefType),
    /// A reference of the given role is given up.
    Release(RefType),
    /// The owner takes or destroys the value and is given up.
    Consume,
    /// A holder tries to write a new value.
    Reinit,
}

/// The references of one cell that are alive, by role.
pub ghost struct Census {
    /// Live holders.
    pub holders: nat,
    /// Live sharers.
    pub sharers: nat,
    /// Live owners.
    pub owners: nat,
}

impl Census {
    /// The census of a fresh cell: its first reference and nothing else.
    pub open spec fn first(role: RefType) -> Census {
        Census { holders: 0, sharers: 0, owners: 0 }.plus(role)
    }

    /// Live references of the given role.
    pub open spec fn count(self, role: RefType) -> nat {
        match role {
            RefType::Holder => self.holders,
            RefType::Sharer => self.sharers,
            RefType::Owner => self.owners,
        }
    }

    /// Live references of any role.
    pub open spec fn total(self) -> nat {
        self.holders + self.sharers + self.owners
    }

    /// The census with one more reference of the given role.
    pub open spec fn plus(self, role: RefType) -> Census {
        match role {
            RefType::Holder => Census { holders: self.holders + 1, ..self },
            RefType::Sharer => Census { sharers: self.sharers + 1, ..self },
            RefType::Owner => Census { owners: self.owners + 1, ..self },
        }
    }

    /// The census with one reference of the given role less.
    pub open spec fn minus(self, role: RefType) -> Census {
        match role {
            RefType::Holder => Census { holders: (self.holders - 1) as nat, ..self },
            RefType::Sharer => Census { sharers: (self.sharers - 1) as nat, ..self },
            RefType::Owner => Census { owners: (self.owners - 1) as nat, ..self },
        }
    }
}

/// One cell at one moment of its life.
pub ghost struct Life {
    /// The state word.
    pub state: StateView,
    /// The references that are alive.
    pub census: Census,
    /// How many values have been written into the cell, the first included.
    pub written: nat,
    /// How many values have been dropped from the cell or taken out of it.
    pub dropped: nat,
}

impl Life {
    /// A fresh cell with its first reference.
    pub open spec fn begin(role: RefType) -> Life {
        Life { state: StateView::new(role), census: Census::first(role), written: 1, dropped: 0 }
    }

    /// Whether the event can happen: somebody alive must perform it.
    pub open spec fn enabled(self, event: Event) -> bool {
        match event {
            Event::Acquire(_) => self.census.total() > 0,
            Event::Release(role) => self.census.count(role) > 0,
            Event::Consume => self.census.owners > 0 && !self.state.dropped,
            Event::Reinit => self.census.holders > 0,
        }
    }

    /// The cell after the event. An acquisition that the state refuses and
    /// a reinitialization of a live value change nothing.
    pub open spec fn step(self, event: Event) -> Life {
        match event {
            Event::Acquire(role) => if self.state.can_acquire(role) {
                Life {
                    state: self.state.acquire(role),
                    census: self.census.plus(role),
                    ..self
                }
            } else {
                self
            },
            Event::Release(role) => Life {
                state: self.state.settle(role),
                census: self.census.minus(role),
                dropped: if self.state.release(role).should_drop() {
                    self.dropped + 1
                } else {
                    self.dropped
                },
                ..self
            },
            Event::Consume => Life {
                state: self.state.mark_dropped().settle(RefType::Owner),
                census: self.census.minus(RefType::Owner),
                dropped: self.dropped + 1,
                ..self
            },
            Event::Reinit => if self.state.dropped {
                Life {
                    state: self.state.mark_reinitialized(),
                    written: self.written + 1,
                    ..self
                }
            } else {
                self
            },
        }
    }

    /// The cell after the events, in order.
    pub open spec fn run(self, events: Seq<Event>) -> Life
        decreases events.len(),
    {
        if events.len() == 0 {
            self
        } else {
            self.run(events.drop_last()).step(events.last())
        }
    }

    /// Whether the events can happen in this order.
    pub open spec fn feasible(self, events: Seq<Event>) -> bool
        decreases events.len(),
    {
        events.len() == 0 || (self.feasible(events.drop_last()) && self.run(
            events.drop_last(),
        ).enabled(events.last()))
    }

    /// The state word tells the truth about the references and the value.
    pub open spec fn consistent(self) -> bool {
        &&& self.state.wf()
        &&& self.state.holders == self.census.holders
        &&& self.state.sharers == self.census.sharers
        &&& self.state.owned <==> self.census.owners == 1
        &&& self.census.owners <= 1
        &&& self.state.dropped ==> self.census.sharers == 0
        &&& self.census.total() == 0 ==> self.state.dropped
        &&& self.written == self.dropped + (if self.state.dropped {
            0nat
        } else {
            1nat
        })
    }

    /// One event keeps a consistent cell consistent.
    pub proof fn lemma_step_consistent(self, event: Event)
        requires
            self.consistent(),
            self.enabled(event),
        ensures
            self.step(event).consistent(),
    {
    }

    /// Any feasible sequence of events keeps a consistent cell consistent.
    pub proof fn lemma_run_consistent(self, events: Seq<Event>)
        requires
            self.consistent(),
            self.feasible(events),
        ensures
            self.run(events).consistent(),
        decreases events.len(),
    {
        if events.len() > 0 {
            self.lemma_run_consistent(events.drop_last());
            self.run(events.drop_last()).lemma_step_consistent(events.last());
        }
    }
}

/// The rules of acquisition and release never bring an owner and a sharer
/// together, and neither does dropping or rewriting the value.
pub proof fn transitions_keep_owner_and_sharers_apart(state: StateView, role: RefType)
    requires
        state.wf(),
    ensures
        StateView::new(role).wf(),
        state.can_acquire(role) ==> state.acquire(role).wf(),
        state.can_release(role) ==> state.release(role).wf() && state.settle(role).wf(),
        state.mark_dropped().wf(),
        state.mark_reinitialized().wf(),
{
}

/// Whatever the references of a cell do, in whatever order, the holder count
/// of the state word is the number of holders that are alive.
pub proof fn holder_count_is_live_holders(first: RefType, events: Seq<Event>)
    requires
        Life::begin(first).feasible(events),
    ensures
        Life::begin(first).run(events).state.holders == Life::begin(first).run(
            events,
        ).census.holders,
{
    Life::begin(first).lemma_run_consistent(events);
}

/// Whatever the references of a cell do, in whatever order, the sharer count
/// of the state word is the number of sharers that are alive. It is zero
/// while the cell is owned.
pub proof fn sharer_count_is_live_sharers(first: RefType, events: Seq<Event>)
    requires
        Life::begin(first).feasible(events),
    ensures
        Life::begin(first).run(events).state.sharers == Life::begin(first).run(
            events,
        ).census.sharers,
        Life::begin(first).run(events).state.owned ==> Life::begin(first).run(
            events,
        ).census.sharers == 0,
{
    Life::begin(first).lemma_run_consistent(events);
}

/// At every moment of a cell's life, the owner can be acquired if and only
/// if no sharer and no owner is alive and the value is not dropped. Never are
/// two owners alive, nor an owner and a sharer.
pub proof fn owner_acquired_iff_alone(first: RefType, events: Seq<Event>)
    requires
        Life::begin(first).feasible(events),
    ensures
        ({
            let now = Life::begin(first).run(events);
            &&& now.state.can_acquire(RefType::Owner) <==> now.census.sharers == 0
                && now.census.owners == 0 && !now.state.dropped
            &&& now.census.owners <= 1
            &&& now.census.owners == 1 ==> now.census.sharers == 0
        }),
{
    Life::begin(first).lemma_run_consistent(events);
}

/// In a state without an owner, the owner can be acquired if and only if the
/// sharer count is zero and the value is not dropped. Once acquired, the state
/// is owned and refuses sharers and owners.
pub proof fn owner_excludes_others(state: StateView)
    requires
        state.wf(),
        !state.owned,
    ensures
        state.can_acquire(RefType::Owner) <==> state.sharers == 0 && !state.dropped,
        state.acquire(RefType::Owner).owned,
        state.acquire(RefType::Owner).wf(),
        !state.acquire(RefType::Owner).can_acquire(RefType::Sharer),
        !state.acquire(RefType::Owner).can_acquire(RefType::Owner),
{
}

/// An owned cell stays owned, and goes on refusing sharers and owners,
/// through every event but the owner's own release.
pub proof fn owner_excludes_until_released(life: Life, event: Event)
    requires
        life.consistent(),
        life.enabled(event),
        life.state.owned,
        event != Event::Release(RefType::Owner),
        event != Event::Consume,
    ensures
        life.step(event).state.owned,
        !life.step(event).state.can_acquire(RefType::Sharer),
        !life.step(event).state.can_acquire(RefType::Owner),
{
}

/// Releasing the owner leaves neither owner nor sharer behind. A sharer or
/// an owner can attach afterwards exactly if the value survived, which it did
/// unless it was dropped before or no holder kept the cell.
pub proof fn owner_release_frees_secondary(state: StateView)
    requires
        state.wf(),
        state.owned,
    ensures
        state.settle(RefType::Owner).secondary_free(),
        state.settle(RefType::Owner).dropped <==> state.dropped || state.holders == 0,
        state.settle(RefType::Owner).can_acquire(RefType::Sharer) <==> !state.dropped
            && state.holders > 0,
        state.settle(RefType::Owner).can_acquire(RefType::Owner) <==> !state.dropped
            && state.holders > 0,
{
}

/// Every value written into a cell is dropped at most once, and all but a
/// value that is still alive have been dropped exactly once. When the last
/// reference is gone no value is alive.
pub proof fn value_dropped_exactly_once(first: RefType, events: Seq<Event>)
    requires
        Life::begin(first).feasible(events),
    ensures
        ({
            let now = Life::begin(first).run(events);
            &&& now.dropped <= now.written
            &&& now.written == now.dropped + (if now.state.dropped {
                0nat
            } else {
                1nat
            })
            &&& now.census.total() == 0 ==> now.dropped == now.written
        }),
{
    Life::begin(first).lemma_run_consistent(events);
}

/// A release drops the value exactly if it detaches the last reference of a
/// cell whose value is alive; the owner's consumption always drops it. A
/// value that is gone is not dropped again.
pub proof fn value_dropped_with_last_reference<D>(cell: CellView<D>, role: RefType)
    requires
        cell.wf(),
        cell.state.can_release(role),
    ensures
        cell.release(role).wf(),
        cell.release(role).value is None <==> cell.value is None || !cell.state.release(
            role,
        ).referenced(),
        cell.release(role).value is Some ==> cell.release(role).value == cell.value,
        cell.consume().value is None,
        cell.consume().state.dropped,
{
}

/// At every moment of a cell's life, the state word asks for deallocation
/// exactly when no reference is alive. The value is dropped by then, and
/// nothing can happen to the cell any more, so it is deallocated once.
pub proof fn deallocated_once_after_last_reference(first: RefType, events: Seq<Event>)
    requires
        Life::begin(first).feasible(events),
    ensures
        ({
            let now = Life::begin(first).run(events);
            &&& now.state.should_dealloc() <==> now.census.total() == 0
            &&& now.state.should_dealloc() ==> now.state.dropped && now.state.holders == 0
            &&& now.state.should_dealloc() ==> forall|event: Event| !now.enabled(event)
        }),
{
    Life::begin(first).lemma_run_consistent(events);
}

/// In a well-formed cell, deallocation is due exactly when the value is
/// dropped and no holder is left, unless the owner that consumed the value is
/// still attached. A reference of any role keeps the allocation.
pub proof fn dealloc_due_when_dropped_and_unheld<D>(cell: CellView<D>)
    requires
        cell.wf(),
    ensures
        cell.state.should_dealloc() <==> cell.state.dropped && cell.state.holders == 0
            && !cell.state.owned,
        cell.state.should_dealloc() ==> !cell.state.referenced(),
{
}

/// Giving up a reference removes the cell from the heap exactly if it was
/// the cell's last reference, and touches no other cell.
pub proof fn release_deallocates_unreferenced<D>(cells: HeapView<D>, addr: usize, role: RefType)
    requires
        cells.dom().contains(addr),
        cells[addr].wf(),
        cells[addr].state.can_release(role),
    ensures
        released(cells, addr, role).dom().contains(addr) <==> cells[addr].state.release(
            role,
        ).referenced(),
        !released(cells, addr, role).dom().contains(addr) ==> cells[addr].release(
            role,
        ).state.dropped && cells[addr].release(role).state.holders == 0,
        forall|other: usize|
            other != addr ==> released(cells, addr, role).dom().contains(other)
                == cells.dom().contains(other) && released(cells, addr, role)[other]
                == cells[other],
{
}

/// Writing a value into a dropped cell clears the dropped flag, keeps the
/// counts, and makes the value the one that sharers and owners acquired
/// afterwards will see. The acquisitions succeed unless an owner is attached.
pub proof fn reinit_makes_value_observable<D>(cell: CellView<D>, value: D, role: RefType)
    requires
        cell.wf(),
        cell.state.dropped,
    ensures
        cell.reinit(value).wf(),
        !cell.reinit(value).state.dropped,
        cell.reinit(value).state == cell.state.mark_reinitialized(),
        cell.reinit(value).value == Some(value),
        cell.reinit(value).acquire(role).value == Some(value),
        !cell.state.owned ==> cell.reinit(value).state.can_acquire(role),
{
}

} // verus!
