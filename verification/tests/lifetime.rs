use std::cell::Cell;
use std::rc::Rc;

use rolecell::cell::SharedCell;
use rolecell::raw::RawRef;
use rolecell::Heap;
use rolecell::Holder;
use rolecell::Owner;
use rolecell::RefType;
use rolecell::Sharer;
use rolecell::Viewer;

/// A value that counts how often it is destroyed.
struct Tally {
    name: &'static str,
    drops: Rc<Cell<usize>>,
}

impl Drop for Tally {
    fn drop(&mut self) {
        self.drops.set(self.drops.get() + 1);
    }
}

fn tally(name: &'static str) -> (Tally, Rc<Cell<usize>>) {
    let drops = Rc::new(Cell::new(0));
    (Tally { name, drops: drops.clone() }, drops)
}

#[test]
fn scenario_owner_to_holder_to_sharers_to_owner_and_reinit() {
    let mut heap = Heap::new();
    let owner = Owner::new("hello".to_owned(), &mut heap);
    owner.deref_mut(&mut heap).push_str(" world!");
    assert_eq!(owner.deref(&heap), "hello world!");
    let holder = Holder::from_owner(owner, &mut heap);
    let sharer1 = Sharer::try_from_holder_ref(&holder, &mut heap).unwrap();
    let sharer2 = Sharer::try_from_holder_ref(&holder, &mut heap).unwrap();
    assert_eq!(Holder::state(&holder, &heap).sharer_count(), 2);
    sharer1.drop(&mut heap);
    let owner = Owner::try_from_viewer(sharer2, &mut heap).unwrap();
    Owner::drop_data(owner, &mut heap);
    let state = Holder::state(&holder, &heap);
    assert!(state.is_dropped());
    assert_eq!(state.holder_count(), 1);
    Holder::reinit(&holder, "hello new world!".to_owned(), &mut heap).unwrap();
    let owner = Owner::try_from_holder(holder, &mut heap).unwrap();
    assert_eq!(owner.deref(&heap), "hello new world!");
}

#[test]
fn scenario_owner_is_refused_while_a_sharer_is_alive() {
    let mut heap = Heap::new();
    let sharer = Sharer::new(vec![1, 2, 3], &mut heap);
    let holder = Holder::from_viewer_ref(&sharer, &mut heap);
    let before = Sharer::state(&sharer, &heap);
    let refused = Owner::try_from_holder_ref(&holder, &mut heap).unwrap_err();
    assert_eq!(refused, before);
    assert_eq!(Sharer::state(&sharer, &heap), before);
    assert_eq!(sharer.deref(&heap), &vec![1, 2, 3]);
}

#[test]
fn value_is_destroyed_once_with_the_last_reference() {
    let mut heap = Heap::new();
    let (value, drops) = tally("shared");
    let viewer = Viewer::new(value, &mut heap);
    let holder = Holder::from_viewer_ref(&viewer, &mut heap);
    let second = viewer.clone(&mut heap);
    let addr = viewer.ptr().address();

    viewer.drop(&mut heap);
    assert_eq!(drops.get(), 0);
    holder.drop(&mut heap);
    assert_eq!(drops.get(), 0);
    assert_eq!(second.deref(&heap).name, "shared");
    assert!(heap.contains(addr));
    second.drop(&mut heap);
    assert_eq!(drops.get(), 1);
    assert!(!heap.contains(addr));
}

#[test]
fn value_is_destroyed_once_when_the_owner_drops_it() {
    let mut heap = Heap::new();
    let (value, drops) = tally("owned");
    let owner = Owner::new(value, &mut heap);
    let holder = Holder::from_owner_ref(&owner, &mut heap);
    let addr = holder.ptr().address();

    Owner::drop_data(owner, &mut heap);
    assert_eq!(drops.get(), 1);
    assert!(heap.contains(addr));
    assert!(Holder::state(&holder, &heap).is_dropped());
    holder.clone(&mut heap).drop(&mut heap);
    assert_eq!(drops.get(), 1);
    holder.drop(&mut heap);
    assert_eq!(drops.get(), 1);
    assert!(!heap.contains(addr));
}

#[test]
fn value_taken_by_the_owner_is_not_destroyed_by_the_cell() {
    let mut heap = Heap::new();
    let (value, drops) = tally("taken");
    let owner = Owner::new(value, &mut heap);
    let addr = Owner::ptr(&owner).address();
    let taken = Owner::move_data(owner, &mut heap);
    assert_eq!(drops.get(), 0);
    assert!(!heap.contains(addr));
    assert_eq!(taken.name, "taken");
    drop(taken);
    assert_eq!(drops.get(), 1);
}

#[test]
fn releasing_the_sole_owner_destroys_value_and_cell() {
    let mut heap = Heap::new();
    let (value, drops) = tally("alone");
    let owner = Owner::new(value, &mut heap);
    let addr = Owner::ptr(&owner).address();
    owner.drop(&mut heap);
    assert_eq!(drops.get(), 1);
    assert!(!heap.contains(addr));
}

#[test]
fn each_value_written_is_destroyed_once() {
    let mut heap = Heap::new();
    let (first, first_drops) = tally("first");
    let (second, second_drops) = tally("second");
    let (third, third_drops) = tally("third");
    let holder = Holder::new(first, &mut heap);

    // a live value is not replaced: the new one is handed back to nobody
    let refused = Holder::reinit(&holder, third, &mut heap).unwrap_err();
    assert_eq!(refused, Holder::state(&holder, &heap));
    assert_eq!((first_drops.get(), third_drops.get()), (0, 1));

    let owner = Owner::try_from_holder_ref(&holder, &mut heap).unwrap();
    Owner::drop_data(owner, &mut heap);
    assert_eq!(first_drops.get(), 1);

    Holder::reinit(&holder, second, &mut heap).unwrap();
    assert!(!Holder::state(&holder, &heap).is_dropped());
    let viewer = Viewer::try_from_holder_ref(&holder, &mut heap).unwrap();
    assert_eq!(viewer.deref(&heap).name, "second");
    viewer.drop(&mut heap);
    assert_eq!(second_drops.get(), 0);
    holder.drop(&mut heap);
    assert_eq!((first_drops.get(), second_drops.get(), third_drops.get()), (1, 1, 1));
}

#[test]
fn reinit_of_a_live_cell_changes_nothing() {
    let mut heap = Heap::new();
    let holder = Holder::new(1, &mut heap);
    let viewer = Viewer::try_from_holder_ref(&holder, &mut heap).unwrap();
    let before = Holder::state(&holder, &heap);
    assert_eq!(Holder::reinit(&holder, 2, &mut heap), Err(before));
    assert_eq!(Holder::state(&holder, &heap), before);
    assert_eq!(*viewer.deref(&heap), 1);
}

#[test]
fn reinit_value_is_seen_by_later_sharers_and_owners() {
    let mut heap = Heap::new();
    let owner = Owner::new(1, &mut heap);
    let holder = Holder::from_owner_ref(&owner, &mut heap);
    assert_eq!(Owner::move_data(owner, &mut heap), 1);
    assert_eq!(Holder::reinit(&holder, 2, &mut heap), Ok(()));
    let state = Holder::state(&holder, &heap);
    assert_eq!((state.is_dropped(), state.holder_count()), (false, 1));
    let sharer = Sharer::try_from_holder_ref(&holder, &mut heap).unwrap();
    assert_eq!(*sharer.deref(&heap), 2);
    let owner = Owner::try_from_viewer(sharer, &mut heap).unwrap();
    assert_eq!(*owner.deref(&heap), 2);
}

#[test]
fn freed_slots_are_used_again() {
    let mut heap = Heap::new();
    let a = Holder::new('a', &mut heap);
    let b = Holder::new('b', &mut heap);
    let c = Holder::new('c', &mut heap);
    let (at_a, at_b, at_c) = (a.ptr().address(), b.ptr().address(), c.ptr().address());
    assert!(at_a != at_b && at_b != at_c && at_a != at_c);
    b.drop(&mut heap);
    assert!(heap.contains(at_a) && !heap.contains(at_b) && heap.contains(at_c));
    let d = Viewer::new('d', &mut heap);
    assert_eq!(d.ptr().address(), at_b);
    assert_eq!(*d.deref(&heap), 'd');
    let e = Viewer::new('e', &mut heap);
    let at_e = e.ptr().address();
    assert!(at_e != at_a && at_e != at_b && at_e != at_c);
    assert!(!heap.contains(at_e + 1));
}

#[test]
fn cells_of_one_heap_do_not_touch_each_other() {
    let mut heap = Heap::new();
    let first = Owner::new(1, &mut heap);
    let second = Viewer::new(2, &mut heap);
    *first.deref_mut(&mut heap) = 10;
    let more = second.clone(&mut heap);
    assert_eq!(Owner::state(&first, &heap).viewer_count(), 0);
    assert_eq!(Viewer::state(&second, &heap).viewer_count(), 2);
    first.drop(&mut heap);
    assert_eq!(*more.deref(&heap), 2);
    assert_eq!(*second.deref(&heap), 2);
}

#[test]
fn viewer_conversions_report_the_refusing_state() {
    let mut heap = Heap::new();
    let viewer = Viewer::new("v".to_owned(), &mut heap);
    let other = viewer.clone(&mut heap);
    // the viewer is given up and a holder stands in for it when the owner is refused
    let refused = Owner::try_from_viewer(viewer, &mut heap).unwrap_err();
    assert_eq!(
        (refused.is_dropped(), refused.holder_count(), refused.viewer_count(), refused.is_owned()),
        (false, 1, 1, false)
    );
    let now = Viewer::state(&other, &heap);
    assert_eq!((now.holder_count(), now.viewer_count()), (0, 1));

    let holder = Holder::from_viewer(other, &mut heap);
    let now = Holder::state(&holder, &heap);
    assert_eq!((now.holder_count(), now.viewer_count()), (1, 0));
    let owner = Owner::try_from_holder(holder, &mut heap).unwrap();
    let now = Owner::state(&owner, &heap);
    assert_eq!((now.holder_count(), now.viewer_count(), now.is_owned()), (0, 0, true));
    let viewer = Viewer::from_owner(owner, &mut heap);
    let now = Viewer::state(&viewer, &heap);
    assert_eq!((now.holder_count(), now.viewer_count(), now.is_owned()), (0, 1, false));
    assert_eq!(viewer.deref(&heap), "v");
}

#[test]
fn consuming_a_holder_gives_it_up_even_when_refused() {
    let mut heap = Heap::new();
    let owner = Owner::new(0u8, &mut heap);
    let holder = Holder::from_owner_ref(&owner, &mut heap);
    let refused = Viewer::try_from_holder(holder, &mut heap).unwrap_err();
    assert_eq!((refused.holder_count(), refused.is_owned()), (1, true));
    assert_eq!(Owner::state(&owner, &heap).holder_count(), 0);

    // the last holder of a dropped cell takes the cell with it
    let holder = Holder::from_owner_ref(&owner, &mut heap);
    let addr = holder.ptr().address();
    Owner::drop_data(owner, &mut heap);
    let refused = Owner::try_from_holder(holder, &mut heap).unwrap_err();
    assert!(refused.is_dropped());
    assert!(!heap.contains(addr));
}

#[test]
fn raw_references_name_their_role_on_every_call() {
    let mut heap = Heap::new();
    let holder = RawRef::new("raw".to_owned(), RefType::Holder, &mut heap);
    let addr = holder.address();
    let sharer = holder.clone_to(RefType::Sharer, &mut heap).unwrap();
    assert_eq!(sharer.address(), addr);
    let refused = holder.clone_to(RefType::Owner, &mut heap).unwrap_err();
    assert_eq!(refused, holder.shared(&heap).state());
    assert_eq!(holder.shared(&heap).deref(), "raw");
    sharer.drop_from(RefType::Sharer, &mut heap);
    let owner = holder.clone_to_owner(&mut heap).unwrap();
    assert!(holder.clone_to_viewer(&mut heap).is_err());
    let keeper = owner.clone_to_holder(&mut heap);
    assert_eq!(keeper.shared(&heap).state().holder_count(), 2);
    owner.drop_from_owner(&mut heap);
    keeper.drop_from_holder(&mut heap);
    assert!(heap.contains(addr));
    holder.drop_from(RefType::Holder, &mut heap);
    assert!(!heap.contains(addr));

    let viewer = RawRef::new_viewer(1, &mut Heap::new());
    assert_eq!(viewer.address(), 0);
    let mut heap = Heap::new();
    let owner = RawRef::new_owner(1, &mut heap);
    assert!(owner.shared(&heap).state().is_owned());
    let holder = RawRef::new_holder(2, &mut heap);
    assert_eq!(holder.shared(&heap).state().holder_count(), 1);
    holder.drop_from_holder(&mut heap);
    let viewer = RawRef::new_viewer(3, &mut heap);
    assert_eq!(viewer.shared(&heap).state().viewer_count(), 1);
    viewer.drop_from_viewer(&mut heap);
}

#[test]
fn shared_cell_follows_its_state_word() {
    let mut cell = SharedCell::new("cell".to_owned(), RefType::Holder);
    assert_eq!(cell.state().holder_count(), 1);
    assert_eq!(cell.clone_to(RefType::Sharer), Ok(()));
    assert_eq!(cell.deref(), "cell");
    let refused = cell.clone_to(RefType::Owner).unwrap_err();
    assert_eq!(refused, cell.state());
    cell.drop_from(RefType::Sharer);
    assert_eq!(cell.clone_to(RefType::Owner), Ok(()));
    cell.deref_mut().push('!');
    assert_eq!(cell.reinit_data("early".to_owned()), Err(cell.state()));
    assert_eq!(cell.move_data(), "cell!");
    assert!(cell.state().is_dropped());
    assert!(!cell.should_dealloc());
    cell.drop_from(RefType::Owner);
    assert!(!cell.should_dealloc());
    assert_eq!(cell.reinit_data("again".to_owned()), Ok(()));
    assert!(!cell.state().is_dropped());
    assert_eq!(cell.clone_to(RefType::Owner), Ok(()));
    assert_eq!(cell.deref(), "again");
    cell.drop_data();
    assert!(cell.state().is_dropped());
    cell.drop_from(RefType::Owner);
    cell.drop_from(RefType::Holder);
    assert!(cell.should_dealloc());
}

#[test]
fn shared_cell_destroys_its_value_with_the_last_reference() {
    let (value, drops) = tally("cell");
    let mut cell = SharedCell::new(value, RefType::Sharer);
    assert_eq!(cell.clone_to(RefType::Holder), Ok(()));
    cell.drop_from(RefType::Sharer);
    assert_eq!(drops.get(), 0);
    assert!(!cell.state().is_dropped());
    cell.drop_from(RefType::Holder);
    assert_eq!(drops.get(), 1);
    assert!(cell.state().is_dropped());
    assert!(cell.should_dealloc());
}

#[test]
fn default_heap_is_empty() {
    let mut heap: Heap<u8> = Heap::default();
    assert!(!heap.contains(0));
    let holder = Holder::new(1, &mut heap);
    assert!(heap.contains(holder.ptr().address()));
}
