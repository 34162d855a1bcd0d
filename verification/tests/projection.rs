use rolecell::Heap;
use rolecell::Holder;
use rolecell::Owner;
use rolecell::OwnerRef;
use rolecell::State;
use rolecell::Viewer;
use rolecell::ViewerRef;

/// The parts of a `(String, i32)` that the tests address.
#[derive(Clone, Copy, Debug, PartialEq, Eq)]
enum Part {
    Text,
    TextFrom(usize),
}

fn text<'a>(pair: &'a (String, i32), part: &Part) -> &'a str {
    match part {
        Part::Text => &pair.0,
        Part::TextFrom(at) => &pair.0[*at ..],
    }
}

fn text_mut<'a>(pair: &'a mut (String, i32), part: &Part) -> &'a mut String {
    match part {
        Part::Text => &mut pair.0,
        Part::TextFrom(_) => panic!("a slice of the text cannot grow"),
    }
}

fn from(at: usize) -> impl FnOnce(&(String, i32), Part) -> Result<Part, String> {
    move |pair, _| {
        if pair.0.is_char_boundary(at) {
            Ok(Part::TextFrom(at))
        } else {
            Err(format!("{} is outside of {:?}", at, pair.0))
        }
    }
}

#[test]
fn test_example_ref() -> Result<(), State> {
    let mut heap = Heap::new();
    let owner = Owner::new(("hello".to_owned(), 1), &mut heap);
    // Owner -> OwnerRef for field projection
    let owner_ref0 = OwnerRef::from_owner(owner);
    // modify both fields through OwnerRef
    owner_ref0.deref_mut(&mut heap).0.push_str(" world");
    assert_eq!(owner_ref0.deref(&heap).0, "hello world");
    owner_ref0.deref_mut(&mut heap).1 = 2;
    assert_eq!(owner_ref0.deref(&heap).1, 2);
    // project to string field for focused mutable access
    let owner_ref1 = OwnerRef::map(owner_ref0, |_, _| Part::Text, &heap);
    let part = *OwnerRef::target(&owner_ref1);
    text_mut(owner_ref1.deref_mut(&mut heap), &part).push('!');
    assert_eq!(text(owner_ref1.deref(&heap), OwnerRef::target(&owner_ref1)), "hello world!");
    // further project to substring
    let owner_ref2 = OwnerRef::map(owner_ref1, |_, _| Part::TextFrom(6), &heap);
    assert_eq!(text(owner_ref2.deref(&heap), OwnerRef::target(&owner_ref2)), "world!");
    // recover full ownership
    let owner = Owner::from_owner_ref(owner_ref2);

    // ViewerRef example with similar projection chain
    let viewer = Viewer::from_owner(owner, &mut heap);
    let viewer_ref0 = ViewerRef::from_viewer(viewer);
    let viewer_ref1 = ViewerRef::map(viewer_ref0, |_, _| Part::Text, &heap);
    let viewer_ref2 = ViewerRef::map(viewer_ref1, |_, _| Part::TextFrom(6), &heap);
    assert_eq!(text(viewer_ref2.deref(&heap), ViewerRef::target(&viewer_ref2)), "world!");
    Ok(())
}

#[test]
fn projection_keeps_the_cell_owned() {
    let mut heap = Heap::new();
    let owner = Owner::new(("hello world!".to_owned(), 1), &mut heap);
    let holder = Holder::from_owner_ref(&owner, &mut heap);
    let before = Owner::state(&owner, &heap);
    assert!(before.is_owned());

    let whole = OwnerRef::from_owner(owner);
    assert_eq!(OwnerRef::state(&whole, &heap), before);
    Owner::try_from_holder_ref(&holder, &mut heap).unwrap_err();
    Viewer::try_from_holder_ref(&holder, &mut heap).unwrap_err();

    let field = OwnerRef::map(whole, |_, _| Part::Text, &heap);
    assert_eq!(OwnerRef::state(&field, &heap), before);
    Owner::try_from_holder_ref(&holder, &mut heap).unwrap_err();
    Viewer::try_from_holder_ref(&holder, &mut heap).unwrap_err();

    let slice = OwnerRef::try_map(field, from(6), &mut heap).unwrap();
    assert_eq!(OwnerRef::state(&slice, &heap), before);
    Owner::try_from_holder_ref(&holder, &mut heap).unwrap_err();
    Viewer::try_from_holder_ref(&holder, &mut heap).unwrap_err();
    assert_eq!(*OwnerRef::target(&slice), Part::TextFrom(6));
    assert_eq!(text(slice.deref(&heap), OwnerRef::target(&slice)), "world!");

    let owner = Owner::from_owner_ref(slice);
    assert_eq!(Owner::state(&owner, &heap), before);
    assert_eq!(owner.deref(&heap).0, "hello world!");
}

#[test]
fn map_hands_the_value_and_the_target_to_the_function() {
    let mut heap = Heap::new();
    let owner = OwnerRef::from_owner(Owner::new(vec![3, 1, 2], &mut heap));
    let largest = OwnerRef::map(
        owner,
        |items: &Vec<i32>, _| (0 .. items.len()).max_by_key(|i| items[*i]).unwrap(),
        &heap,
    );
    assert_eq!(*OwnerRef::target(&largest), 0);
    let next = OwnerRef::map(largest, |items: &Vec<i32>, at| (at + 1) % items.len(), &heap);
    assert_eq!(*OwnerRef::target(&next), 1);
    assert_eq!(next.deref(&heap)[*OwnerRef::target(&next)], 1);
}

#[test]
fn try_map_that_fails_gives_up_the_owner() {
    let mut heap = Heap::new();
    let owner = Owner::new(("hello".to_owned(), 1), &mut heap);
    let holder = Holder::from_owner_ref(&owner, &mut heap);
    let field = OwnerRef::map(OwnerRef::from_owner(owner), |_, _| Part::Text, &heap);

    let error = OwnerRef::try_map(field, from(9), &mut heap).unwrap_err();
    assert_eq!(error, "9 is outside of \"hello\"");

    let state = Holder::state(&holder, &heap);
    assert!(!state.is_owned());
    assert!(!state.is_dropped());
    assert_eq!(state.holder_count(), 1);
    let again = Owner::try_from_holder_ref(&holder, &mut heap).unwrap();
    assert_eq!(again.deref(&heap).0, "hello");
}

#[test]
fn try_map_that_fails_on_the_last_reference_frees_the_cell() {
    let mut heap = Heap::new();
    let owner = Owner::new(("hello".to_owned(), 1), &mut heap);
    let addr = Owner::ptr(&owner).address();
    let field = OwnerRef::map(OwnerRef::from_owner(owner), |_, _| Part::Text, &heap);
    assert!(heap.contains(addr));
    OwnerRef::try_map(field, from(9), &mut heap).unwrap_err();
    assert!(!heap.contains(addr));
}

#[test]
fn viewer_projections_count_as_viewers() {
    let mut heap = Heap::new();
    let viewer = Viewer::new(("hello world!".to_owned(), 7), &mut heap);
    let whole = ViewerRef::from_viewer_ref(&viewer, &mut heap);
    assert_eq!(Viewer::state(&viewer, &heap).viewer_count(), 2);
    let field = ViewerRef::map(whole, |_, _| Part::TextFrom(6), &heap);
    assert_eq!(ViewerRef::state(&field, &heap).viewer_count(), 2);
    let twin = field.clone(&mut heap);
    assert_eq!(ViewerRef::state(&field, &heap).viewer_count(), 3);
    assert_eq!(ViewerRef::target(&twin), ViewerRef::target(&field));
    assert_eq!(text(twin.deref(&heap), ViewerRef::target(&twin)), "world!");
    assert_eq!(ViewerRef::source(&twin).address(), viewer.ptr().address());

    // with three viewers alive none can turn into the owner
    let refused = Owner::try_from_viewer_ref(twin, &mut heap).unwrap_err();
    assert_eq!(refused.viewer_count(), 2);
    assert_eq!(refused.holder_count(), 1);
    assert_eq!(Viewer::state(&viewer, &heap).viewer_count(), 2);
    assert_eq!(Viewer::state(&viewer, &heap).holder_count(), 0);

    field.drop(&mut heap);
    assert_eq!(Viewer::state(&viewer, &heap).viewer_count(), 1);
    let owner = Owner::try_from_viewer_ref(ViewerRef::from_viewer(viewer), &mut heap).unwrap();
    assert!(Owner::state(&owner, &heap).is_owned());
    assert_eq!(owner.deref(&heap).1, 7);
}

#[test]
fn projections_from_holders_and_owners() {
    let mut heap = Heap::new();
    let holder = Holder::new(5u8, &mut heap);

    let viewer = ViewerRef::try_from_holder_ref(&holder, &mut heap).unwrap();
    assert_eq!(*viewer.deref(&heap), 5);
    let refused = OwnerRef::try_from_holder_ref(&holder, &mut heap).unwrap_err();
    assert_eq!(refused.viewer_count(), 1);
    assert_eq!(refused, Holder::state(&holder, &heap));
    viewer.drop(&mut heap);

    let owner = OwnerRef::try_from_holder_ref(&holder, &mut heap).unwrap();
    *owner.deref_mut(&mut heap) = 6;
    let refused = ViewerRef::try_from_holder_ref(&holder, &mut heap).unwrap_err();
    assert!(refused.is_owned());

    let (owner, ()) = owner.into_parts();
    let marked = OwnerRef::from_parts(owner, "all of it");
    let viewer = ViewerRef::from_owner_ref(marked, &mut heap);
    assert_eq!(*ViewerRef::target(&viewer), "all of it");
    assert_eq!(*viewer.deref(&heap), 6);
    assert_eq!(ViewerRef::state(&viewer, &heap).viewer_count(), 1);
    assert!(!ViewerRef::state(&viewer, &heap).is_owned());

    let owner = OwnerRef::try_from_viewer(viewer.into_parts().0, &mut heap).unwrap();
    assert!(OwnerRef::state(&owner, &heap).is_owned());
    let viewer = ViewerRef::from_owner(Owner::from_owner_ref(owner), &mut heap);
    assert_eq!(ViewerRef::state(&viewer, &heap).viewer_count(), 1);

    // consuming the holder: it is given up whether or not the role is granted
    let owner = OwnerRef::try_from_holder(holder.clone(&mut heap), &mut heap).unwrap_err();
    assert_eq!(owner.holder_count(), 2);
    assert_eq!(ViewerRef::state(&viewer, &heap).holder_count(), 1);
    let second = ViewerRef::try_from_holder(holder, &mut heap).unwrap();
    assert_eq!(ViewerRef::state(&second, &heap).holder_count(), 0);
    assert_eq!(ViewerRef::state(&second, &heap).viewer_count(), 2);
    second.drop(&mut heap);
    let addr = ViewerRef::source(&viewer).address();
    viewer.drop(&mut heap);
    assert!(!heap.contains(addr));
}
