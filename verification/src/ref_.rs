//! The projection: a raw reference paired with a target.
//!
//! The raw reference keeps the cell alive and carries the role. The target
//! says which part of the value is addressed: a plain value of the caller's
//! choosing, such as a field name or an index range, that is read against the
//! value of the cell. The two are independent; narrowing the target never
//! touches the counts.

use vstd::prelude::*;
use crate::cell::CellView;
use crate::raw::Heap;
use crate::raw::RawRef;

verus! {

/// A raw reference together with the address of a part of its value.
#[derive(Debug, PartialEq, Eq, Hash)]
pub struct Ref<Source, Target> {
    source: RawRef<Source>,
    target: Target,
}

impl<Source, Target> Ref<Source, Target> {
    /// The address of the cell behind the source.
    pub closed spec fn addr(&self) -> usize {
        self.source.addr()
    }

    /// The target.
    pub closed spec fn spec_target(&self) -> Target {
        self.target
    }

    /// Pairs a source with a target.
    pub fn new(source: RawRef<Source>, target: Target) -> (r: Self)
        ensures
            r.addr() == source.addr(),
            r.spec_target() == target,
    {
        Ref { source, target }
    }

    /// The source.
    pub fn source(&self) -> (r: &RawRef<Source>)
        ensures
            r.addr() == self.addr(),
    {
        &self.source
    }

    /// The target.
    pub fn target(&self) -> (r: &Target)
        ensures
            *r == self.spec_target(),
    {
        &self.target
    }

    /// The cell behind the source.
    pub open spec fn cell(&self, heap: &Heap<Source>) -> CellView<Source> {
        heap@[self.addr()]
    }

    /// The value within which the target lies, for reading. The source is a
    /// sharer or the owner of a live cell of `heap`.
    pub fn deref<'a>(&self, heap: &'a Heap<Source>) -> (r: &'a Source)
        requires
            heap@.dom().contains(self.addr()),
            self.cell(heap).value is Some,
            self.cell(heap).state.sharers > 0 || self.cell(heap).state.owned,
        ensures
            self.cell(heap).value == Some(*r),
    {
        self.source.shared(heap).deref()
    }

    /// The value within which the target lies, for writing. The source is
    /// the owner of a live cell of `heap`.
    pub fn deref_mut<'a>(&self, heap: &'a mut Heap<Source>) -> (r: &'a mut Source)
        requires
            old(heap).wf(),
            old(heap)@.dom().contains(self.addr()),
            self.cell(old(heap)).value is Some,
            self.cell(old(heap)).state.owned,
        ensures
            self.cell(old(heap)).value == Some(*r),
            final(heap).wf(),
            final(heap)@ == old(heap)@.insert(
                self.addr(),
                self.cell(old(heap)).with_value(*final(r)),
            ),
    {
        self.source.shared_mut(heap).deref_mut()
    }

    /// Splits the pair.
    pub fn into_parts(self) -> (r: (RawRef<Source>, Target))
        ensures
            r.0.addr() == self.addr(),
            r.1 == self.spec_target(),
    {
        (self.source, self.target)
    }

    /// Computes a new target from the value and the current target, and
    /// pairs it with the same source.
    pub fn map_target<Target2, F>(self, value: &Source, map: F) -> (r: Ref<Source, Target2>)
        where
            F: FnOnce(&Source, Target) -> Target2,
        requires
            map.requires((value, self.spec_target())),
        ensures
            r.addr() == self.addr(),
            map.ensures((value, self.spec_target()), r.spec_target()),
    {
        let target = map(value, self.target);
        Ref { source: self.source, target }
    }

    /// Computes a new target from the value and the current target, which
    /// may fail. Success pairs the new target with the same source; failure
    /// hands back the source and the error.
    pub fn try_map_target<Target2, E, F>(self, value: &Source, map: F) -> (r: Result<
        Ref<Source, Target2>,
        (RawRef<Source>, E),
    >)
        where
            F: FnOnce(&Source, Target) -> Result<Target2, E>,
        requires
            map.requires((value, self.spec_target())),
        ensures
            match r {
                Ok(n) => n.addr() == self.addr() && map.ensures(
                    (value, self.spec_target()),
                    Ok(n.spec_target()),
                ),
                Err((source, e)) => source.addr() == self.addr() && map.ensures(
                    (value, self.spec_target()),
                    Err(e),
                ),
            },
    {
        match map(value, self.target) {
            Ok(target) => Ok(Ref { source: self.source, target }),
            Err(e) => Err((self.source, e)),
        }
    }
}

impl<Source> Ref<Source, ()> {
    /// The identity projection: the target is the whole value, which the
    /// unit address names.
    pub fn from_source(source: RawRef<Source>) -> (r: Self)
        ensures
            r.addr() == source.addr(),
    {
        Ref { source, target: () }
    }
}

} // verus!
