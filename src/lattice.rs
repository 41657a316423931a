//! The permission lattice: from the set of observed accesses on a raw pointer
//! to the safe pointer type that can replace it.
use vstd::prelude::*;

verus! {

/// A permission that a raw pointer needs where it is defined and used.
#[derive(Copy, Clone, Debug, Hash, PartialEq, Eq, Structural)]
pub enum PointerAccess {
    /// The program writes to the pointee.
    Write,
    /// The pointer is the only way to reach the memory it points to.
    Unique,
    /// The pointer is eventually passed to `free`.
    Free,
    /// An offset is added to the pointer (element access forwards).
    OffsetAdd,
    /// An offset is subtracted from the pointer.
    OffsetSub,
}

/// The safe type that can stand for a raw pointer.
#[derive(Copy, Clone, Debug, Hash, PartialEq, Eq, Structural)]
pub enum RustPointerType {
    /// `&T`
    ImmutableReference,
    /// `&mut T`
    MutableReference,
    /// `&Cell<T>`
    CellReference,
    /// `Box<T>`
    UniquePointer,
    /// `&[T]`
    ImmutableSlice,
    /// `&mut [T]`
    MutableSlice,
    /// `Box<[T]>`
    UniqueSlicePointer,
    /// No safe type covers the observed accesses.
    Undefined,
}

/// The lattice over the five membership facts of a permission set.
pub open spec fn lattice_of_flags(
    write: bool,
    unique: bool,
    free: bool,
    offset: bool,
) -> RustPointerType {
    if !write && !unique && !free && !offset {
        RustPointerType::ImmutableReference
    } else if write && unique && !free && !offset {
        RustPointerType::MutableReference
    } else if write && !unique && !free && !offset {
        RustPointerType::CellReference
    } else if !write && unique && free && !offset {
        RustPointerType::UniquePointer
    } else if !write && !unique && !free && offset {
        RustPointerType::ImmutableSlice
    } else if write && unique && !free && offset {
        RustPointerType::MutableSlice
    } else if !write && unique && free && offset {
        RustPointerType::UniqueSlicePointer
    } else {
        RustPointerType::Undefined
    }
}

/// The safe type for a permission set: either offset direction counts as
/// "offset".
pub open spec fn lattice(s: Set<PointerAccess>) -> RustPointerType {
    lattice_of_flags(
        s.contains(PointerAccess::Write),
        s.contains(PointerAccess::Unique),
        s.contains(PointerAccess::Free),
        s.contains(PointerAccess::OffsetAdd) || s.contains(PointerAccess::OffsetSub),
    )
}

/// Whether `a` occurs in `permissions`.
fn contains_access(permissions: &[PointerAccess], a: PointerAccess) -> (r: bool)
    ensures
        r == permissions@.contains(a),
{
    let mut i: usize = 0;
    while i < permissions.len()
        invariant
            i <= permissions@.len(),
            forall|j: int| 0 <= j < i ==> permissions@[j] != a,
        decreases permissions@.len() - i,
    {
        if permissions[i] == a {
            return true;
        }
        i = i + 1;
    }
    false
}

impl PointerAccess {
    /// Returns the safe pointer type that the given access permissions allow,
    /// and `RustPointerType::Undefined` where none does. Duplicates and order
    /// in `permissions` do not matter.
    pub fn determine_rust_type(permissions: &[PointerAccess]) -> (r: RustPointerType)
        ensures
            r == lattice(permissions@.to_set()),
    {
        let has_write = contains_access(permissions, PointerAccess::Write);
        let has_unique = contains_access(permissions, PointerAccess::Unique);
        let has_free = contains_access(permissions, PointerAccess::Free);
        let has_offset_add = contains_access(permissions, PointerAccess::OffsetAdd);
        let has_offset_sub = contains_access(permissions, PointerAccess::OffsetSub);
        proof {
            let s = permissions@.to_set();
            assert(s.contains(PointerAccess::Write) == has_write);
            assert(s.contains(PointerAccess::Unique) == has_unique);
            assert(s.contains(PointerAccess::Free) == has_free);
            assert(s.contains(PointerAccess::OffsetAdd) == has_offset_add);
            assert(s.contains(PointerAccess::OffsetSub) == has_offset_sub);
        }
        match (has_write, has_unique, has_free, has_offset_add, has_offset_sub) {
            (false, false, false, false, false) => RustPointerType::ImmutableReference,
            (true, true, false, false, false) => RustPointerType::MutableReference,
            (true, false, false, false, false) => RustPointerType::CellReference,
            (false, true, true, false, false) => RustPointerType::UniquePointer,
            (false, false, false, true, true)
            | (false, false, false, true, false)
            | (false, false, false, false, true) => RustPointerType::ImmutableSlice,
            (true, true, false, true, true)
            | (true, true, false, true, false)
            | (true, true, false, false, true) => RustPointerType::MutableSlice,
            (false, true, true, true, true)
            | (false, true, true, true, false)
            | (false, true, true, false, true) => RustPointerType::UniqueSlicePointer,
            _ => RustPointerType::Undefined,
        }
    }
}

} // verus!
