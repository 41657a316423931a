//! Permission sets: which of the five accesses have been observed on a pointer.
use vstd::prelude::*;
use crate::lattice::{PointerAccess, RustPointerType, lattice};

verus! {

/// A set of observed accesses, one flag per access.
#[derive(Copy, Clone, Debug, PartialEq, Eq, Structural)]
pub struct PermissionSet {
    pub write: bool,
    pub unique: bool,
    pub free: bool,
    pub offset_add: bool,
    pub offset_sub: bool,
}

impl View for PermissionSet {
    type V = Set<PointerAccess>;

    open spec fn view(&self) -> Set<PointerAccess> {
        Set::new(|a: PointerAccess| self.has(a))
    }
}

impl PermissionSet {
    /// Whether the flag of `a` is set.
    pub open spec fn has(&self, a: PointerAccess) -> bool {
        match a {
            PointerAccess::Write => self.write,
            PointerAccess::Unique => self.unique,
            PointerAccess::Free => self.free,
            PointerAccess::OffsetAdd => self.offset_add,
            PointerAccess::OffsetSub => self.offset_sub,
        }
    }

    /// The union of two sets.
    pub open spec fn union_spec(self, o: PermissionSet) -> PermissionSet {
        PermissionSet {
            write: self.write || o.write,
            unique: self.unique || o.unique,
            free: self.free || o.free,
            offset_add: self.offset_add || o.offset_add,
            offset_sub: self.offset_sub || o.offset_sub,
        }
    }

    /// The empty set.
    pub fn new() -> (r: PermissionSet)
        ensures
            r@ == Set::<PointerAccess>::empty(),
    {
        let r = PermissionSet {
            write: false,
            unique: false,
            free: false,
            offset_add: false,
            offset_sub: false,
        };
        assert(r@ =~= Set::<PointerAccess>::empty());
        r
    }

    /// The set that holds `a` alone.
    pub fn single(a: PointerAccess) -> (r: PermissionSet)
        ensures
            r@ == Set::<PointerAccess>::empty().insert(a),
    {
        let r = PermissionSet {
            write: a == PointerAccess::Write,
            unique: a == PointerAccess::Unique,
            free: a == PointerAccess::Free,
            offset_add: a == PointerAccess::OffsetAdd,
            offset_sub: a == PointerAccess::OffsetSub,
        };
        assert(r@ =~= Set::<PointerAccess>::empty().insert(a));
        r
    }

    /// Whether `a` is in the set.
    pub fn contains(&self, a: PointerAccess) -> (r: bool)
        ensures
            r == self@.contains(a),
    {
        match a {
            PointerAccess::Write => self.write,
            PointerAccess::Unique => self.unique,
            PointerAccess::Free => self.free,
            PointerAccess::OffsetAdd => self.offset_add,
            PointerAccess::OffsetSub => self.offset_sub,
        }
    }

    /// Adds `a` to the set.
    pub fn insert(&mut self, a: PointerAccess)
        ensures
            final(self)@ == old(self)@.insert(a),
    {
        match a {
            PointerAccess::Write => self.write = true,
            PointerAccess::Unique => self.unique = true,
            PointerAccess::Free => self.free = true,
            PointerAccess::OffsetAdd => self.offset_add = true,
            PointerAccess::OffsetSub => self.offset_sub = true,
        }
        assert(final(self)@ =~= old(self)@.insert(a));
    }

    /// The union of this set and `o`.
    pub fn union(&self, o: &PermissionSet) -> (r: PermissionSet)
        ensures
            r == self.union_spec(*o),
            r@ == self@.union(o@),
    {
        let r = PermissionSet {
            write: self.write || o.write,
            unique: self.unique || o.unique,
            free: self.free || o.free,
            offset_add: self.offset_add || o.offset_add,
            offset_sub: self.offset_sub || o.offset_sub,
        };
        assert(r@ =~= self@.union(o@));
        r
    }

    /// The accesses of the set, each once, in the order of `PointerAccess`.
    pub fn to_vec(&self) -> (r: Vec<PointerAccess>)
        ensures
            r@.to_set() == self@,
    {
        broadcast use vstd::seq::Seq::lemma_push_to_set_commute;

        let mut r: Vec<PointerAccess> = Vec::new();
        let ghost mut s = Set::<PointerAccess>::empty();
        assert(r@.to_set() =~= s);
        if self.write {
            r.push(PointerAccess::Write);
            proof { s = s.insert(PointerAccess::Write); }
        }
        if self.unique {
            r.push(PointerAccess::Unique);
            proof { s = s.insert(PointerAccess::Unique); }
        }
        if self.free {
            r.push(PointerAccess::Free);
            proof { s = s.insert(PointerAccess::Free); }
        }
        if self.offset_add {
            r.push(PointerAccess::OffsetAdd);
            proof { s = s.insert(PointerAccess::OffsetAdd); }
        }
        if self.offset_sub {
            r.push(PointerAccess::OffsetSub);
            proof { s = s.insert(PointerAccess::OffsetSub); }
        }
        assert(s =~= self@);
        r
    }

    /// The safe type that these permissions allow.
    pub fn safe_type(&self) -> (r: RustPointerType)
        ensures
            r == lattice(self@),
    {
        let v = self.to_vec();
        PointerAccess::determine_rust_type(v.as_slice())
    }
}

} // verus!
