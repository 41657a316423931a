//! Pointer permission inference: discover raw-pointer bindings, accumulate
//! the accesses made through them, and resolve each to a safe pointer type.
use vstd::prelude::*;
use crate::ast::{Declaration, Expr, Pattern, TypeShape, UnaryOp};
use crate::bindings::{
    PointerBinding, find_last, last_index, lemma_lookup_append, lemma_lookup_update, lookup,
};
use crate::lattice::{PointerAccess, RustPointerType, lattice};
use crate::permissions::PermissionSet;

verus! {

/// The phases of one analysis run. `Computing` carries the mapping under
/// construction, `Initialized` the completed one.
#[derive(Clone, Debug)]
pub enum TypeMappingStateMachine {
    /// No binding has been discovered yet.
    Uninitialized,
    /// Bindings are discovered; accesses are being accumulated.
    Computing(Vec<(String, RustPointerType)>),
    /// Every discovered binding has its safe type.
    Initialized(Vec<(String, RustPointerType)>),
}

/// A phase operation called out of order.
#[derive(Copy, Clone, Debug, PartialEq, Eq, Structural)]
pub enum PhaseError {
    NotUninitialized,
    NotComputing,
    NotInitialized,
}

/// The pointer permission inference engine of one translation unit.
#[derive(Clone, Debug)]
pub struct RawPointerSanitizer {
    /// The discovered bindings; a later entry for a name hides earlier ones.
    pointers: Vec<PointerBinding>,
    /// The phase, with the mapping from bindings to safe types.
    types: TypeMappingStateMachine,
}

/// The phase of an analysis run, without its mapping.
pub enum Phase {
    Uninitialized,
    Computing,
    Initialized,
}

/// The empty permission set.
pub open spec fn no_permissions() -> PermissionSet {
    PermissionSet { write: false, unique: false, free: false, offset_add: false, offset_sub: false }
}

/// The binding that a declaration introduces: an identifier of raw pointer type.
pub open spec fn decl_entries(d: Declaration) -> Seq<PointerBinding> {
    match (d.pat, d.ty) {
        (Pattern::Ident(n), TypeShape::Ptr(p)) => seq![
            PointerBinding { name: n, pointer: p, accesses: no_permissions() },
        ],
        _ => Seq::empty(),
    }
}

/// The bindings that a sequence of declarations introduces, in order.
pub open spec fn discovered(ds: Seq<Declaration>) -> Seq<PointerBinding>
    decreases ds.len(),
{
    if ds.len() == 0 {
        Seq::empty()
    } else {
        discovered(ds.drop_last()) + decl_entries(ds.last())
    }
}

/// The table after discovering `ds` on top of `s`.
pub open spec fn discover(s: Seq<PointerBinding>, ds: Seq<Declaration>) -> Seq<PointerBinding> {
    s + discovered(ds)
}

/// The method names that advance a pointer.
pub open spec fn advances(m: Seq<char>) -> bool {
    m == "offset"@ || m == "add"@ || m == "wrapping_offset"@ || m == "wrapping_add"@
}

/// The method names that move a pointer back.
pub open spec fn retreats(m: Seq<char>) -> bool {
    m == "sub"@ || m == "wrapping_sub"@
}

/// The offset access that a call of method `m` on a pointer makes.
pub open spec fn offset_access(m: Seq<char>) -> PermissionSet {
    PermissionSet {
        write: false,
        unique: false,
        free: false,
        offset_add: advances(m),
        offset_sub: retreats(m),
    }
}

/// The identifier that an expression names: the last segment of an
/// unqualified path.
pub open spec fn receiver_ident(e: Expr) -> Option<Seq<char>> {
    match e {
        Expr::Path { qualified, segments } => if !qualified && segments@.len() > 0 {
            Some(segments@.last()@)
        } else {
            None
        },
        _ => None,
    }
}

/// The identifier that an access site reaches and the accesses it makes:
/// `*p.m(..) = v` writes (and offsets, for an offset method); `p.m(..)`
/// offsets for an offset method.
pub open spec fn site_access(e: Expr) -> Option<(Seq<char>, PermissionSet)> {
    match e {
        Expr::Assign { left, right: _ } => match *left {
            Expr::Unary { op: UnaryOp::Deref, operand } => match *operand {
                Expr::MethodCall { receiver, method, args: _ } => match receiver_ident(*receiver) {
                    Some(n) => Some((n, PermissionSet { write: true, ..offset_access(method@) })),
                    None => None,
                },
                _ => None,
            },
            _ => None,
        },
        Expr::MethodCall { receiver, method, args: _ } => match receiver_ident(*receiver) {
            Some(n) => Some((n, offset_access(method@))),
            None => None,
        },
        _ => None,
    }
}

/// The table after recording one access site.
pub open spec fn apply_site(s: Seq<PointerBinding>, e: Expr) -> Seq<PointerBinding> {
    match site_access(e) {
        Some((n, acc)) => {
            let i = last_index(s, n);
            if i >= 0 {
                s.update(
                    i,
                    PointerBinding {
                        name: s[i].name,
                        pointer: s[i].pointer,
                        accesses: s[i].accesses.union_spec(acc),
                    },
                )
            } else {
                s
            }
        },
        None => s,
    }
}

/// The table after recording a sequence of access sites, in order.
pub open spec fn accumulate(s: Seq<PointerBinding>, es: Seq<Expr>) -> Seq<PointerBinding>
    decreases es.len(),
{
    if es.len() == 0 {
        s
    } else {
        apply_site(accumulate(s, es.drop_last()), es.last())
    }
}

/// The safe type that the name `k` resolves to in the table `s`.
pub open spec fn resolved(s: Seq<PointerBinding>, k: Seq<char>) -> Option<RustPointerType> {
    match lookup(s, k) {
        Some(b) => Some(lattice(b.accesses@)),
        None => None,
    }
}

/// Discovering twice over the same declarations, with nothing in between,
/// gives every name the same binding as discovering once.
pub proof fn lemma_discover_idempotent(s: Seq<PointerBinding>, ds: Seq<Declaration>)
    ensures
        forall|k: Seq<char>| #[trigger]
            lookup(discover(discover(s, ds), ds), k) == lookup(discover(s, ds), k),
{
    let t = discovered(ds);
    assert forall|k: Seq<char>| #[trigger]
        lookup(discover(discover(s, ds), ds), k) == lookup(discover(s, ds), k) by {
        lemma_lookup_append(s + t, t, k);
        lemma_lookup_append(s, t, k);
    }
}

/// Accumulating accesses never takes a permission away: a binding keeps its
/// name and pointer type, and every access it had stays recorded.
pub proof fn lemma_accumulate_monotonic(
    s: Seq<PointerBinding>,
    es: Seq<Expr>,
    k: Seq<char>,
    b: PointerBinding,
)
    requires
        lookup(s, k) == Some(b),
    ensures
        lookup(accumulate(s, es), k) is Some,
        lookup(accumulate(s, es), k)->Some_0.name == b.name,
        lookup(accumulate(s, es), k)->Some_0.pointer == b.pointer,
        b.accesses@.subset_of(lookup(accumulate(s, es), k)->Some_0.accesses@),
    decreases es.len(),
{
    if es.len() > 0 {
        lemma_accumulate_monotonic(s, es.drop_last(), k, b);
        let s1 = accumulate(s, es.drop_last());
        let b1 = lookup(s1, k)->Some_0;
        match site_access(es.last()) {
            Some((n, acc)) => {
                let i = last_index(s1, n);
                if i >= 0 {
                    let nb = PointerBinding {
                        name: s1[i].name,
                        pointer: s1[i].pointer,
                        accesses: s1[i].accesses.union_spec(acc),
                    };
                    crate::bindings::lemma_last_index(s1, n);
                    lemma_lookup_update(s1, n, nb, k);
                    if k == n {
                        assert(b1.accesses@.subset_of(nb.accesses@));
                    }
                }
            },
            None => {},
        }
    }
}

/// How the Rewrite step changes an access site.
#[derive(Copy, Clone, Debug, PartialEq, Eq, Structural)]
pub enum SiteRewrite {
    /// The site stays as it is.
    Unchanged,
    /// `p.offset(i)` becomes the subslice `&p[i..]` (`&mut` when `mutable`).
    SliceFrom { mutable: bool },
    /// `*p.offset(i) = v` becomes `p[i] = v`.
    IndexWrite,
    /// `*p.m(..) = v` becomes `p.set(v)`, on a `&Cell<T>`.
    CellSet,
    /// `*p.m(..) = v` becomes `*p = v`, on a `&mut T` or a `Box<T>`.
    DerefWrite,
}

/// The rewrite of a write `*p.m(..) = v` through a binding of type `t`,
/// where `offset_call` says whether `p.m(..)` advances by one argument.
pub open spec fn write_rewrite(t: RustPointerType, offset_call: bool) -> SiteRewrite {
    if t == RustPointerType::MutableSlice && offset_call {
        SiteRewrite::IndexWrite
    } else if t == RustPointerType::CellReference {
        SiteRewrite::CellSet
    } else if t == RustPointerType::MutableReference || t == RustPointerType::UniquePointer {
        SiteRewrite::DerefWrite
    } else {
        SiteRewrite::Unchanged
    }
}

/// Whether `t` is one of the slice types.
pub open spec fn is_slice(t: RustPointerType) -> bool {
    t == RustPointerType::ImmutableSlice || t == RustPointerType::MutableSlice || t
        == RustPointerType::UniqueSlicePointer
}

/// The rewrite of an access site, with the bindings of `s` resolved: an
/// advancing call with one argument on a binding of slice type becomes a
/// subslice; a write through a method call on a binding is rewritten by
/// `write_rewrite`. Any other site is unchanged.
pub open spec fn site_rewrite(s: Seq<PointerBinding>, e: Expr) -> SiteRewrite {
    match e {
        Expr::Assign { left, right: _ } => match *left {
            Expr::Unary { op: UnaryOp::Deref, operand } => match *operand {
                Expr::MethodCall { receiver, method, args } => match receiver_ident(*receiver) {
                    Some(n) => match resolved(s, n) {
                        Some(t) => write_rewrite(t, advances(method@) && args@.len() == 1),
                        None => SiteRewrite::Unchanged,
                    },
                    None => SiteRewrite::Unchanged,
                },
                _ => SiteRewrite::Unchanged,
            },
            _ => SiteRewrite::Unchanged,
        },
        Expr::MethodCall { receiver, method, args } => match receiver_ident(*receiver) {
            Some(n) => match resolved(s, n) {
                Some(t) => if advances(method@) && args@.len() == 1 && is_slice(t) {
                    SiteRewrite::SliceFrom { mutable: t == RustPointerType::MutableSlice }
                } else {
                    SiteRewrite::Unchanged
                },
                None => SiteRewrite::Unchanged,
            },
            None => SiteRewrite::Unchanged,
        },
        _ => SiteRewrite::Unchanged,
    }
}

/// The accesses that site `e` makes through the name `k`.
pub open spec fn touches(e: Expr, k: Seq<char>) -> PermissionSet {
    match site_access(e) {
        Some((n, acc)) => if n == k {
            acc
        } else {
            no_permissions()
        },
        None => no_permissions(),
    }
}

/// The accesses that the sites `es` make through the name `k`, together.
pub open spec fn accesses_for(es: Seq<Expr>, k: Seq<char>) -> PermissionSet
    decreases es.len(),
{
    if es.len() == 0 {
        no_permissions()
    } else {
        accesses_for(es.drop_last(), k).union_spec(touches(es.last(), k))
    }
}

/// The accesses of a write through an advancing call: `*p.offset(i) = v`.
pub open spec fn write_offset() -> PermissionSet {
    PermissionSet { write: true, unique: false, free: false, offset_add: true, offset_sub: false }
}

/// Accumulating adds to a binding exactly the accesses that the sites make
/// through its name.
pub proof fn lemma_accumulate_exact(s: Seq<PointerBinding>, es: Seq<Expr>, k: Seq<char>, b: PointerBinding)
    requires
        lookup(s, k) == Some(b),
    ensures
        lookup(accumulate(s, es), k) == Some(
            PointerBinding {
                name: b.name,
                pointer: b.pointer,
                accesses: b.accesses.union_spec(accesses_for(es, k)),
            },
        ),
    decreases es.len(),
{
    if es.len() > 0 {
        lemma_accumulate_exact(s, es.drop_last(), k, b);
        let s1 = accumulate(s, es.drop_last());
        crate::bindings::lemma_last_index(s1, k);
        match site_access(es.last()) {
            Some((n, acc)) => {
                let i = last_index(s1, n);
                if i >= 0 {
                    let nb = PointerBinding {
                        name: s1[i].name,
                        pointer: s1[i].pointer,
                        accesses: s1[i].accesses.union_spec(acc),
                    };
                    crate::bindings::lemma_last_index(s1, n);
                    lemma_lookup_update(s1, n, nb, k);
                }
            },
            None => {},
        }
    }
}

/// Every binding that discovery makes starts with no access.
pub proof fn lemma_discovered_unaccessed(ds: Seq<Declaration>)
    ensures
        forall|i: int|
            0 <= i < discovered(ds).len() ==> (#[trigger] discovered(ds)[i]).accesses
                == no_permissions(),
    decreases ds.len(),
{
    if ds.len() > 0 {
        lemma_discovered_unaccessed(ds.drop_last());
        let a = discovered(ds.drop_last());
        let e = decl_entries(ds.last());
        assert forall|i: int| 0 <= i < discovered(ds).len() implies (
        #[trigger] discovered(ds)[i]).accesses == no_permissions() by {
            if i < a.len() {
                assert(discovered(ds)[i] == a[i]);
            } else {
                assert(discovered(ds)[i] == e[i - a.len()]);
            }
        }
    }
}

/// The accesses of sites that each make none, or each a write through an
/// advancing call, with at least one of the latter.
proof fn lemma_accesses_for_write_offset(es: Seq<Expr>, k: Seq<char>)
    requires
        forall|j: int|
            0 <= j < es.len() ==> #[trigger] touches(es[j], k) == no_permissions() || touches(
                es[j],
                k,
            ) == write_offset(),
    ensures
        accesses_for(es, k) == no_permissions() || accesses_for(es, k) == write_offset(),
        (exists|j: int| 0 <= j < es.len() && #[trigger] touches(es[j], k) == write_offset())
            ==> accesses_for(es, k) == write_offset(),
    decreases es.len(),
{
    if es.len() > 0 {
        let d = es.drop_last();
        assert forall|j: int| 0 <= j < d.len() implies #[trigger] touches(d[j], k)
            == no_permissions() || touches(d[j], k) == write_offset() by {
            assert(d[j] == es[j]);
        }
        lemma_accesses_for_write_offset(d, k);
        if exists|j: int| 0 <= j < es.len() && #[trigger] touches(es[j], k) == write_offset() {
            let j = choose|j: int| 0 <= j < es.len() && #[trigger] touches(es[j], k) == write_offset();
            if j < d.len() {
                assert(d[j] == es[j]);
            }
        }
    }
}

/// Sites that make no access through `k` add none together.
proof fn lemma_accesses_for_none(es: Seq<Expr>, k: Seq<char>)
    requires
        forall|j: int| 0 <= j < es.len() ==> #[trigger] touches(es[j], k) == no_permissions(),
    ensures
        accesses_for(es, k) == no_permissions(),
    decreases es.len(),
{
    if es.len() > 0 {
        let d = es.drop_last();
        assert forall|j: int| 0 <= j < d.len() implies #[trigger] touches(d[j], k)
            == no_permissions() by {
            assert(d[j] == es[j]);
        }
        lemma_accesses_for_none(d, k);
        assert(touches(es[es.len() - 1], k) == no_permissions());
    }
}

/// A pointer that is only read, never written, offset, freed or claimed
/// through, resolves to `&T`.
pub proof fn lemma_read_only_is_immutable_reference(ds: Seq<Declaration>, es: Seq<Expr>, k: Seq<char>)
    requires
        lookup(discovered(ds), k) is Some,
        forall|j: int| 0 <= j < es.len() ==> #[trigger] touches(es[j], k) == no_permissions(),
    ensures
        resolved(accumulate(discovered(ds), es), k) == Some(RustPointerType::ImmutableReference),
{
    let t = discovered(ds);
    let b = lookup(t, k)->Some_0;
    crate::bindings::lemma_last_index(t, k);
    lemma_discovered_unaccessed(ds);
    lemma_accumulate_exact(t, es, k, b);
    lemma_accesses_for_none(es, k);
    let acc = b.accesses.union_spec(accesses_for(es, k));
    assert(acc == no_permissions());
    assert(!acc@.contains(PointerAccess::Write));
    assert(!acc@.contains(PointerAccess::Unique));
    assert(!acc@.contains(PointerAccess::Free));
    assert(!acc@.contains(PointerAccess::OffsetAdd));
    assert(!acc@.contains(PointerAccess::OffsetSub));
}

/// A pointer written through an advancing call (`*q.offset(i) = v`), with no
/// other access, resolves to `Undefined`: it stays raw, and none of its
/// access sites is rewritten.
pub proof fn lemma_offset_write_is_undefined(ds: Seq<Declaration>, es: Seq<Expr>, k: Seq<char>)
    requires
        lookup(discovered(ds), k) is Some,
        forall|j: int|
            0 <= j < es.len() ==> #[trigger] touches(es[j], k) == no_permissions() || touches(
                es[j],
                k,
            ) == write_offset(),
        exists|j: int| 0 <= j < es.len() && #[trigger] touches(es[j], k) == write_offset(),
    ensures
        resolved(accumulate(discovered(ds), es), k) == Some(RustPointerType::Undefined),
        forall|e: Expr|
            (#[trigger] site_access(e) matches Some((n, _)) && n == k) ==> site_rewrite(
                accumulate(discovered(ds), es),
                e,
            ) == SiteRewrite::Unchanged,
{
    let t = discovered(ds);
    let b = lookup(t, k)->Some_0;
    crate::bindings::lemma_last_index(t, k);
    lemma_discovered_unaccessed(ds);
    lemma_accumulate_exact(t, es, k, b);
    lemma_accesses_for_write_offset(es, k);
    let acc = b.accesses.union_spec(accesses_for(es, k));
    assert(acc == write_offset());
    assert(acc@.contains(PointerAccess::Write));
    assert(!acc@.contains(PointerAccess::Unique));
    assert(!acc@.contains(PointerAccess::Free));
    assert(acc@.contains(PointerAccess::OffsetAdd));
}

/// Whether `s` holds `lit`.
fn is_named(s: &String, lit: &str) -> (r: bool)
    ensures
        r == (s@ == lit@),
{
    let t = lit.to_owned();
    s.eq(&t)
}

/// The offset access of a call of method `m`.
fn offset_access_of(m: &String) -> (r: PermissionSet)
    ensures
        r == offset_access(m@),
{
    let add = is_named(m, "offset") || is_named(m, "add") || is_named(m, "wrapping_offset")
        || is_named(m, "wrapping_add");
    let sub = is_named(m, "sub") || is_named(m, "wrapping_sub");
    PermissionSet { write: false, unique: false, free: false, offset_add: add, offset_sub: sub }
}

/// The identifier that an expression names, if it is an unqualified path.
fn receiver_ident_of(e: &Expr) -> (r: Option<&String>)
    ensures
        match r {
            Some(n) => receiver_ident(*e) == Some(n@),
            None => receiver_ident(*e) is None,
        },
{
    match e {
        Expr::Path { qualified, segments } => {
            if !*qualified && segments.len() > 0 {
                Some(&segments[segments.len() - 1])
            } else {
                None
            }
        },
        _ => None,
    }
}

/// The identifier and accesses of one access site.
fn site_access_of(e: &Expr) -> (r: Option<(&String, PermissionSet)>)
    ensures
        match r {
            Some((n, acc)) => site_access(*e) == Some((n@, acc)),
            None => site_access(*e) is None,
        },
{
    match e {
        Expr::Assign { left, right: _ } => match &**left {
            Expr::Unary { op: UnaryOp::Deref, operand } => match &**operand {
                Expr::MethodCall { receiver, method, args: _ } => match receiver_ident_of(&**receiver) {
                    Some(n) => {
                        let off = offset_access_of(method);
                        Some((n, PermissionSet { write: true, ..off }))
                    },
                    None => None,
                },
                _ => None,
            },
            _ => None,
        },
        Expr::MethodCall { receiver, method, args: _ } => match receiver_ident_of(&**receiver) {
            Some(n) => Some((n, offset_access_of(method))),
            None => None,
        },
        _ => None,
    }
}

impl RawPointerSanitizer {
    /// The discovered bindings, in the order discovered.
    pub closed spec fn table(&self) -> Seq<PointerBinding> {
        self.pointers@
    }

    /// The phase of the run.
    pub closed spec fn phase(&self) -> Phase {
        match self.types {
            TypeMappingStateMachine::Uninitialized => Phase::Uninitialized,
            TypeMappingStateMachine::Computing(_) => Phase::Computing,
            TypeMappingStateMachine::Initialized(_) => Phase::Initialized,
        }
    }

    /// The mapping is complete and matches the bindings wherever the phase
    /// says it is.
    pub closed spec fn wf(&self) -> bool {
        match self.types {
            TypeMappingStateMachine::Initialized(t) => {
                &&& t@.len() == self.pointers@.len()
                &&& forall|i: int|
                    0 <= i < t@.len() ==> t@[i].0@ == self.pointers@[i].name@ && t@[i].1
                        == lattice(self.pointers@[i].accesses@)
            },
            _ => true,
        }
    }

    /// A fresh engine: no bindings, phase `Uninitialized`.
    pub fn new() -> (r: RawPointerSanitizer)
        ensures
            r.table().len() == 0,
            r.phase() is Uninitialized,
            r.wf(),
    {
        RawPointerSanitizer { pointers: Vec::new(), types: TypeMappingStateMachine::Uninitialized }
    }

    /// Records the binding that `d` introduces, if it is an identifier of
    /// raw pointer type, with no access yet.
    fn record_if_pointer(&mut self, d: &Declaration)
        ensures
            final(self).pointers@ == old(self).pointers@ + decl_entries(*d),
            final(self).types == old(self).types,
    {
        match (&d.pat, &d.ty) {
            (Pattern::Ident(n), TypeShape::Ptr(p)) => {
                let b = PointerBinding {
                    name: n.clone(),
                    pointer: p.copy(),
                    accesses: PermissionSet {
                        write: false,
                        unique: false,
                        free: false,
                        offset_add: false,
                        offset_sub: false,
                    },
                };
                self.pointers.push(b);
                assert(final(self).pointers@ =~= old(self).pointers@ + decl_entries(*d));
            },
            _ => {
                assert(final(self).pointers@ =~= old(self).pointers@ + decl_entries(*d));
            },
        }
    }

    /// Records every binding that `ds` introduces, in order.
    fn discover_bindings(&mut self, ds: &Vec<Declaration>)
        ensures
            final(self).pointers@ == discover(old(self).pointers@, ds@),
            final(self).types == old(self).types,
    {
        let mut i: usize = 0;
        while i < ds.len()
            invariant
                i <= ds@.len(),
                self.pointers@ == old(self).pointers@ + discovered(ds@.take(i as int)),
                self.types == old(self).types,
            decreases ds@.len() - i,
        {
            self.record_if_pointer(&ds[i]);
            proof {
                let t = ds@.take(i + 1);
                assert(t.drop_last() =~= ds@.take(i as int));
                assert(self.pointers@ =~= old(self).pointers@ + discovered(t));
            }
            i = i + 1;
        }
        assert(ds@.take(ds@.len() as int) =~= ds@);
    }

    /// Discover: records the bindings of `ds` and moves from `Uninitialized`
    /// to `Computing` with an empty mapping. In any other phase it changes
    /// nothing and returns `NotUninitialized`.
    pub fn identify_raw_pointer_args(&mut self, ds: &Vec<Declaration>) -> (r: Result<(), PhaseError>)
        requires
            old(self).wf(),
        ensures
            final(self).wf(),
            old(self).phase() is Uninitialized ==> {
                &&& r is Ok
                &&& final(self).table() == discover(old(self).table(), ds@)
                &&& final(self).phase() is Computing
            },
            !(old(self).phase() is Uninitialized) ==> r == Err::<(), PhaseError>(
                PhaseError::NotUninitialized,
            ) && *final(self) == *old(self),
    {
        match self.types {
            TypeMappingStateMachine::Uninitialized => {
                self.discover_bindings(ds);
                self.types = TypeMappingStateMachine::Computing(Vec::new());
                Ok(())
            },
            _ => Err(PhaseError::NotUninitialized),
        }
    }

    /// Records the accesses of one site on the binding it reaches.
    fn record_access(&mut self, e: &Expr)
        ensures
            final(self).pointers@ == apply_site(old(self).pointers@, *e),
            final(self).types == old(self).types,
    {
        match site_access_of(e) {
            Some((n, acc)) => match find_last(&self.pointers, n) {
                Some(i) => {
                    let b = PointerBinding {
                        name: self.pointers[i].name.clone(),
                        pointer: self.pointers[i].pointer.copy(),
                        accesses: self.pointers[i].accesses.union(&acc),
                    };
                    self.pointers.set(i, b);
                },
                None => {},
            },
            None => {},
        }
    }

    /// Records the accesses of every site of `es`, in order.
    fn accumulate_sites(&mut self, es: &Vec<Expr>)
        ensures
            final(self).table() == accumulate(old(self).table(), es@),
            final(self).types == old(self).types,
    {
        let mut i: usize = 0;
        while i < es.len()
            invariant
                i <= es@.len(),
                self.pointers@ == accumulate(old(self).pointers@, es@.take(i as int)),
                self.types == old(self).types,
            decreases es@.len() - i,
        {
            self.record_access(&es[i]);
            proof {
                let t = es@.take(i + 1);
                assert(t.drop_last() =~= es@.take(i as int));
            }
            i = i + 1;
        }
        assert(es@.take(es@.len() as int) =~= es@);
    }

    /// Accumulate: records the accesses of `es` while in `Computing`. In any
    /// other phase it changes nothing and returns `NotComputing`.
    pub fn accumulate_accesses(&mut self, es: &Vec<Expr>) -> (r: Result<(), PhaseError>)
        requires
            old(self).wf(),
        ensures
            final(self).wf(),
            old(self).phase() is Computing ==> {
                &&& r is Ok
                &&& final(self).table() == accumulate(old(self).table(), es@)
                &&& final(self).phase() is Computing
            },
            !(old(self).phase() is Computing) ==> r == Err::<(), PhaseError>(
                PhaseError::NotComputing,
            ) && *final(self) == *old(self),
    {
        match self.types {
            TypeMappingStateMachine::Computing(_) => {
                self.accumulate_sites(es);
                Ok(())
            },
            _ => Err(PhaseError::NotComputing),
        }
    }

    /// Resolve: gives every binding the safe type of its permissions and moves
    /// from `Computing` to `Initialized`. In any other phase it changes
    /// nothing and returns `NotComputing`.
    pub fn compute_equivalent_safe_types(&mut self) -> (r: Result<(), PhaseError>)
        requires
            old(self).wf(),
        ensures
            final(self).wf(),
            old(self).phase() is Computing ==> {
                &&& r is Ok
                &&& final(self).table() == old(self).table()
                &&& final(self).phase() is Initialized
            },
            !(old(self).phase() is Computing) ==> r == Err::<(), PhaseError>(
                PhaseError::NotComputing,
            ) && *final(self) == *old(self),
    {
        match self.types {
            TypeMappingStateMachine::Computing(_) => {},
            _ => {
                return Err(PhaseError::NotComputing);
            },
        }
        let mut t: Vec<(String, RustPointerType)> = Vec::new();
        let mut i: usize = 0;
        while i < self.pointers.len()
            invariant
                i <= self.pointers@.len(),
                t@.len() == i,
                forall|j: int|
                    0 <= j < i ==> t@[j].0@ == self.pointers@[j].name@ && t@[j].1 == lattice(
                        self.pointers@[j].accesses@,
                    ),
            decreases self.pointers@.len() - i,
        {
            let ty = self.pointers[i].accesses.safe_type();
            t.push((self.pointers[i].name.clone(), ty));
            i = i + 1;
        }
        self.types = TypeMappingStateMachine::Initialized(t);
        Ok(())
    }

    /// The safe type that `name` resolves to, once `Initialized`; `None` for
    /// a name that is no discovered binding.
    pub fn safe_type_of(&self, name: &String) -> (r: Result<Option<RustPointerType>, PhaseError>)
        requires
            self.wf(),
        ensures
            self.phase() is Initialized ==> r == Ok::<Option<RustPointerType>, PhaseError>(
                resolved(self.table(), name@),
            ),
            !(self.phase() is Initialized) ==> r == Err::<Option<RustPointerType>, PhaseError>(
                PhaseError::NotInitialized,
            ),
    {
        match &self.types {
            TypeMappingStateMachine::Initialized(t) => match find_last(&self.pointers, name) {
                Some(i) => Ok(Some(t[i].1)),
                None => Ok(None),
            },
            _ => Err(PhaseError::NotInitialized),
        }
    }

    /// The safe type that the declaration of `name` is rewritten to, once
    /// `Initialized`: `None` where the name is no binding or resolves to
    /// `Undefined`, which stays a raw pointer.
    pub fn rewrite_target(&self, name: &String) -> (r: Result<Option<RustPointerType>, PhaseError>)
        requires
            self.wf(),
        ensures
            self.phase() is Initialized ==> r == Ok::<Option<RustPointerType>, PhaseError>(
                match resolved(self.table(), name@) {
                    Some(RustPointerType::Undefined) => None,
                    o => o,
                },
            ),
            !(self.phase() is Initialized) ==> r == Err::<Option<RustPointerType>, PhaseError>(
                PhaseError::NotInitialized,
            ),
    {
        match self.safe_type_of(name) {
            Ok(Some(RustPointerType::Undefined)) => Ok(None),
            o => o,
        }
    }

    /// One whole analysis run: Discover over `ds`, Accumulate over `es`,
    /// then Resolve. Every binding of `ds` ends with its safe type.
    pub fn run(ds: &Vec<Declaration>, es: &Vec<Expr>) -> (r: RawPointerSanitizer)
        ensures
            r.wf(),
            r.phase() is Initialized,
            r.table() == accumulate(discovered(ds@), es@),
    {
        let mut a = RawPointerSanitizer::new();
        let _ = a.identify_raw_pointer_args(ds);
        assert(a.pointers@ =~= discovered(ds@));
        let _ = a.accumulate_accesses(es);
        let _ = a.compute_equivalent_safe_types();
        a
    }

    /// Rewrite: how the access site `e` changes, once `Initialized`.
    pub fn rewrite_site(&self, e: &Expr) -> (r: Result<SiteRewrite, PhaseError>)
        requires
            self.wf(),
        ensures
            self.phase() is Initialized ==> r == Ok::<SiteRewrite, PhaseError>(
                site_rewrite(self.table(), *e),
            ),
            !(self.phase() is Initialized) ==> r == Err::<SiteRewrite, PhaseError>(
                PhaseError::NotInitialized,
            ),
    {
        match self.types {
            TypeMappingStateMachine::Initialized(_) => {},
            _ => {
                return Err(PhaseError::NotInitialized);
            },
        }
        match e {
            Expr::Assign { left, right: _ } => match &**left {
                Expr::Unary { op: UnaryOp::Deref, operand } => match &**operand {
                    Expr::MethodCall { receiver, method, args } => match receiver_ident_of(
                        &**receiver,
                    ) {
                        Some(n) => {
                            let offset_call = offset_access_of(method).offset_add && args.len()
                                == 1;
                            match self.safe_type_of(n) {
                                Ok(Some(t)) => {
                                    if t == RustPointerType::MutableSlice && offset_call {
                                        Ok(SiteRewrite::IndexWrite)
                                    } else if t == RustPointerType::CellReference {
                                        Ok(SiteRewrite::CellSet)
                                    } else if t == RustPointerType::MutableReference || t
                                        == RustPointerType::UniquePointer {
                                        Ok(SiteRewrite::DerefWrite)
                                    } else {
                                        Ok(SiteRewrite::Unchanged)
                                    }
                                },
                                _ => Ok(SiteRewrite::Unchanged),
                            }
                        },
                        None => Ok(SiteRewrite::Unchanged),
                    },
                    _ => Ok(SiteRewrite::Unchanged),
                },
                _ => Ok(SiteRewrite::Unchanged),
            },
            Expr::MethodCall { receiver, method, args } => match receiver_ident_of(&**receiver) {
                Some(n) => {
                    if offset_access_of(method).offset_add && args.len() == 1 {
                        match self.safe_type_of(n) {
                            Ok(Some(t)) => {
                                if t == RustPointerType::ImmutableSlice || t
                                    == RustPointerType::MutableSlice || t
                                    == RustPointerType::UniqueSlicePointer {
                                    Ok(
                                        SiteRewrite::SliceFrom {
                                            mutable: t == RustPointerType::MutableSlice,
                                        },
                                    )
                                } else {
                                    Ok(SiteRewrite::Unchanged)
                                }
                            },
                            _ => Ok(SiteRewrite::Unchanged),
                        }
                    } else {
                        Ok(SiteRewrite::Unchanged)
                    }
                },
                None => Ok(SiteRewrite::Unchanged),
            },
            _ => Ok(SiteRewrite::Unchanged),
        }
    }

    /// The discovered bindings, in the order discovered; a later one hides
    /// an earlier one of the same name.
    pub fn bindings(&self) -> (r: &Vec<PointerBinding>)
        ensures
            r@ == self.table(),
    {
        &self.pointers
    }
}

} // verus!
