//! Liveness over the type arena and rewriting of type handles after the
//! arenas have been compacted.
use vstd::prelude::*;
use crate::ir::{ArraySize, ExprHandle, StructMember, Type, TypeHandle, TypeInner};

verus! {

/// The type handles that a type refers to directly.
pub open spec fn type_refs(inner: TypeInner) -> Set<nat> {
    match inner {
        TypeInner::Pointer { base, .. } => set![base.index as nat],
        TypeInner::Array { base, .. } => set![base.index as nat],
        TypeInner::BindingArray { base, .. } => set![base.index as nat],
        TypeInner::Struct { members, .. } => Set::new(
            |j: nat| exists|m: int| 0 <= m < members@.len() && members@[m].ty.index == j,
        ),
        _ => Set::empty(),
    }
}

/// The expression that defines the size of an array whose size is still
/// pending.
pub open spec fn pending_size_expr(inner: TypeInner) -> Option<nat> {
    match inner {
        TypeInner::Array { size: ArraySize::Pending(e), .. } => Some(e.index as nat),
        TypeInner::BindingArray { size: ArraySize::Pending(e), .. } => Some(e.index as nat),
        _ => None,
    }
}

/// Every type refers only to types of the arena and to expressions below
/// `n_exprs`.
pub open spec fn refs_in_bounds(types: Seq<Type>, n_exprs: nat) -> bool {
    forall|i: int|
        #![trigger types[i]]
        0 <= i < types.len() ==> {
            &&& forall|j: nat| #[trigger] type_refs(types[i].inner).contains(j) ==> j < types.len()
            &&& (pending_size_expr(types[i].inner) matches Some(e) ==> e < n_exprs)
        }
}

/// Every type refers only to types of the arena.
pub open spec fn types_closed(types: Seq<Type>) -> bool {
    forall|i: int, j: nat|
        0 <= i < types.len() && #[trigger] type_refs(types[i].inner).contains(j) ==> j
            < types.len()
}

/// Every type refers only to types inserted before it.
pub open spec fn forward_only(types: Seq<Type>) -> bool {
    forall|i: int, j: nat|
        0 <= i < types.len() && #[trigger] type_refs(types[i].inner).contains(j) ==> j < i
}

/// The live types once every type at index `i` or above has been visited,
/// from the last one down.
pub open spec fn live_from(types: Seq<Type>, seed: Set<nat>, i: nat) -> Set<nat>
    decreases types.len() - i,
{
    if i >= types.len() {
        seed
    } else {
        let later = live_from(types, seed, i + 1);
        if later.contains(i) {
            later.union(type_refs(types[i as int].inner))
        } else {
            later
        }
    }
}

/// The size expressions found live while visiting every type at index `i`
/// or above.
pub open spec fn exprs_from(types: Seq<Type>, seed: Set<nat>, i: nat) -> Set<nat>
    decreases types.len() - i,
{
    if i >= types.len() {
        Set::empty()
    } else {
        let rest = exprs_from(types, seed, i + 1);
        if live_from(types, seed, i + 1).contains(i) && pending_size_expr(
            types[i as int].inner,
        ) is Some {
            rest.insert(pending_size_expr(types[i as int].inner)->Some_0)
        } else {
            rest
        }
    }
}

/// Type `a` of the arena refers to type `b`.
pub open spec fn edge(types: Seq<Type>, a: nat, b: nat) -> bool {
    a < types.len() && type_refs(types[a as int].inner).contains(b)
}

/// A chain of types, each referring to the next.
pub open spec fn is_path(types: Seq<Type>, p: Seq<nat>) -> bool {
    &&& p.len() > 0
    &&& forall|k: int| 0 <= k < p.len() - 1 ==> #[trigger] edge(types, p[k], p[k + 1])
}

/// Type `t` can be reached from a type of `seed` by following references.
pub open spec fn reachable(types: Seq<Type>, seed: Set<nat>, t: nat) -> bool {
    exists|p: Seq<nat>| #[trigger] is_path(types, p) && seed.contains(p[0]) && p.last() == t
}

proof fn lemma_live_grows(types: Seq<Type>, seed: Set<nat>, i: nat, j: nat)
    requires
        i <= j,
    ensures
        live_from(types, seed, j).subset_of(live_from(types, seed, i)),
        seed.subset_of(live_from(types, seed, i)),
    decreases types.len() - i,
{
    if i < types.len() {
        if i < j {
            lemma_live_grows(types, seed, i + 1, j);
        } else {
            lemma_live_grows(types, seed, i + 1, i + 1);
        }
    }
}

/// Under forward references, whether type `x` is live is settled once the
/// types above it have been visited.
proof fn lemma_live_settled(types: Seq<Type>, seed: Set<nat>, i: nat, x: nat)
    requires
        forward_only(types),
        i <= x,
        x < types.len(),
    ensures
        live_from(types, seed, i).contains(x) == live_from(types, seed, x + 1).contains(x),
    decreases x - i,
{
    if i < x {
        lemma_live_settled(types, seed, i + 1, x);
    }
}

proof fn lemma_path_live(types: Seq<Type>, seed: Set<nat>, p: Seq<nat>, k: int)
    requires
        forward_only(types),
        is_path(types, p),
        seed.contains(p[0]),
        0 <= k < p.len(),
    ensures
        live_from(types, seed, 0).contains(p[k]),
    decreases k,
{
    lemma_live_grows(types, seed, 0, 0);
    if k > 0 {
        lemma_path_live(types, seed, p, k - 1);
        let x = p[k - 1];
        assert(edge(types, p[k - 1], p[(k - 1) + 1]));
        lemma_live_settled(types, seed, 0, x);
        lemma_live_grows(types, seed, 0, x);
    }
}

proof fn lemma_live_reachable(types: Seq<Type>, seed: Set<nat>, i: nat, x: nat)
    requires
        live_from(types, seed, i).contains(x),
    ensures
        reachable(types, seed, x),
    decreases types.len() - i,
{
    if i >= types.len() {
        let p = seq![x];
        assert(is_path(types, p));
    } else if live_from(types, seed, i + 1).contains(x) {
        lemma_live_reachable(types, seed, i + 1, x);
    } else {
        assert(live_from(types, seed, i + 1).contains(i) && type_refs(types[i as int].inner).contains(x));
        lemma_live_reachable(types, seed, i + 1, i);
        let p = choose|p: Seq<nat>| #[trigger] is_path(types, p) && seed.contains(p[0]) && p.last() == i;
        let q = p.push(x);
        assert forall|k: int| 0 <= k < q.len() - 1 implies #[trigger] edge(types, q[k], q[k + 1]) by {
            if k < p.len() - 1 {
                assert(q[k] == p[k] && q[k + 1] == p[k + 1]);
                assert(edge(types, p[k], p[k + 1]));
            } else {
                assert(q[k] == i && q[k + 1] == x);
            }
        }
        assert(is_path(types, q));
        assert(q[0] == p[0]);
    }
}

/// In an arena whose types refer only to earlier types, tracing marks
/// exactly the types reachable from the seed: every reachable type is
/// marked, and nothing else is.
pub proof fn lemma_trace_exact(types: Seq<Type>, seed: Set<nat>, t: nat)
    requires
        forward_only(types),
    ensures
        live_from(types, seed, 0).contains(t) <==> reachable(types, seed, t),
{
    if reachable(types, seed, t) {
        let p = choose|p: Seq<nat>| #[trigger] is_path(types, p) && seed.contains(p[0]) && p.last() == t;
        lemma_path_live(types, seed, p, p.len() - 1);
    }
    if live_from(types, seed, 0).contains(t) {
        lemma_live_reachable(types, seed, 0, t);
    }
}

proof fn lemma_exprs_from(types: Seq<Type>, seed: Set<nat>, i: nat, e: nat)
    requires
        forward_only(types),
    ensures
        exprs_from(types, seed, i).contains(e) <==> exists|t: nat|
            i <= t < types.len() && live_from(types, seed, 0).contains(t) && #[trigger] pending_size_expr(
                types[t as int].inner,
            ) == Some(e),
    decreases types.len() - i,
{
    if i < types.len() {
        lemma_exprs_from(types, seed, i + 1, e);
        lemma_live_settled(types, seed, 0, i);
        if exists|t: nat|
            i <= t < types.len() && live_from(types, seed, 0).contains(t) && #[trigger] pending_size_expr(
                types[t as int].inner,
            ) == Some(e) {
            let t = choose|t: nat|
                i <= t < types.len() && live_from(types, seed, 0).contains(t) && #[trigger] pending_size_expr(
                    types[t as int].inner,
                ) == Some(e);
            if t > i {
                assert(i + 1 <= t);
            }
        }
    }
}

/// In an arena whose types refer only to earlier types, tracing marks
/// exactly the size expressions of the live arrays whose size is pending.
pub proof fn lemma_traced_exprs(types: Seq<Type>, seed: Set<nat>, e: nat)
    requires
        forward_only(types),
    ensures
        exprs_from(types, seed, 0).contains(e) <==> exists|t: nat|
            t < types.len() && live_from(types, seed, 0).contains(t) && #[trigger] pending_size_expr(
                types[t as int].inner,
            ) == Some(e),
{
    lemma_exprs_from(types, seed, 0, e);
}

proof fn lemma_retrace_from(types: Seq<Type>, seed: Set<nat>, i: nat)
    requires
        forward_only(types),
    ensures
        live_from(types, live_from(types, seed, 0), i) == live_from(types, seed, 0),
        exprs_from(types, live_from(types, seed, 0), i) == exprs_from(types, seed, i),
    decreases types.len() - i,
{
    let live = live_from(types, seed, 0);
    if i < types.len() {
        lemma_retrace_from(types, seed, i + 1);
        lemma_live_settled(types, seed, 0, i);
        lemma_live_grows(types, seed, 0, i);
        if live.contains(i) {
            assert(live.union(type_refs(types[i as int].inner)) =~= live);
        }
    }
}

/// Tracing a second time from the live set that a first trace produced
/// changes nothing: the same types are live and the same size expressions
/// are marked.
pub proof fn lemma_trace_idempotent(types: Seq<Type>, seed: Set<nat>)
    requires
        forward_only(types),
    ensures
        live_from(types, live_from(types, seed, 0), 0) == live_from(types, seed, 0),
        exprs_from(types, live_from(types, seed, 0), 0) == exprs_from(types, seed, 0),
{
    lemma_retrace_from(types, seed, 0);
}

/// A set of handles into one arena, sized for that arena.
pub struct HandleSet {
    members: Vec<bool>,
}

impl View for HandleSet {
    type V = Set<nat>;

    closed spec fn view(&self) -> Set<nat> {
        Set::new(|i: nat| i < self.members@.len() && self.members@[i as int])
    }
}

impl HandleSet {
    /// The size of the arena that the set is for.
    pub closed spec fn len_spec(&self) -> nat {
        self.members@.len()
    }

    /// An empty set for an arena of `len` items.
    pub fn for_arena(len: usize) -> (r: HandleSet)
        ensures
            r@ == Set::<nat>::empty(),
            r.len_spec() == len,
    {
        let mut members: Vec<bool> = Vec::new();
        let mut i: usize = 0;
        while i < len
            invariant
                i <= len,
                members@.len() == i,
                forall|k: int| 0 <= k < i ==> !members@[k],
            decreases len - i,
        {
            members.push(false);
            i += 1;
        }
        let r = HandleSet { members };
        assert(r@ =~= Set::<nat>::empty());
        r
    }

    pub fn len(&self) -> (r: usize)
        ensures
            r == self.len_spec(),
    {
        self.members.len()
    }

    pub fn contains(&self, index: usize) -> (r: bool)
        ensures
            r == self@.contains(index as nat),
    {
        index < self.members.len() && self.members[index]
    }

    /// Adds `index`, returning whether it was absent.
    pub fn insert(&mut self, index: usize) -> (r: bool)
        requires
            index < old(self).len_spec(),
        ensures
            r == !old(self)@.contains(index as nat),
            final(self)@ == old(self)@.insert(index as nat),
            final(self).len_spec() == old(self).len_spec(),
    {
        let was = self.members[index];
        self.members.set(index, true);
        assert(self@ =~= old(self)@.insert(index as nat));
        !was
    }
}

/// Marks the types reachable from a set of live types.
pub struct TypeTracer<'a> {
    pub types: &'a Vec<Type>,
    pub types_used: HandleSet,
    pub expressions_used: HandleSet,
}

impl<'a> TypeTracer<'a> {
    /// Marks live, in place, every type reachable from those already in
    /// `types_used`, visiting the arena once from back to front, and marks
    /// the size expressions of the live pending-size arrays in
    /// `expressions_used`.
    pub fn trace_types(&mut self)
        requires
            old(self).types_used.len_spec() == old(self).types@.len(),
            refs_in_bounds(old(self).types@, old(self).expressions_used.len_spec()),
        ensures
            final(self).types == old(self).types,
            final(self).types_used.len_spec() == old(self).types_used.len_spec(),
            final(self).expressions_used.len_spec() == old(self).expressions_used.len_spec(),
            final(self).types_used@ == live_from(old(self).types@, old(self).types_used@, 0),
            final(self).expressions_used@ == old(self).expressions_used@.union(
                exprs_from(old(self).types@, old(self).types_used@, 0),
            ),
    {
        let types = self.types;
        let ghost seed = self.types_used@;
        let ghost exprs0 = self.expressions_used@;
        let mut k: usize = types.len();
        assert(self.expressions_used@.union(exprs_from(types@, seed, k as nat)) =~= exprs0);
        while k > 0
            invariant
                k <= types@.len(),
                self.types == types,
                self.types_used.len_spec() == types@.len(),
                self.expressions_used.len_spec() == old(self).expressions_used.len_spec(),
                refs_in_bounds(types@, self.expressions_used.len_spec()),
                self.types_used@ == live_from(types@, seed, k as nat),
                self.expressions_used@ == exprs0.union(exprs_from(types@, seed, k as nat)),
            decreases k,
        {
            k -= 1;
            if !self.types_used.contains(k) {
                assert(exprs0.union(exprs_from(types@, seed, k as nat)) =~= exprs0.union(
                    exprs_from(types@, seed, (k + 1) as nat),
                ));
                continue;
            }
            let ty = &types[k];
            self.trace_type(ty);
            assert(self.types_used@ =~= live_from(types@, seed, k as nat));
            assert(self.expressions_used@ =~= exprs0.union(exprs_from(types@, seed, k as nat)));
        }
    }

    /// Marks live the types and the size expression that `ty` refers to
    /// directly.
    pub fn trace_type(&mut self, ty: &Type)
        requires
            forall|j: nat| #[trigger]
                type_refs(ty.inner).contains(j) ==> j < old(self).types_used.len_spec(),
            pending_size_expr(ty.inner) matches Some(e) ==> e
                < old(self).expressions_used.len_spec(),
        ensures
            final(self).types == old(self).types,
            final(self).types_used.len_spec() == old(self).types_used.len_spec(),
            final(self).expressions_used.len_spec() == old(self).expressions_used.len_spec(),
            final(self).types_used@ == old(self).types_used@.union(type_refs(ty.inner)),
            final(self).expressions_used@ == (match pending_size_expr(ty.inner) {
                Some(e) => old(self).expressions_used@.insert(e),
                None => old(self).expressions_used@,
            }),
    {
        match &ty.inner {
            TypeInner::Scalar { .. }
            | TypeInner::Vector { .. }
            | TypeInner::Matrix { .. }
            | TypeInner::Atomic { .. }
            | TypeInner::ValuePointer { .. }
            | TypeInner::Image { .. }
            | TypeInner::Sampler { .. }
            | TypeInner::AccelerationStructure
            | TypeInner::RayQuery => {
                assert(self.types_used@.union(type_refs(ty.inner)) =~= self.types_used@);
            },
            TypeInner::Array { base, size: ArraySize::Pending(expr), .. }
            | TypeInner::BindingArray { base, size: ArraySize::Pending(expr) } => {
                assert(type_refs(ty.inner).contains(base.index as nat));
                self.expressions_used.insert(expr.index);
                self.types_used.insert(base.index);
                assert(self.types_used@ =~= old(self).types_used@.union(type_refs(ty.inner)));
            },
            TypeInner::Pointer { base, .. }
            | TypeInner::Array { base, .. }
            | TypeInner::BindingArray { base, .. } => {
                assert(type_refs(ty.inner).contains(base.index as nat));
                self.types_used.insert(base.index);
                assert(self.types_used@ =~= old(self).types_used@.union(type_refs(ty.inner)));
            },
            TypeInner::Struct { members, .. } => {
                let mut m: usize = 0;
                while m < members.len()
                    invariant
                        m <= members@.len(),
                        ty.inner matches TypeInner::Struct { members: ms, .. } && ms == members,
                        self.types == old(self).types,
                        self.types_used.len_spec() == old(self).types_used.len_spec(),
                        self.expressions_used == old(self).expressions_used,
                        forall|j: nat| #[trigger]
                            type_refs(ty.inner).contains(j) ==> j < old(self).types_used.len_spec(),
                        self.types_used@ == old(self).types_used@.union(
                            Set::new(
                                |j: nat|
                                    exists|i: int| 0 <= i < m && members@[i].ty.index == j,
                            ),
                        ),
                    decreases members@.len() - m,
                {
                    assert(type_refs(ty.inner).contains(members@[m as int].ty.index as nat));
                    self.types_used.insert(members[m].ty.index);
                    m += 1;
                    assert(self.types_used@ =~= old(self).types_used@.union(
                        Set::new(
                            |j: nat| exists|i: int| 0 <= i < m && members@[i].ty.index == j,
                        ),
                    ));
                }
                assert(self.types_used@ =~= old(self).types_used@.union(type_refs(ty.inner)));
            },
        }
    }
}

/// Old-to-new handle numbering for one arena, built once its live items
/// are known: `new_index[i]` is the new index of the item at old index
/// `i`, if that item is kept.
pub struct HandleMap {
    pub new_index: Vec<Option<usize>>,
}

impl HandleMap {
    pub open spec fn maps(&self, i: nat) -> bool {
        i < self.new_index@.len() && self.new_index@[i as int] is Some
    }

    pub open spec fn image(&self, i: nat) -> nat {
        self.new_index@[i as int]->Some_0 as nat
    }

    /// Every kept item lands below `n` in the compacted arena.
    pub open spec fn into_arena(&self, n: nat) -> bool {
        forall|i: nat| #[trigger] self.maps(i) ==> self.image(i) < n
    }

    /// Rewrites `index` to its new numbering.
    pub fn adjust(&self, index: &mut usize)
        requires
            self.maps(*old(index) as nat),
        ensures
            *final(index) as nat == self.image(*old(index) as nat),
    {
        match self.new_index[*index] {
            Some(new) => {
                *index = new;
            },
            None => {},
        }
    }
}

/// The handle maps of the arenas that a type may refer to.
pub struct ModuleMap {
    pub types: HandleMap,
    pub global_expressions: HandleMap,
}

impl ModuleMap {
    /// Every handle in `inner` has an image.
    pub open spec fn covers(&self, inner: TypeInner) -> bool {
        &&& forall|j: nat| #[trigger] type_refs(inner).contains(j) ==> self.types.maps(j)
        &&& (pending_size_expr(inner) matches Some(e) ==> self.global_expressions.maps(e))
    }

    pub open spec fn type_image(&self, h: TypeHandle) -> TypeHandle {
        TypeHandle { index: self.types.image(h.index as nat) as usize }
    }

    pub open spec fn member_image(&self, m: StructMember) -> StructMember {
        StructMember { ty: self.type_image(m.ty), binding: m.binding, offset: m.offset }
    }

    pub open spec fn size_image(&self, size: ArraySize) -> ArraySize {
        match size {
            ArraySize::Pending(e) => ArraySize::Pending(
                ExprHandle { index: self.global_expressions.image(e.index as nat) as usize },
            ),
            _ => size,
        }
    }

    /// `new` is `old` with every handle replaced by its image.
    pub open spec fn adjusted(&self, old: TypeInner, new: TypeInner) -> bool {
        match old {
            TypeInner::Pointer { base, class } => new == TypeInner::Pointer {
                base: self.type_image(base),
                class,
            },
            TypeInner::Array { base, size, stride } => new == TypeInner::Array {
                base: self.type_image(base),
                size: self.size_image(size),
                stride,
            },
            TypeInner::BindingArray { base, size } => new == TypeInner::BindingArray {
                base: self.type_image(base),
                size: self.size_image(size),
            },
            TypeInner::Struct { block, members, span } => match new {
                TypeInner::Struct { block: new_block, members: new_members, span: new_span } => {
                    &&& new_block == block
                    &&& new_span == span
                    &&& new_members@.len() == members@.len()
                    &&& forall|i: int|
                        0 <= i < members@.len() ==> #[trigger] new_members@[i] == self.member_image(
                            members@[i],
                        )
                },
                _ => false,
            },
            _ => new == old,
        }
    }

    fn adjust_size(&self, size: &mut ArraySize)
        requires
            *old(size) matches ArraySize::Pending(e) ==> self.global_expressions.maps(
                e.index as nat,
            ),
        ensures
            *final(size) == self.size_image(*old(size)),
    {
        match size {
            ArraySize::Pending(e) => self.global_expressions.adjust(&mut e.index),
            _ => {},
        }
    }

    /// Rewrites, in place, every type and size-expression handle in `ty`
    /// to the compacted numbering.
    pub fn adjust_type(&self, ty: &mut Type)
        requires
            self.covers(old(ty).inner),
        ensures
            self.adjusted(old(ty).inner, final(ty).inner),
    {
        match &mut ty.inner {
            TypeInner::Scalar { .. }
            | TypeInner::Vector { .. }
            | TypeInner::Matrix { .. }
            | TypeInner::Atomic { .. }
            | TypeInner::ValuePointer { .. }
            | TypeInner::Image { .. }
            | TypeInner::Sampler { .. }
            | TypeInner::AccelerationStructure
            | TypeInner::RayQuery => {},
            TypeInner::Pointer { base, .. } => {
                assert(type_refs(old(ty).inner).contains(base.index as nat));
                self.types.adjust(&mut base.index);
            },
            TypeInner::Array { base, size, .. } => {
                assert(type_refs(old(ty).inner).contains(base.index as nat));
                self.types.adjust(&mut base.index);
                self.adjust_size(size);
            },
            TypeInner::Struct { members, .. } => {
                let ghost old_members = members@;
                let mut i: usize = 0;
                while i < members.len()
                    invariant
                        i <= members@.len(),
                        members@.len() == old_members.len(),
                        forall|j: nat| #[trigger]
                            type_refs(old(ty).inner).contains(j) ==> self.types.maps(j),
                        old(ty).inner matches TypeInner::Struct { members: ms, .. } && ms@
                            == old_members,
                        forall|k: int|
                            0 <= k < i ==> #[trigger] members@[k] == self.member_image(
                                old_members[k],
                            ),
                        forall|k: int| i <= k < members@.len() ==> #[trigger] members@[k] == old_members[k],
                    decreases old_members.len() - i,
                {
                    assert(type_refs(old(ty).inner).contains(old_members[i as int].ty.index as nat));
                    self.types.adjust(&mut members[i].ty.index);
                    i += 1;
                }
            },
            TypeInner::BindingArray { base, size } => {
                assert(type_refs(old(ty).inner).contains(base.index as nat));
                self.types.adjust(&mut base.index);
                self.adjust_size(size);
            },
        }
    }
}

/// When the maps cover every handle of a type and send each kept item into
/// the compacted arenas, every handle of the rewritten type is a valid
/// index of those arenas.
pub proof fn lemma_remap_total(
    m: ModuleMap,
    old: TypeInner,
    new: TypeInner,
    n_types: nat,
    n_exprs: nat,
)
    requires
        m.covers(old),
        m.types.into_arena(n_types),
        m.global_expressions.into_arena(n_exprs),
        m.adjusted(old, new),
    ensures
        forall|j: nat| #[trigger] type_refs(new).contains(j) ==> j < n_types,
        pending_size_expr(new) matches Some(e) ==> e < n_exprs,
{
    assert forall|j: nat| #[trigger] type_refs(new).contains(j) implies j < n_types by {
        match old {
            TypeInner::Pointer { base, .. } => {
                assert(type_refs(old).contains(base.index as nat));
                assert(m.types.maps(base.index as nat));
            },
            TypeInner::Array { base, .. } => {
                assert(type_refs(old).contains(base.index as nat));
                assert(m.types.maps(base.index as nat));
            },
            TypeInner::BindingArray { base, .. } => {
                assert(type_refs(old).contains(base.index as nat));
                assert(m.types.maps(base.index as nat));
            },
            TypeInner::Struct { members, .. } => {
                if let TypeInner::Struct { members: new_members, .. } = new {
                    let k = choose|k: int| 0 <= k < new_members@.len() && new_members@[k].ty.index == j;
                    assert(new_members@[k] == m.member_image(members@[k]));
                    assert(type_refs(old).contains(members@[k].ty.index as nat));
                    assert(m.types.maps(members@[k].ty.index as nat));
                }
            },
            _ => {},
        }
    }
    match old {
        TypeInner::Array { size: ArraySize::Pending(e), .. } => {
            assert(m.global_expressions.maps(e.index as nat));
        },
        TypeInner::BindingArray { size: ArraySize::Pending(e), .. } => {
            assert(m.global_expressions.maps(e.index as nat));
        },
        _ => {},
    }
}

} // verus!
