use vstd::prelude::*;

use crate::ctx::{Context, ContextModel};
use crate::location::Location;
use crate::prim::{PrimitiveKind, NUM_PRIMITIVES};
use crate::text::{append, append_decimal, append_signed, decimal, signed_decimal};

verus! {

/// A type of the intermediate representation: a handle into the context
/// that created it. Two handles are equal exactly when they name the same
/// type of that context.
#[derive(Clone, Copy, PartialEq, Eq, Structural, Debug)]
pub struct Type {
    pub(crate) id: usize,
}

/// The shape of a type as the context records it. Derived types refer to
/// types created before them.
#[derive(Clone, Copy, PartialEq, Eq, Structural, Debug)]
pub enum TypeKind {
    Primitive(PrimitiveKind),
    Pointer(Type),
    Const(Type),
    Volatile(Type),
    /// A SIMD vector of the element type with the given number of lanes.
    Vector(Type, usize),
    /// A fixed-size array of the element type.
    Array(Type, i32, Option<Location>),
    /// A struct or a union: an index into the context's composite types.
    Compound(usize),
    /// A pointer to a function with the given return type, parameter types
    /// (an index into the context's type lists) and variadic flag.
    FunctionPtr(Type, usize, bool, Option<Location>),
}

impl Type {
    /// Position of the object in its context, for code that walks the
    /// context's tables.
    pub fn id(&self) -> (r: usize)
        ensures
            r == self.index(),
    {
        self.id
    }

    /// Position of the type in its context.
    pub open(crate) spec fn index(self) -> nat {
        self.id as nat
    }
}

/// The type at position `i` of a context.
pub open(crate) spec fn type_at(i: nat) -> Type {
    Type { id: i as usize }
}

impl TypeKind {
    /// Kinds that a context holds at most once: asking for the pointer, the
    /// const or the volatile form of a type twice gives the same type.
    pub open spec fn is_interned(self) -> bool {
        ||| self is Pointer
        ||| self is Const
        ||| self is Volatile
    }
}

impl Type {
    /// Given a type T, the type of pointers to T. A context holds each
    /// pointer type once.
    pub fn make_pointer(self, ctx: &mut Context) -> (r: Type)
        requires
            old(ctx).wf(),
            old(ctx)@.valid_type(self),
        ensures
            final(ctx).wf(),
            (final(ctx)@, r) == old(ctx)@.interned(TypeKind::Pointer(self)),
    {
        ctx.intern_type(TypeKind::Pointer(self))
    }

    /// Given a type T, the type const T.
    pub fn make_const(self, ctx: &mut Context) -> (r: Type)
        requires
            old(ctx).wf(),
            old(ctx)@.valid_type(self),
        ensures
            final(ctx).wf(),
            (final(ctx)@, r) == old(ctx)@.interned(TypeKind::Const(self)),
    {
        ctx.intern_type(TypeKind::Const(self))
    }

    /// Given a type T, the type volatile T, with the meaning of C's
    /// `volatile`.
    pub fn make_volatile(self, ctx: &mut Context) -> (r: Type)
        requires
            old(ctx).wf(),
            old(ctx)@.valid_type(self),
        ensures
            final(ctx).wf(),
            (final(ctx)@, r) == old(ctx)@.interned(TypeKind::Volatile(self)),
    {
        ctx.intern_type(TypeKind::Volatile(self))
    }

    /// The primitive type with the given number in the engine's numbering,
    /// or `None` if no primitive type has that number.
    pub fn from_const(ctx: &Context, u: u32) -> (r: Option<Type>)
        requires
            ctx.wf(),
        ensures
            (u as int) < NUM_PRIMITIVES <==> r is Some,
            r matches Some(t) ==> exists|k: PrimitiveKind|
                k.spec_index() == u && t == ctx@.primitive_type(k),
    {
        match PrimitiveKind::from_index(u) {
            Some(k) => Some(ctx.get_type(k)),
            None => None,
        }
    }
}

impl ContextModel {
    pub open(crate) spec fn valid_types(self, ts: Seq<Type>) -> bool {
        forall|i: int| 0 <= i < ts.len() ==> self.valid_type(#[trigger] ts[i])
    }

    /// The model with one more type, which is not interned.
    pub open(crate) spec fn type_added(self, k: TypeKind) -> ContextModel {
        ContextModel { types: self.types.push(k), ..self }
    }

    /// The model with one more list of types.
    pub open(crate) spec fn type_list_added(self, l: Seq<Type>) -> ContextModel {
        ContextModel { type_lists: self.type_lists.push(l), ..self }
    }
}

impl ContextModel {
    /// The debug string of a type: its C spelling, with the engine's
    /// spelling of primitive types.
    pub open(crate) spec fn spelling(self, t: Type) -> Seq<char>
        decreases t.index(), 1nat, 0nat,
    {
        if t.id >= self.types.len() {
            Seq::empty()
        } else {
            match self.types[t.id as int] {
                TypeKind::Primitive(k) => k.spec_name(),
                TypeKind::Pointer(x) => if x.id < t.id {
                    self.spelling(x) + " *"@
                } else {
                    Seq::empty()
                },
                TypeKind::Const(x) => if x.id < t.id {
                    "const "@ + self.spelling(x)
                } else {
                    Seq::empty()
                },
                TypeKind::Volatile(x) => if x.id < t.id {
                    "volatile "@ + self.spelling(x)
                } else {
                    Seq::empty()
                },
                TypeKind::Vector(x, n) => if x.id < t.id {
                    self.spelling(x) + "  __attribute__((vector_size(sizeof ("@ + self.spelling(x)
                        + ") * "@ + decimal(n as nat) + ")))"@
                } else {
                    Seq::empty()
                },
                TypeKind::Array(x, n, _) => if x.id < t.id {
                    self.spelling(x) + "["@ + signed_decimal(n as int) + "]"@
                } else {
                    Seq::empty()
                },
                TypeKind::Compound(c) => if c < self.structs.len() && self.structs[c as int].name
                    < self.strings.len() {
                    (if self.structs[c as int].is_union {
                        "union "@
                    } else {
                        "struct "@
                    }) + self.strings[self.structs[c as int].name as int]
                } else {
                    Seq::empty()
                },
                TypeKind::FunctionPtr(r, l, variadic, _) => if r.id < t.id && l
                    < self.type_lists.len() {
                    self.spelling(r) + " (*) ("@ + self.names_joined(
                        self.type_lists[l as int],
                        t.index(),
                    ) + (if variadic && self.type_lists[l as int].len() > 0 {
                        ", ..."@
                    } else if variadic {
                        "..."@
                    } else {
                        Seq::empty()
                    }) + ")"@
                } else {
                    Seq::empty()
                },
            }
        }
    }

    /// The debug strings of the types, separated by commas; types at or
    /// after position `bound` are left out.
    pub open(crate) spec fn names_joined(self, ts: Seq<Type>, bound: nat) -> Seq<char>
        decreases bound, 0nat, ts.len(),
    {
        if ts.len() == 0 {
            Seq::empty()
        } else {
            let last = if ts.last().index() < bound {
                self.spelling(ts.last())
            } else {
                Seq::empty()
            };
            if ts.len() == 1 {
                last
            } else {
                self.names_joined(ts.drop_last(), bound) + ", "@ + last
            }
        }
    }
}

/// The debug string of a primitive type is the engine's name for it.
pub proof fn lemma_primitive_debug_string(m: ContextModel, k: PrimitiveKind)
    requires
        m.wf(),
    ensures
        m.spelling(m.primitive_type(k)) == k.spec_name(),
{
    let i = k.spec_index() as int;
    assert(m.type_kind_ok(m.types[i], i));
    assert(m.types[i] is Primitive);
    assert(m.types[i]->Primitive_0 == k);
}

impl Type {
    /// Appends the debug string of `t` to `out`.
    fn write_name(ctx: &Context, t: Type, out: &mut String)
        requires
            ctx.wf(),
        ensures
            final(out)@ == old(out)@ + ctx@.spelling(t),
        decreases t.id,
    {
        let ghost m = ctx@;
        let ghost start = out@;
        if t.id >= ctx.types.len() {
            assert(out@ =~= start + m.spelling(t));
            return ;
        }
        match ctx.types[t.id] {
            TypeKind::Primitive(k) => {
                let n = k.name();
                append(out, n.as_str());
            },
            TypeKind::Pointer(x) => {
                if x.id < t.id {
                    Type::write_name(ctx, x, out);
                    append(out, " *");
                }
            },
            TypeKind::Const(x) => {
                if x.id < t.id {
                    append(out, "const ");
                    Type::write_name(ctx, x, out);
                }
            },
            TypeKind::Volatile(x) => {
                if x.id < t.id {
                    append(out, "volatile ");
                    Type::write_name(ctx, x, out);
                }
            },
            TypeKind::Vector(x, n) => {
                if x.id < t.id {
                    Type::write_name(ctx, x, out);
                    append(out, "  __attribute__((vector_size(sizeof (");
                    Type::write_name(ctx, x, out);
                    append(out, ") * ");
                    append_decimal(out, n as u64);
                    append(out, ")))");
                }
            },
            TypeKind::Array(x, n, _) => {
                if x.id < t.id {
                    Type::write_name(ctx, x, out);
                    append(out, "[");
                    append_signed(out, n);
                    append(out, "]");
                }
            },
            TypeKind::Compound(c) => {
                if c < ctx.structs.len() && ctx.structs[c].name < ctx.strings.len() {
                    if ctx.structs[c].is_union {
                        append(out, "union ");
                    } else {
                        append(out, "struct ");
                    }
                    append(out, ctx.strings[ctx.structs[c].name].as_str());
                }
            },
            TypeKind::FunctionPtr(r, l, variadic, _) => {
                if r.id < t.id && l < ctx.type_lists.len() {
                    Type::write_name(ctx, r, out);
                    append(out, " (*) (");
                    let ghost before = out@;
                    let ts = &ctx.type_lists[l];
                    let mut i: usize = 0;
                    while i < ts.len()
                        invariant
                            ctx.wf(),
                            ctx@ == m,
                            *ts == ctx.type_lists@[l as int],
                            ts@ == m.type_lists[l as int],
                            i <= ts@.len(),
                            out@ == before + m.names_joined(ts@.subrange(0, i as int), t.index()),
                        decreases ts@.len() - i,
                    {
                        let ghost prefix = out@;
                        if i > 0 {
                            append(out, ", ");
                        }
                        let p = ts[i];
                        if p.id < t.id {
                            Type::write_name(ctx, p, out);
                        }
                        proof {
                            let sub = ts@.subrange(0, i as int + 1);
                            assert(sub.drop_last() =~= ts@.subrange(0, i as int));
                            assert(sub.last() == p);
                            assert(out@ =~= before + m.names_joined(sub, t.index()));
                        }
                        i = i + 1;
                    }
                    assert(ts@.subrange(0, ts@.len() as int) =~= ts@);
                    if variadic {
                        if ts.len() > 0 {
                            append(out, ", ...");
                        } else {
                            append(out, "...");
                        }
                    }
                    append(out, ")");
                }
            },
        }
        assert(out@ =~= start + m.spelling(t));
    }

    /// The debug string of the type: its C spelling (`int`, `char *`,
    /// `const int`, `int[10]`, `struct node`, `int (*) (int, char)`).
    pub fn debug_string(&self, ctx: &Context) -> (r: String)
        requires
            ctx.wf(),
        ensures
            r@ == ctx@.spelling(*self),
    {
        let mut out = String::new();
        Type::write_name(ctx, *self, &mut out);
        assert(out@ =~= ctx@.spelling(*self));
        out
    }
}

impl<'a> Context<'a> {
    /// Records a type that is not interned and returns it.
    pub(crate) fn push_type(&mut self, k: TypeKind) -> (t: Type)
        requires
            old(self).wf(),
            !k.is_interned(),
            !(k is Primitive),
            !(k is Compound),
            old(self)@.type_kind_ok(k, old(self)@.types.len() as int),
        ensures
            final(self).wf(),
            t == type_at(old(self)@.types.len()),
            t.index() == old(self)@.types.len(),
            final(self)@ == old(self)@.type_added(k),
    {
        let ghost m = self@;
        let id = self.types.len();
        self.types.push(k);
        assert(self@ =~= m.type_added(k));
        proof {
            let n = self@;
            assert forall|i: int| 0 <= i < n.types.len() implies n.type_kind_ok(
                #[trigger] n.types[i],
                i,
            ) by {
                if i < m.types.len() {
                    assert(m.type_kind_ok(m.types[i], i));
                }
            }
        }
        Type { id }
    }

    /// Records a list of types and returns its index.
    pub(crate) fn push_type_list(&mut self, ts: &[Type]) -> (r: usize)
        requires
            old(self).wf(),
            old(self)@.valid_types(ts@),
        ensures
            final(self).wf(),
            r == old(self)@.type_lists.len(),
            final(self)@ == old(self)@.type_list_added(ts@),
    {
        let ghost m = self@;
        let r = self.type_lists.len();
        let list = crate::structs::copy_slice(ts);
        self.type_lists.push(list);
        assert(self@.type_lists =~= m.type_lists.push(ts@));
        assert(self@ =~= m.type_list_added(ts@));
        proof {
            let n = self@;
            assert forall|l: int, k: int|
                0 <= l < n.type_lists.len() && 0 <= k < n.type_lists[l].len() implies #[trigger] n.type_lists[l][k].id
                < n.types.len() by {
                if l < m.type_lists.len() {
                    assert(m.type_lists[l][k].id < m.types.len());
                } else {
                    assert(m.valid_type(ts@[k]));
                }
            }
            assert forall|i: int| 0 <= i < n.types.len() implies n.type_kind_ok(
                #[trigger] n.types[i],
                i,
            ) by {
                assert(m.type_kind_ok(m.types[i], i));
            }
        }
        r
    }

    /// A vector type of `units` lanes of the type that `T` maps to.
    pub fn new_vector_type<T: Typeable>(&mut self, units: usize) -> (t: Type)
        requires
            old(self).wf(),
        ensures
            final(self).wf(),
            final(self)@.valid_type(t),
            final(self)@.types[t.index() as int] matches TypeKind::Vector(e, n) && n == units
                && e.index() < t.index(),
            T::primitive_kind() matches Some(k) ==> final(self)@ == old(self)@.type_added(
                TypeKind::Vector(old(self)@.primitive_type(k), units),
            ),
    {
        let e = T::get_type(self);
        self.push_type(TypeKind::Vector(e, units))
    }

    /// An array type of `num_elements` elements of type `ty`.
    pub fn new_array_type(&mut self, loc: Option<Location>, ty: Type, num_elements: i32) -> (t: Type)
        requires
            old(self).wf(),
            old(self)@.valid_loc(loc),
            old(self)@.valid_type(ty),
        ensures
            final(self).wf(),
            t == type_at(old(self)@.types.len()),
            final(self)@ == old(self)@.type_added(TypeKind::Array(ty, num_elements, loc)),
    {
        self.push_type(TypeKind::Array(ty, num_elements, loc))
    }

    /// The type of pointers to functions with the given return type,
    /// parameter types and variadic flag, independent of any function.
    pub fn new_function_pointer_type(
        &mut self,
        loc: Option<Location>,
        return_type: Type,
        param_types: &[Type],
        is_variadic: bool,
    ) -> (t: Type)
        requires
            old(self).wf(),
            old(self)@.valid_loc(loc),
            old(self)@.valid_type(return_type),
            old(self)@.valid_types(param_types@),
        ensures
            final(self).wf(),
            t == type_at(old(self)@.types.len()),
            final(self)@ == old(self)@.type_list_added(param_types@).type_added(
                TypeKind::FunctionPtr(
                    return_type,
                    old(self)@.type_lists.len() as usize,
                    is_variadic,
                    loc,
                ),
            ),
    {
        let l = self.push_type_list(param_types);
        self.push_type(TypeKind::FunctionPtr(return_type, l, is_variadic, loc))
    }
}

/// A host type that has a type of the intermediate representation.
pub trait Typeable {
    /// The primitive type that the host type maps to, if it is one.
    spec fn primitive_kind() -> Option<PrimitiveKind>;

    fn get_type(ctx: &mut Context) -> (t: Type)
        requires
            old(ctx).wf(),
        ensures
            final(ctx).wf(),
            final(ctx)@.valid_type(t),
            final(ctx)@.extends(old(ctx)@),
            Self::primitive_kind() matches Some(k) ==> t == final(ctx)@.primitive_type(k)
                && final(ctx)@ == old(ctx)@,
    ;
}

impl Typeable for () {
    open spec fn primitive_kind() -> Option<PrimitiveKind> {
        Some(PrimitiveKind::Void)
    }

    fn get_type(ctx: &mut Context) -> (t: Type) {
        ctx.get_type(PrimitiveKind::Void)
    }
}

impl Typeable for bool {
    open spec fn primitive_kind() -> Option<PrimitiveKind> {
        Some(PrimitiveKind::Bool)
    }

    fn get_type(ctx: &mut Context) -> (t: Type) {
        ctx.get_type(PrimitiveKind::Bool)
    }
}

impl Typeable for char {
    open spec fn primitive_kind() -> Option<PrimitiveKind> {
        Some(PrimitiveKind::Char)
    }

    fn get_type(ctx: &mut Context) -> (t: Type) {
        ctx.get_type(PrimitiveKind::Char)
    }
}

impl Typeable for i8 {
    open spec fn primitive_kind() -> Option<PrimitiveKind> {
        Some(PrimitiveKind::SignedChar)
    }

    fn get_type(ctx: &mut Context) -> (t: Type) {
        ctx.get_type(PrimitiveKind::SignedChar)
    }
}

impl Typeable for u8 {
    open spec fn primitive_kind() -> Option<PrimitiveKind> {
        Some(PrimitiveKind::UnsignedChar)
    }

    fn get_type(ctx: &mut Context) -> (t: Type) {
        ctx.get_type(PrimitiveKind::UnsignedChar)
    }
}

impl Typeable for i16 {
    open spec fn primitive_kind() -> Option<PrimitiveKind> {
        Some(PrimitiveKind::Short)
    }

    fn get_type(ctx: &mut Context) -> (t: Type) {
        ctx.get_type(PrimitiveKind::Short)
    }
}

impl Typeable for u16 {
    open spec fn primitive_kind() -> Option<PrimitiveKind> {
        Some(PrimitiveKind::UnsignedShort)
    }

    fn get_type(ctx: &mut Context) -> (t: Type) {
        ctx.get_type(PrimitiveKind::UnsignedShort)
    }
}

impl Typeable for i32 {
    open spec fn primitive_kind() -> Option<PrimitiveKind> {
        Some(PrimitiveKind::Int)
    }

    fn get_type(ctx: &mut Context) -> (t: Type) {
        ctx.get_type(PrimitiveKind::Int)
    }
}

impl Typeable for u32 {
    open spec fn primitive_kind() -> Option<PrimitiveKind> {
        Some(PrimitiveKind::UnsignedInt)
    }

    fn get_type(ctx: &mut Context) -> (t: Type) {
        ctx.get_type(PrimitiveKind::UnsignedInt)
    }
}

impl Typeable for i64 {
    open spec fn primitive_kind() -> Option<PrimitiveKind> {
        Some(PrimitiveKind::Long)
    }

    fn get_type(ctx: &mut Context) -> (t: Type) {
        ctx.get_type(PrimitiveKind::Long)
    }
}

impl Typeable for u64 {
    open spec fn primitive_kind() -> Option<PrimitiveKind> {
        Some(PrimitiveKind::UnsignedLong)
    }

    fn get_type(ctx: &mut Context) -> (t: Type) {
        ctx.get_type(PrimitiveKind::UnsignedLong)
    }
}

impl Typeable for usize {
    open spec fn primitive_kind() -> Option<PrimitiveKind> {
        Some(PrimitiveKind::SizeT)
    }

    fn get_type(ctx: &mut Context) -> (t: Type) {
        ctx.get_type(PrimitiveKind::SizeT)
    }
}

/// Asking for a pointer to a pointer to T gives a type other than the
/// pointer to T, and asking again for either of them gives the same types
/// and adds nothing to the context.
pub proof fn lemma_pointer_types_distinct_and_stable(m: ContextModel, t: Type)
    requires
        m.wf(),
        m.valid_type(t),
        m.types.len() < usize::MAX,
    ensures
        ({
            let (m1, p1) = m.interned(TypeKind::Pointer(t));
            let (m2, p2) = m1.interned(TypeKind::Pointer(p1));
            &&& p2 != p1
            &&& m2.interned(TypeKind::Pointer(t)) == (m2, p1)
            &&& m2.interned(TypeKind::Pointer(p1)) == (m2, p2)
        }),
{
    let (m1, p1) = m.interned(TypeKind::Pointer(t));
    crate::ctx::lemma_interned(m, TypeKind::Pointer(t));
    crate::ctx::lemma_interned(m1, TypeKind::Pointer(p1));
    let (m2, p2) = m1.interned(TypeKind::Pointer(p1));
    assert(m2.types[p1.id as int] == TypeKind::Pointer(t));
    if p2 == p1 {
        assert(m2.type_kind_ok(m2.types[p1.id as int], p1.id as int));
    }
    assert(m2.interned(TypeKind::Pointer(t)) == (m2, p1)) by {
        let c = choose|i: int| 0 <= i < m2.types.len() && m2.types[i] == TypeKind::Pointer(t);
        assert(m2.types[c] == m2.types[p1.id as int]);
    }
    assert(m2.interned(TypeKind::Pointer(p1)) == (m2, p2)) by {
        let c = choose|i: int| 0 <= i < m2.types.len() && m2.types[i] == TypeKind::Pointer(p1);
        assert(m2.types[c] == m2.types[p2.id as int]);
    }
}

} // verus!
