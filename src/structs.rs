use vstd::prelude::*;

use crate::ctx::{Context, ContextError, ContextModel};
use crate::field::{Field, FieldInfo};
use crate::location::Location;
use crate::ty::{Type, TypeKind};

verus! {

/// A named composite type: a struct, possibly created opaque and given its
/// fields later, or a union.
#[derive(Clone, Copy, PartialEq, Eq, Structural, Debug)]
pub struct Struct {
    pub(crate) id: usize,
    pub(crate) ty: Type,
}

/// What the context records for a composite type: its name (an index into
/// the context's strings), its fields (an index into the context's field
/// lists; `None` while the struct is opaque), whether it is a union, its
/// location, and the type that stands for it.
#[derive(Clone, Copy, PartialEq, Eq, Structural, Debug)]
pub struct CompoundInfo {
    pub name: usize,
    pub fields: Option<usize>,
    pub is_union: bool,
    pub loc: Option<Location>,
    /// Where the fields of a struct created opaque were set.
    pub fields_loc: Option<Location>,
    pub ty: Type,
}

impl Struct {
    /// Position of the object in its context, for code that walks the
    /// context's tables.
    pub fn id(&self) -> (r: usize)
        ensures
            r == self.index(),
    {
        self.id
    }

    /// Position of the composite type in its context.
    pub open(crate) spec fn index(self) -> nat {
        self.id as nat
    }

    /// The type that stands for this struct.
    pub open(crate) spec fn spec_as_type(self) -> Type {
        self.ty
    }

    pub fn as_type(&self) -> (t: Type)
        ensures
            t == self.spec_as_type(),
    {
        self.ty
    }
}

/// The fields held by an optional list.
pub open(crate) spec fn fields_view(o: Option<Vec<Field>>) -> Option<Seq<Field>> {
    match o {
        Some(v) => Some(v@),
        None => None,
    }
}

/// A copy of a slice of handles.
pub(crate) fn copy_slice<T: Copy>(s: &[T]) -> (v: Vec<T>)
    ensures
        v@ == s@,
{
    let mut v: Vec<T> = Vec::new();
    let mut i: usize = 0;
    while i < s.len()
        invariant
            i <= s@.len(),
            v@ == s@.subrange(0, i as int),
        decreases s@.len() - i,
    {
        v.push(s[i]);
        i = i + 1;
    }
    assert(v@ =~= s@);
    v
}

impl ContextModel {
    /// The composite type that the next creation of one returns.
    pub open(crate) spec fn next_struct(self) -> Struct {
        Struct { id: self.structs.len() as usize, ty: Type { id: self.types.len() as usize } }
    }

    /// The model with a new composite type: its name, its fields (`None`
    /// for an opaque struct), and the type that stands for it.
    pub open(crate) spec fn compound_added(
        self,
        name: Seq<char>,
        fields: Option<Seq<Field>>,
        is_union: bool,
        loc: Option<Location>,
    ) -> ContextModel {
        let info = CompoundInfo {
            name: self.strings.len() as usize,
            fields: if fields is Some {
                Some(self.field_lists.len() as usize)
            } else {
                None
            },
            is_union,
            loc,
            fields_loc: None,
            ty: Type { id: self.types.len() as usize },
        };
        ContextModel {
            strings: self.strings.push(name),
            field_lists: if fields is Some {
                self.field_lists.push(fields->0)
            } else {
                self.field_lists
            },
            structs: self.structs.push(info),
            types: self.types.push(TypeKind::Compound(self.structs.len() as usize)),
            ..self
        }
    }

    /// The model once field `f` is placed in composite type `s`: taken if
    /// it was free, else recorded as a misuse.
    pub open(crate) spec fn claim(self, f: Field, s: usize) -> ContextModel {
        if self.fields[f.id as int].container is None {
            ContextModel {
                fields: self.fields.update(
                    f.id as int,
                    FieldInfo { container: Some(s), ..self.fields[f.id as int] },
                ),
                ..self
            }
        } else {
            self.with_error(ContextError::FieldInUse(f))
        }
    }

    /// The model once the fields `fs` are placed, in order, in `s`.
    pub open(crate) spec fn claimed(self, fs: Seq<Field>, s: usize) -> ContextModel
        decreases fs.len(),
    {
        if fs.len() == 0 {
            self
        } else {
            self.claimed(fs.drop_last(), s).claim(fs.last(), s)
        }
    }

    /// The model once the opaque struct `s` receives the fields `fs`, or
    /// the misuse recorded if it already had fields.
    pub open(crate) spec fn fields_set(
        self,
        s: Struct,
        fs: Seq<Field>,
        loc: Option<Location>,
    ) -> ContextModel {
        if self.structs[s.id as int].fields is Some {
            self.with_error(ContextError::FieldsAlreadySet(s))
        } else {
            ContextModel {
                field_lists: self.field_lists.push(fs),
                structs: self.structs.update(
                    s.id as int,
                    CompoundInfo {
                        fields: Some(self.field_lists.len() as usize),
                        fields_loc: loc,
                        ..self.structs[s.id as int]
                    },
                ),
                ..self
            }.claimed(fs, s.id)
        }
    }

    /// The name and type of a field.
    pub open(crate) spec fn field_layout(self, f: Field) -> (Seq<char>, Type) {
        (self.strings[self.fields[f.id as int].name as int], self.fields[f.id as int].ty)
    }

    /// What a composite type is made of: its name, whether it is a union,
    /// and the name and type of each field, in order (`None` while opaque).
    pub open(crate) spec fn struct_layout(self, s: Struct) -> (
        Seq<char>,
        bool,
        Option<Seq<(Seq<char>, Type)>>,
    ) {
        let c = self.structs[s.id as int];
        (
            self.strings[c.name as int],
            c.is_union,
            match c.fields {
                Some(l) => Some(self.field_lists[l as int].map_values(|f: Field| self.field_layout(f))),
                None => None,
            },
        )
    }

    /// Fields that can be placed in a new composite type.
    pub open(crate) spec fn valid_fields(self, fs: Seq<Field>) -> bool {
        forall|i: int| 0 <= i < fs.len() ==> self.valid_field(#[trigger] fs[i])
    }
}

/// Placing fields changes nothing but the fields' containers and the
/// recorded misuse.
pub(crate) proof fn lemma_claimed_frame(m: ContextModel, fs: Seq<Field>, s: usize)
    requires
        m.valid_fields(fs),
    ensures
        m.claimed(fs, s) == (ContextModel {
            fields: m.claimed(fs, s).fields,
            first_error: m.claimed(fs, s).first_error,
            ..m
        }),
        m.claimed(fs, s).fields.len() == m.fields.len(),
        forall|i: int|
            0 <= i < m.fields.len() ==> {
                let a = #[trigger] m.claimed(fs, s).fields[i];
                let b = m.fields[i];
                a.ty == b.ty && a.name == b.name && a.loc == b.loc
            },
    decreases fs.len(),
{
    if fs.len() > 0 {
        let p = fs.drop_last();
        assert(m.valid_fields(p)) by {
            assert forall|i: int| 0 <= i < p.len() implies m.valid_field(#[trigger] p[i]) by {
                assert(p[i] == fs[i]);
            }
        }
        assert(m.valid_field(fs[fs.len() - 1]));
        lemma_claimed_frame(m, p, s);
    }
}

/// Placing fields keeps the context well formed.
pub(crate) proof fn lemma_claimed(m: ContextModel, fs: Seq<Field>, s: usize)
    requires
        m.wf(),
        s < m.structs.len(),
        m.valid_fields(fs),
    ensures
        m.claimed(fs, s).wf(),
        m.claimed(fs, s) == (ContextModel {
            fields: m.claimed(fs, s).fields,
            first_error: m.claimed(fs, s).first_error,
            ..m
        }),
        m.claimed(fs, s).fields.len() == m.fields.len(),
        forall|i: int|
            0 <= i < m.fields.len() ==> {
                let a = #[trigger] m.claimed(fs, s).fields[i];
                let b = m.fields[i];
                a.ty == b.ty && a.name == b.name && a.loc == b.loc
            },
    decreases fs.len(),
{
    if fs.len() > 0 {
        let p = fs.drop_last();
        assert(m.valid_fields(p)) by {
            assert forall|i: int| 0 <= i < p.len() implies m.valid_field(#[trigger] p[i]) by {
                assert(p[i] == fs[i]);
            }
        }
        lemma_claimed(m, p, s);
        let m1 = m.claimed(p, s);
        let f = fs.last();
        assert(m.valid_field(fs[fs.len() - 1]));
        if m1.fields[f.id as int].container is None {
            let m2 = m1.claim(f, s);
            assert forall|i: int| 0 <= i < m2.fields.len() implies {
                let x = #[trigger] m2.fields[i];
                &&& m2.valid_type(x.ty)
                &&& m2.valid_string(x.name)
                &&& m2.valid_loc(x.loc)
                &&& (x.container matches Some(c) ==> c < m2.structs.len())
            } by {
                assert(m1.structs_ok());
                let y = m1.fields[i];
                assert(m1.valid_type(y.ty) && m1.valid_string(y.name) && m1.valid_loc(y.loc));
            }
        }
    }
}

impl<'a> Context<'a> {
    /// Records a composite type and the type that stands for it.
    pub(crate) fn add_compound(
        &mut self,
        loc: Option<Location>,
        name: &str,
        fields: Option<Vec<Field>>,
        is_union: bool,
    ) -> (s: Struct)
        requires
            old(self).wf(),
            old(self)@.valid_loc(loc),
            fields matches Some(v) ==> old(self)@.valid_fields(v@),
        ensures
            final(self).wf(),
            s == old(self)@.next_struct(),
            final(self)@ == old(self)@.compound_added(
                name@,
                fields_view(fields),
                is_union,
                loc,
            ),
    {
        let ghost m = self@;
        let ghost want = m.compound_added(
            name@,
            fields_view(fields),
            is_union,
            loc,
        );
        let sid = self.structs.len();
        let tid = self.types.len();
        let name_id = self.add_string(name);
        let fields_id = match fields {
            Some(v) => {
                let l = self.field_lists.len();
                self.field_lists.push(v);
                Some(l)
            },
            None => None,
        };
        let ty = Type { id: tid };
        self.structs.push(
            CompoundInfo { name: name_id, fields: fields_id, is_union, loc, fields_loc: None, ty },
        );
        self.types.push(TypeKind::Compound(sid));
        assert(self@.field_lists =~= want.field_lists);
        assert(self@.strings =~= want.strings);
        assert(self@ =~= want);
        proof {
            let n = self@;
            assert forall|i: int| 0 <= i < n.types.len() implies n.type_kind_ok(
                #[trigger] n.types[i],
                i,
            ) by {
                if i < m.types.len() {
                    assert(m.type_kind_ok(m.types[i], i));
                }
            }
            assert forall|l: int, k: int|
                0 <= l < n.field_lists.len() && 0 <= k < n.field_lists[l].len() implies #[trigger] n.field_lists[l][k].id
                < n.fields.len() by {
                if l < m.field_lists.len() {
                    assert(m.field_lists[l][k].id < m.fields.len());
                }
            }
            assert forall|i: int, j: int|
                0 <= i < n.types.len() && 0 <= j < n.types.len() && #[trigger] n.types[i]
                    == #[trigger] n.types[j] && n.types[i].is_interned() implies i == j by {
                if i < m.types.len() && j < m.types.len() {
                    assert(m.types[i] == m.types[j]);
                }
            }
        }
        Struct { id: sid, ty }
    }

    /// Places the fields, in order, in composite type `s`; a field already
    /// placed elsewhere is recorded as a misuse.
    pub(crate) fn claim_fields(&mut self, fields: &[Field], s: usize)
        requires
            old(self).wf(),
            s < old(self)@.structs.len(),
            old(self)@.valid_fields(fields@),
        ensures
            final(self).wf(),
            final(self)@ == old(self)@.claimed(fields@, s),
    {
        let ghost m = self@;
        let mut i: usize = 0;
        while i < fields.len()
            invariant
                i <= fields@.len(),
                m.wf(),
                s < m.structs.len(),
                m.valid_fields(fields@),
                self@ == m.claimed(fields@.subrange(0, i as int), s),
            decreases fields@.len() - i,
        {
            proof {
                assert(m.valid_fields(fields@.subrange(0, i as int))) by {
                    assert forall|k: int| 0 <= k < i implies m.valid_field(
                        #[trigger] fields@.subrange(0, i as int)[k],
                    ) by {
                        assert(fields@.subrange(0, i as int)[k] == fields@[k]);
                    }
                }
                lemma_claimed(m, fields@.subrange(0, i as int), s);
                assert(fields@.subrange(0, i as int + 1).drop_last() =~= fields@.subrange(
                    0,
                    i as int,
                ));
                assert(m.valid_field(fields@[i as int]));
            }
            let f = fields[i];
            if self.fields[f.id].container.is_none() {
                let info = FieldInfo { container: Some(s), ..self.fields[f.id] };
                self.fields.set(f.id, info);
            } else {
                self.record_error(ContextError::FieldInUse(f));
            }
            assert(self@ =~= m.claimed(fields@.subrange(0, i as int + 1), s));
            i = i + 1;
        }
        assert(fields@.subrange(0, fields@.len() as int) =~= fields@);
        proof {
            lemma_claimed(m, fields@, s);
        }
    }

    /// A new field of the given type and name, to be placed in one struct or
    /// union.
    pub fn new_field(&mut self, loc: Option<Location>, ty: Type, name: &str) -> (f: Field)
        requires
            old(self).wf(),
            old(self)@.valid_loc(loc),
            old(self)@.valid_type(ty),
        ensures
            final(self).wf(),
            f.index() == old(self)@.fields.len(),
            final(self)@ == (ContextModel {
                strings: old(self)@.strings.push(name@),
                fields: old(self)@.fields.push(
                    FieldInfo {
                        ty,
                        name: old(self)@.strings.len() as usize,
                        loc,
                        container: None,
                    },
                ),
                ..old(self)@
            }),
    {
        let id = self.fields.len();
        let name_id = self.add_string(name);
        self.fields.push(FieldInfo { ty, name: name_id, loc, container: None });
        Field { id }
    }

    /// A complete struct with the given name and fields, in order. The
    /// fields must not belong to another composite type.
    pub fn new_struct_type(&mut self, loc: Option<Location>, name: &str, fields: &[Field]) -> (s:
        Struct)
        requires
            old(self).wf(),
            old(self)@.valid_loc(loc),
            old(self)@.valid_fields(fields@),
        ensures
            final(self).wf(),
            s == old(self)@.next_struct(),
            final(self)@ == old(self)@.compound_added(name@, Some(fields@), false, loc).claimed(
                fields@,
                s.index() as usize,
            ),
    {
        let list = copy_slice(fields);
        let s = self.add_compound(loc, name, Some(list), false);
        self.claim_fields(fields, s.id);
        s
    }

    /// A struct with a name and no fields yet; `set_fields` gives it its
    /// fields, once. Such a struct can hold pointers to itself.
    pub fn new_opaque_struct_type(&mut self, loc: Option<Location>, name: &str) -> (s: Struct)
        requires
            old(self).wf(),
            old(self)@.valid_loc(loc),
        ensures
            final(self).wf(),
            s == old(self)@.next_struct(),
            final(self)@ == old(self)@.compound_added(name@, None, false, loc),
    {
        self.add_compound(loc, name, None, false)
    }

    /// A union of the given fields: a type whose fields share storage.
    pub fn new_union_type(&mut self, loc: Option<Location>, name: &str, fields: &[Field]) -> (t:
        Type)
        requires
            old(self).wf(),
            old(self)@.valid_loc(loc),
            old(self)@.valid_fields(fields@),
        ensures
            final(self).wf(),
            t == old(self)@.next_struct().spec_as_type(),
            final(self)@ == old(self)@.compound_added(name@, Some(fields@), true, loc).claimed(
                fields@,
                old(self)@.structs.len() as usize,
            ),
    {
        let list = copy_slice(fields);
        let s = self.add_compound(loc, name, Some(list), true);
        self.claim_fields(fields, s.id);
        s.ty
    }
}

impl Struct {
    /// Gives the fields, in order, to a struct that was created opaque. A
    /// struct that already has fields is left as it is and the misuse is
    /// recorded.
    pub fn set_fields(&self, ctx: &mut Context, location: Option<Location>, fields: &[Field])
        requires
            old(ctx).wf(),
            old(ctx)@.valid_struct(*self),
            old(ctx)@.valid_loc(location),
            old(ctx)@.valid_fields(fields@),
        ensures
            final(ctx).wf(),
            final(ctx)@ == old(ctx)@.fields_set(*self, fields@, location),
    {
        let ghost m = ctx@;
        if ctx.structs[self.id].fields.is_some() {
            ctx.record_error(ContextError::FieldsAlreadySet(*self));
            return ;
        }
        let list = copy_slice(fields);
        let l = ctx.field_lists.len();
        ctx.field_lists.push(list);
        let info = CompoundInfo { fields: Some(l), fields_loc: location, ..ctx.structs[self.id] };
        ctx.structs.set(self.id, info);
        proof {
            let n = ctx@;
            assert(n.field_lists =~= m.field_lists.push(fields@));
            assert forall|l: int, k: int|
                0 <= l < n.field_lists.len() && 0 <= k < n.field_lists[l].len() implies #[trigger] n.field_lists[l][k].id
                < n.fields.len() by {
                if l < m.field_lists.len() {
                    assert(m.field_lists[l][k].id < m.fields.len());
                }
            }
            assert forall|i: int| 0 <= i < n.types.len() implies n.type_kind_ok(
                #[trigger] n.types[i],
                i,
            ) by {
                assert(m.type_kind_ok(m.types[i], i));
            }
        }
        ctx.claim_fields(fields, self.id);
    }
}

/// A struct created opaque and then given its fields is laid out as a
/// struct created directly with the same name and fields.
pub proof fn lemma_opaque_then_set_fields_matches_direct(
    m: ContextModel,
    name: Seq<char>,
    fs: Seq<Field>,
    loc: Option<Location>,
    fields_loc: Option<Location>,
)
    requires
        m.wf(),
        m.valid_loc(loc),
        m.valid_loc(fields_loc),
        m.valid_fields(fs),
        m.types.len() < usize::MAX,
        m.structs.len() < usize::MAX,
        m.strings.len() < usize::MAX,
        m.field_lists.len() < usize::MAX,
    ensures
        ({
            let s1 = m.next_struct();
            let opaque = m.compound_added(name, None, false, loc);
            let filled = opaque.fields_set(s1, fs, fields_loc);
            let direct = m.compound_added(name, Some(fs), false, loc).claimed(
                fs,
                s1.index() as usize,
            );
            filled.struct_layout(s1) == direct.struct_layout(s1)
        }),
{
    let s1 = m.next_struct();
    let opaque = m.compound_added(name, None, false, loc);
    let before = ContextModel {
        field_lists: opaque.field_lists.push(fs),
        structs: opaque.structs.update(
            s1.id as int,
            CompoundInfo {
                fields: Some(opaque.field_lists.len() as usize),
                fields_loc,
                ..opaque.structs[s1.id as int]
            },
        ),
        ..opaque
    };
    let added = m.compound_added(name, Some(fs), false, loc);
    let filled = opaque.fields_set(s1, fs, fields_loc);
    let direct = added.claimed(fs, s1.id);
    assert(opaque.structs[s1.id as int].fields is None);
    assert(filled == before.claimed(fs, s1.id));
    assert(before.valid_fields(fs) && added.valid_fields(fs)) by {
        assert forall|i: int| 0 <= i < fs.len() implies before.valid_field(#[trigger] fs[i])
            && added.valid_field(fs[i]) by {
            assert(m.valid_field(fs[i]));
        }
    }
    lemma_claimed_frame(before, fs, s1.id);
    lemma_claimed_frame(added, fs, s1.id);
    let a = filled.struct_layout(s1);
    let b = direct.struct_layout(s1);
    assert(filled.field_lists[opaque.field_lists.len() as int] == fs);
    assert(direct.field_lists[m.field_lists.len() as int] == fs);
    assert(a.2->0 =~= b.2->0) by {
        assert forall|i: int| 0 <= i < fs.len() implies #[trigger] filled.field_layout(fs[i])
            == direct.field_layout(fs[i]) by {
            assert(m.valid_field(fs[i]));
            assert(filled.fields[fs[i].id as int].ty == m.fields[fs[i].id as int].ty);
            assert(direct.fields[fs[i].id as int].ty == m.fields[fs[i].id as int].ty);
        }
    }
}

} // verus!
