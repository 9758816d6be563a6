use vstd::prelude::*;

use crate::ctx::Context;
use crate::field::Field;
use crate::location::Location;
use crate::rvalue::{RValue, ToRValue, ValueInfo, ValueKind};
use crate::ty::TypeKind;

verus! {

/// A value with storage: a local, a parameter, an array element, a
/// dereferenced pointer or a field of one of these. It can be assigned, read
/// as an rvalue, and have its address taken.
#[derive(Clone, Copy, PartialEq, Eq, Structural, Debug)]
pub struct LValue {
    pub(crate) id: usize,
}

impl LValue {
    /// Position of the object in its context, for code that walks the
    /// context's tables.
    pub fn id(&self) -> (r: usize)
        ensures
            r == self.index(),
    {
        self.id
    }

    /// Position of the lvalue among the values of its context.
    pub open(crate) spec fn index(self) -> nat {
        self.id as nat
    }
}

impl crate::ctx::ContextModel {
    pub open(crate) spec fn valid_lvalue(self, l: LValue) -> bool {
        l.id < self.values.len()
    }
}

/// Something that can be used as an lvalue: an lvalue or a parameter.
pub trait ToLValue {
    spec fn spec_to_lvalue(&self) -> LValue;

    fn to_lvalue(&self) -> (r: LValue)
        ensures
            r == self.spec_to_lvalue(),
    ;
}

impl ToLValue for LValue {
    open spec fn spec_to_lvalue(&self) -> LValue {
        *self
    }

    fn to_lvalue(&self) -> (r: LValue) {
        *self
    }
}

impl ToRValue for LValue {
    /// Reading an lvalue: the same object of the context, used for its value.
    open spec fn spec_to_rvalue(&self) -> RValue {
        self.as_rvalue()
    }

    fn to_rvalue(&self) -> (r: RValue) {
        RValue { id: self.id }
    }
}

impl LValue {
    /// The lvalue seen as an rvalue: its current value.
    pub open(crate) spec fn as_rvalue(self) -> RValue {
        RValue { id: self.id }
    }

    /// The field `f` of this struct lvalue (C's `x.f`), as an lvalue of the
    /// field's type.
    pub fn access_field(&self, ctx: &mut Context, loc: Option<Location>, field: Field) -> (r:
        LValue)
        requires
            old(ctx).wf(),
            old(ctx)@.valid_value(self.index() as usize),
            old(ctx)@.valid_loc(loc),
            old(ctx)@.valid_field(field),
        ensures
            final(ctx).wf(),
            r.index() == old(ctx)@.values.len(),
            final(ctx)@ == old(ctx)@.value_added(
                ValueInfo {
                    kind: ValueKind::LValueField(*self, field),
                    ty: old(ctx)@.fields[field.index() as int].ty,
                    loc,
                },
            ),
    {
        let ty = ctx.fields[field.id].ty;
        let id = ctx.push_value(ValueInfo { kind: ValueKind::LValueField(*self, field), ty, loc });
        LValue { id }
    }

    /// The address of this lvalue (C's `&x`): a value of the pointer type to
    /// the lvalue's type.
    pub fn get_address(&self, ctx: &mut Context, loc: Option<Location>) -> (r: RValue)
        requires
            old(ctx).wf(),
            old(ctx)@.valid_value(self.index() as usize),
            old(ctx)@.valid_loc(loc),
        ensures
            final(ctx).wf(),
            ({
                let m = old(ctx)@;
                let (m1, p) = m.interned(TypeKind::Pointer(m.values[self.index() as int].ty));
                &&& r.index() == m1.values.len()
                &&& final(ctx)@ == m1.value_added(
                    ValueInfo { kind: ValueKind::AddressOf(*self), ty: p, loc },
                )
            }),
    {
        let t = ctx.values[self.id].ty;
        let p = ctx.intern_type(TypeKind::Pointer(t));
        let id = ctx.push_value(ValueInfo { kind: ValueKind::AddressOf(*self), ty: p, loc });
        RValue { id }
    }
}

} // verus!
