use vstd::prelude::*;

use crate::block::{BinaryOp, ComparisonOp, UnaryOp};
use crate::ctx::{Context, ContextError};
use crate::field::Field;
use crate::function::Function;
use crate::location::Location;
use crate::lvalue::LValue;
use crate::prim::PrimitiveKind;
use crate::ty::{Type, TypeKind};

verus! {

/// A value usable in expressions. It has exactly one type and no durable
/// address of its own.
#[derive(Clone, Copy, PartialEq, Eq, Structural, Debug)]
pub struct RValue {
    pub(crate) id: usize,
}

/// How a value was made. Lists of values and strings are indices into the
/// context's value lists and strings.
#[derive(Clone, Copy, PartialEq, Eq, Structural, Debug)]
pub enum ValueKind {
    Parameter(usize),
    Local(Function, usize),
    Integer(i64),
    /// A floating-point constant, kept as the bits of an IEEE double.
    DoubleBits(u64),
    Zero,
    One,
    Null,
    /// A constant pointer to a host address.
    Address(usize),
    StringLiteral(usize),
    Vector(usize),
    Binary(BinaryOp, RValue, RValue),
    Unary(UnaryOp, RValue),
    Comparison(ComparisonOp, RValue, RValue),
    Call(Function, usize),
    CallThroughPtr(RValue, usize),
    Cast(RValue),
    ArrayAccess(RValue, RValue),
    Dereference(RValue),
    DereferenceField(RValue, Field),
    AccessField(RValue, Field),
    LValueField(LValue, Field),
    AddressOf(LValue),
    FunctionAddress(Function),
}

/// What the context records for a value: how it was made, its type and its
/// location.
#[derive(Clone, Copy, PartialEq, Eq, Structural, Debug)]
pub struct ValueInfo {
    pub kind: ValueKind,
    pub ty: Type,
    pub loc: Option<Location>,
}

impl RValue {
    /// Position of the object in its context, for code that walks the
    /// context's tables.
    pub fn id(&self) -> (r: usize)
        ensures
            r == self.index(),
    {
        self.id
    }

    /// Position of the rvalue among the values of its context.
    pub open(crate) spec fn index(self) -> nat {
        self.id as nat
    }
}

/// Something that can be used as an rvalue: an rvalue, an lvalue (its
/// current value) or a parameter.
pub trait ToRValue {
    spec fn spec_to_rvalue(&self) -> RValue;

    fn to_rvalue(&self) -> (r: RValue)
        ensures
            r == self.spec_to_rvalue(),
    ;
}

impl ToRValue for RValue {
    open spec fn spec_to_rvalue(&self) -> RValue {
        *self
    }

    fn to_rvalue(&self) -> (r: RValue) {
        *self
    }
}

impl<'a> Context<'a> {
    /// A constant of type `ty` from an integer.
    pub fn new_rvalue_from_int(&mut self, ty: Type, value: i32) -> (r: RValue)
        requires
            old(self).wf(),
            old(self)@.valid_type(ty),
        ensures
            final(self).wf(),
            r.index() == old(self)@.values.len(),
            final(self)@ == old(self)@.value_added(
                ValueInfo { kind: ValueKind::Integer(value as i64), ty, loc: None },
            ),
    {
        let id = self.push_value(ValueInfo { kind: ValueKind::Integer(value as i64), ty, loc: None });
        RValue { id }
    }

    /// A constant of type `ty` from a long integer.
    pub fn new_rvalue_from_long(&mut self, ty: Type, value: i64) -> (r: RValue)
        requires
            old(self).wf(),
            old(self)@.valid_type(ty),
        ensures
            final(self).wf(),
            r.index() == old(self)@.values.len(),
            final(self)@ == old(self)@.value_added(
                ValueInfo { kind: ValueKind::Integer(value), ty, loc: None },
            ),
    {
        let id = self.push_value(ValueInfo { kind: ValueKind::Integer(value), ty, loc: None });
        RValue { id }
    }

    /// A floating-point constant of type `ty`, given as the bits of an IEEE
    /// double.
    pub fn new_rvalue_from_double_bits(&mut self, ty: Type, bits: u64) -> (r: RValue)
        requires
            old(self).wf(),
            old(self)@.valid_type(ty),
        ensures
            final(self).wf(),
            r.index() == old(self)@.values.len(),
            final(self)@ == old(self)@.value_added(
                ValueInfo { kind: ValueKind::DoubleBits(bits), ty, loc: None },
            ),
    {
        let id = self.push_value(ValueInfo { kind: ValueKind::DoubleBits(bits), ty, loc: None });
        RValue { id }
    }

    /// The zero of type `ty`.
    pub fn new_rvalue_zero(&mut self, ty: Type) -> (r: RValue)
        requires
            old(self).wf(),
            old(self)@.valid_type(ty),
        ensures
            final(self).wf(),
            r.index() == old(self)@.values.len(),
            final(self)@ == old(self)@.value_added(
                ValueInfo { kind: ValueKind::Zero, ty, loc: None },
            ),
    {
        let id = self.push_value(ValueInfo { kind: ValueKind::Zero, ty, loc: None });
        RValue { id }
    }

    /// The one of type `ty`.
    pub fn new_rvalue_one(&mut self, ty: Type) -> (r: RValue)
        requires
            old(self).wf(),
            old(self)@.valid_type(ty),
        ensures
            final(self).wf(),
            r.index() == old(self)@.values.len(),
            final(self)@ == old(self)@.value_added(
                ValueInfo { kind: ValueKind::One, ty, loc: None },
            ),
    {
        let id = self.push_value(ValueInfo { kind: ValueKind::One, ty, loc: None });
        RValue { id }
    }

    /// The null pointer of pointer type `ty`.
    pub fn new_null(&mut self, ty: Type) -> (r: RValue)
        requires
            old(self).wf(),
            old(self)@.valid_type(ty),
        ensures
            final(self).wf(),
            r.index() == old(self)@.values.len(),
            final(self)@ == old(self)@.value_added(
                ValueInfo { kind: ValueKind::Null, ty, loc: None },
            ),
    {
        let id = self.push_value(ValueInfo { kind: ValueKind::Null, ty, loc: None });
        RValue { id }
    }

    /// A constant pointer of type `ty` to a host address. What it points to
    /// must outlive the generated code.
    pub fn new_rvalue_from_ptr(&mut self, ty: Type, address: usize) -> (r: RValue)
        requires
            old(self).wf(),
            old(self)@.valid_type(ty),
        ensures
            final(self).wf(),
            r.index() == old(self)@.values.len(),
            final(self)@ == old(self)@.value_added(
                ValueInfo { kind: ValueKind::Address(address), ty, loc: None },
            ),
    {
        let id = self.push_value(ValueInfo { kind: ValueKind::Address(address), ty, loc: None });
        RValue { id }
    }

    /// A string literal; its type is `const char *`.
    pub fn new_string_literal(&mut self, value: &str) -> (r: RValue)
        requires
            old(self).wf(),
        ensures
            final(self).wf(),
            r.index() == old(self)@.values.len() as int,
            final(self)@ == old(self)@.string_added(value@).value_added(
                ValueInfo {
                    kind: ValueKind::StringLiteral(old(self)@.strings.len() as usize),
                    ty: old(self)@.primitive_type(PrimitiveKind::ConstCharPtr),
                    loc: None,
                },
            ),
    {
        let s = self.add_string(value);
        let ty = self.get_type(PrimitiveKind::ConstCharPtr);
        let id = self.push_value(ValueInfo { kind: ValueKind::StringLiteral(s), ty, loc: None });
        RValue { id }
    }

    /// A vector constant of vector type `ty` with the given elements.
    pub fn new_rvalue_from_vector(
        &mut self,
        loc: Option<Location>,
        elements: Vec<RValue>,
        ty: Type,
    ) -> (r: RValue)
        requires
            old(self).wf(),
            old(self)@.valid_loc(loc),
            old(self)@.valid_type(ty),
            old(self)@.valid_rvalues(elements@),
        ensures
            final(self).wf(),
            r.index() == old(self)@.values.len(),
            final(self)@ == old(self)@.value_list_added(elements@).value_added(
                ValueInfo {
                    kind: ValueKind::Vector(old(self)@.value_lists.len() as usize),
                    ty,
                    loc,
                },
            ),
    {
        let l = self.push_value_list(elements.as_slice());
        let id = self.push_value(ValueInfo { kind: ValueKind::Vector(l), ty, loc });
        RValue { id }
    }

    /// The binary operation `op` on two values, with the result type given
    /// explicitly, so that the caller may widen or narrow it.
    pub fn new_binary_op<L: ToRValue, R: ToRValue>(
        &mut self,
        loc: Option<Location>,
        op: BinaryOp,
        ty: Type,
        left: L,
        right: R,
    ) -> (r: RValue)
        requires
            old(self).wf(),
            old(self)@.valid_loc(loc),
            old(self)@.valid_type(ty),
            old(self)@.valid_rvalue(left.spec_to_rvalue()),
            old(self)@.valid_rvalue(right.spec_to_rvalue()),
        ensures
            final(self).wf(),
            r.index() == old(self)@.values.len(),
            final(self)@ == old(self)@.value_added(
                ValueInfo {
                    kind: ValueKind::Binary(op, left.spec_to_rvalue(), right.spec_to_rvalue()),
                    ty,
                    loc,
                },
            ),
    {
        let a = left.to_rvalue();
        let b = right.to_rvalue();
        let id = self.push_value(ValueInfo { kind: ValueKind::Binary(op, a, b), ty, loc });
        RValue { id }
    }

    /// The unary operation `op` on a value, with the result type given
    /// explicitly.
    pub fn new_unary_op<T: ToRValue>(
        &mut self,
        loc: Option<Location>,
        op: UnaryOp,
        ty: Type,
        target: T,
    ) -> (r: RValue)
        requires
            old(self).wf(),
            old(self)@.valid_loc(loc),
            old(self)@.valid_type(ty),
            old(self)@.valid_rvalue(target.spec_to_rvalue()),
        ensures
            final(self).wf(),
            r.index() == old(self)@.values.len(),
            final(self)@ == old(self)@.value_added(
                ValueInfo { kind: ValueKind::Unary(op, target.spec_to_rvalue()), ty, loc },
            ),
    {
        let a = target.to_rvalue();
        let id = self.push_value(ValueInfo { kind: ValueKind::Unary(op, a), ty, loc });
        RValue { id }
    }

    /// The comparison `op` of two values; its type is `bool`.
    pub fn new_comparison<L: ToRValue, R: ToRValue>(
        &mut self,
        loc: Option<Location>,
        op: ComparisonOp,
        left: L,
        right: R,
    ) -> (r: RValue)
        requires
            old(self).wf(),
            old(self)@.valid_loc(loc),
            old(self)@.valid_rvalue(left.spec_to_rvalue()),
            old(self)@.valid_rvalue(right.spec_to_rvalue()),
        ensures
            final(self).wf(),
            r.index() == old(self)@.values.len(),
            final(self)@ == old(self)@.value_added(
                ValueInfo {
                    kind: ValueKind::Comparison(op, left.spec_to_rvalue(), right.spec_to_rvalue()),
                    ty: old(self)@.primitive_type(PrimitiveKind::Bool),
                    loc,
                },
            ),
    {
        let a = left.to_rvalue();
        let b = right.to_rvalue();
        let ty = self.get_type(PrimitiveKind::Bool);
        let id = self.push_value(ValueInfo { kind: ValueKind::Comparison(op, a, b), ty, loc });
        RValue { id }
    }

    /// A call of `func` with the given arguments; its value has the
    /// function's return type (void for a void function, to be discarded
    /// with `add_eval`).
    pub fn new_call(&mut self, loc: Option<Location>, func: Function, args: &[RValue]) -> (r:
        RValue)
        requires
            old(self).wf(),
            old(self)@.valid_loc(loc),
            old(self)@.valid_function(func),
            old(self)@.valid_rvalues(args@),
        ensures
            final(self).wf(),
            r.index() == old(self)@.values.len(),
            final(self)@ == old(self)@.value_list_added(args@).value_added(
                ValueInfo {
                    kind: ValueKind::Call(func, old(self)@.value_lists.len() as usize),
                    ty: old(self)@.functions[func.index() as int].ret,
                    loc,
                },
            ),
    {
        let l = self.push_value_list(args);
        let ty = self.functions[func.id].ret;
        let id = self.push_value(ValueInfo { kind: ValueKind::Call(func, l), ty, loc });
        RValue { id }
    }

    /// A call through a function pointer with the given arguments; its
    /// value has the return type of the pointed-to function. A value that is
    /// not a function pointer is recorded as a misuse, and the call then has
    /// type void.
    pub fn new_call_through_ptr<F: ToRValue>(
        &mut self,
        loc: Option<Location>,
        fun_ptr: F,
        args: &[RValue],
    ) -> (r: RValue)
        requires
            old(self).wf(),
            old(self)@.valid_loc(loc),
            old(self)@.valid_rvalue(fun_ptr.spec_to_rvalue()),
            old(self)@.valid_rvalues(args@),
        ensures
            final(self).wf(),
            r.index() == old(self)@.values.len(),
            ({
                let m = old(self)@;
                let p = fun_ptr.spec_to_rvalue();
                let pty = m.values[p.index() as int].ty;
                let kind = ValueKind::CallThroughPtr(p, m.value_lists.len() as usize);
                match m.types[pty.index() as int] {
                    TypeKind::FunctionPtr(ret, _, _, _) => final(self)@ == m.value_list_added(
                        args@,
                    ).value_added(ValueInfo { kind, ty: ret, loc }),
                    _ => final(self)@ == m.value_list_added(args@).with_error(
                        ContextError::NotAFunctionPointer(p),
                    ).value_added(
                        ValueInfo { kind, ty: m.primitive_type(PrimitiveKind::Void), loc },
                    ),
                }
            }),
    {
        let p = fun_ptr.to_rvalue();
        let l = self.push_value_list(args);
        let pty = self.values[p.id].ty;
        let ty = match self.types[pty.id] {
            TypeKind::FunctionPtr(ret, _, _, _) => ret,
            _ => {
                self.record_error(ContextError::NotAFunctionPointer(p));
                self.get_type(PrimitiveKind::Void)
            },
        };
        let id = self.push_value(ValueInfo { kind: ValueKind::CallThroughPtr(p, l), ty, loc });
        RValue { id }
    }

    /// The value converted to `dest_type`. Whether the conversion is
    /// allowed is for the engine to decide.
    pub fn new_cast<T: ToRValue>(&mut self, loc: Option<Location>, value: T, dest_type: Type) -> (r:
        RValue)
        requires
            old(self).wf(),
            old(self)@.valid_loc(loc),
            old(self)@.valid_type(dest_type),
            old(self)@.valid_rvalue(value.spec_to_rvalue()),
        ensures
            final(self).wf(),
            r.index() == old(self)@.values.len(),
            final(self)@ == old(self)@.value_added(
                ValueInfo { kind: ValueKind::Cast(value.spec_to_rvalue()), ty: dest_type, loc },
            ),
    {
        let a = value.to_rvalue();
        let id = self.push_value(ValueInfo { kind: ValueKind::Cast(a), ty: dest_type, loc });
        RValue { id }
    }

    /// Records a value made from a pointer (`ptr[index]`, `*ptr`): it has
    /// the type that `ptr` points to; a value that is not a pointer or an
    /// array is recorded as a misuse, and the result then has type void.
    pub(crate) fn push_pointee_value(&mut self, loc: Option<Location>, ptr: RValue, kind: ValueKind) -> (r: usize)
        requires
            old(self).wf(),
            old(self)@.valid_loc(loc),
            old(self)@.valid_rvalue(ptr),
            old(self)@.value_kind_ok(kind),
        ensures
            final(self).wf(),
            r == old(self)@.values.len(),
            ({
                let m = old(self)@;
                match m.pointee(m.values[ptr.index() as int].ty) {
                    Some(t) => final(self)@ == m.value_added(ValueInfo { kind, ty: t, loc }),
                    None => final(self)@ == m.with_error(
                        ContextError::NotDereferenceable(ptr),
                    ).value_added(
                        ValueInfo { kind, ty: m.primitive_type(PrimitiveKind::Void), loc },
                    ),
                }
            }),
    {
        let pty = self.values[ptr.id].ty;
        let ty = match self.pointee_of(pty) {
            Some(t) => t,
            None => {
                self.record_error(ContextError::NotDereferenceable(ptr));
                self.get_type(PrimitiveKind::Void)
            },
        };
        self.push_value(ValueInfo { kind, ty, loc })
    }

    /// The element `array_ptr[index]`, as an lvalue of the element type.
    pub fn new_array_access<A: ToRValue, I: ToRValue>(
        &mut self,
        loc: Option<Location>,
        array_ptr: A,
        index: I,
    ) -> (r: LValue)
        requires
            old(self).wf(),
            old(self)@.valid_loc(loc),
            old(self)@.valid_rvalue(array_ptr.spec_to_rvalue()),
            old(self)@.valid_rvalue(index.spec_to_rvalue()),
        ensures
            final(self).wf(),
            r.index() == old(self)@.values.len(),
            ({
                let m = old(self)@;
                let p = array_ptr.spec_to_rvalue();
                let kind = ValueKind::ArrayAccess(p, index.spec_to_rvalue());
                match m.pointee(m.values[p.index() as int].ty) {
                    Some(t) => final(self)@ == m.value_added(ValueInfo { kind, ty: t, loc }),
                    None => final(self)@ == m.with_error(
                        ContextError::NotDereferenceable(p),
                    ).value_added(
                        ValueInfo { kind, ty: m.primitive_type(PrimitiveKind::Void), loc },
                    ),
                }
            }),
    {
        let p = array_ptr.to_rvalue();
        let i = index.to_rvalue();
        let id = self.push_pointee_value(loc, p, ValueKind::ArrayAccess(p, i));
        LValue { id }
    }
}

impl RValue {
    /// The type of the value.
    pub fn get_type(&self, ctx: &Context) -> (t: Type)
        requires
            ctx.wf(),
            ctx@.valid_rvalue(*self),
        ensures
            t == ctx@.values[self.index() as int].ty,
            ctx@.valid_type(t),
    {
        ctx.values[self.id].ty
    }

    /// The field `f` of this struct value (C's `x.f`); it has the field's
    /// type.
    pub fn access_field(&self, ctx: &mut Context, loc: Option<Location>, field: Field) -> (r:
        RValue)
        requires
            old(ctx).wf(),
            old(ctx)@.valid_rvalue(*self),
            old(ctx)@.valid_loc(loc),
            old(ctx)@.valid_field(field),
        ensures
            final(ctx).wf(),
            r.index() == old(ctx)@.values.len(),
            final(ctx)@ == old(ctx)@.value_added(
                ValueInfo {
                    kind: ValueKind::AccessField(*self, field),
                    ty: old(ctx)@.fields[field.index() as int].ty,
                    loc,
                },
            ),
    {
        let ty = ctx.fields[field.id].ty;
        let id = ctx.push_value(ValueInfo { kind: ValueKind::AccessField(*self, field), ty, loc });
        RValue { id }
    }

    /// The field `f` of the struct this pointer points to (C's `x->f`), as
    /// an lvalue of the field's type.
    pub fn dereference_field(&self, ctx: &mut Context, loc: Option<Location>, field: Field) -> (r:
        LValue)
        requires
            old(ctx).wf(),
            old(ctx)@.valid_rvalue(*self),
            old(ctx)@.valid_loc(loc),
            old(ctx)@.valid_field(field),
        ensures
            final(ctx).wf(),
            r.index() == old(ctx)@.values.len(),
            final(ctx)@ == old(ctx)@.value_added(
                ValueInfo {
                    kind: ValueKind::DereferenceField(*self, field),
                    ty: old(ctx)@.fields[field.index() as int].ty,
                    loc,
                },
            ),
    {
        let ty = ctx.fields[field.id].ty;
        let id = ctx.push_value(
            ValueInfo { kind: ValueKind::DereferenceField(*self, field), ty, loc },
        );
        LValue { id }
    }

    /// What this pointer points to (C's `*x`), as an lvalue of the pointed-to
    /// type.
    pub fn dereference(&self, ctx: &mut Context, loc: Option<Location>) -> (r: LValue)
        requires
            old(ctx).wf(),
            old(ctx)@.valid_rvalue(*self),
            old(ctx)@.valid_loc(loc),
        ensures
            final(ctx).wf(),
            r.index() == old(ctx)@.values.len(),
            ({
                let m = old(ctx)@;
                let kind = ValueKind::Dereference(*self);
                match m.pointee(m.values[self.index() as int].ty) {
                    Some(t) => final(ctx)@ == m.value_added(ValueInfo { kind, ty: t, loc }),
                    None => final(ctx)@ == m.with_error(
                        ContextError::NotDereferenceable(*self),
                    ).value_added(
                        ValueInfo { kind, ty: m.primitive_type(PrimitiveKind::Void), loc },
                    ),
                }
            }),
    {
        let id = ctx.push_pointee_value(loc, *self, ValueKind::Dereference(*self));
        LValue { id }
    }
}

} // verus!
