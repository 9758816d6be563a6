use vstd::prelude::*;

use crate::ctx::{Context, ContextModel};
use crate::location::Location;
use crate::lvalue::{LValue, ToLValue};
use crate::rvalue::{RValue, ToRValue, ValueInfo, ValueKind};
use crate::ty::Type;

verus! {

/// A formal parameter of a function. It is storage, so it serves both as an
/// lvalue and as an rvalue (its current value).
#[derive(Clone, Copy, PartialEq, Eq, Structural, Debug)]
pub struct Parameter {
    pub(crate) id: usize,
}

impl Parameter {
    /// The debug string of the parameter: its name.
    pub fn debug_string(&self, ctx: &Context) -> (r: String)
        requires
            ctx.wf(),
            ctx@.valid_parameter(*self),
        ensures
            ctx@.values[self.index() as int].kind matches ValueKind::Parameter(name) && r@
                == ctx@.strings[name as int],
    {
        match ctx.values[self.id].kind {
            ValueKind::Parameter(name) => ctx.strings[name].clone(),
            _ => String::new(),
        }
    }

    /// Position of the object in its context, for code that walks the
    /// context's tables.
    pub fn id(&self) -> (r: usize)
        ensures
            r == self.index(),
    {
        self.id
    }

    /// Position of the parameter among the values of its context.
    pub open(crate) spec fn index(self) -> nat {
        self.id as nat
    }
}

impl ToRValue for Parameter {
    open spec fn spec_to_rvalue(&self) -> RValue {
        self.as_rvalue()
    }

    fn to_rvalue(&self) -> (r: RValue) {
        RValue { id: self.id }
    }
}

impl ToLValue for Parameter {
    open spec fn spec_to_lvalue(&self) -> LValue {
        self.as_lvalue()
    }

    fn to_lvalue(&self) -> (r: LValue) {
        LValue { id: self.id }
    }
}

impl Parameter {
    /// The parameter used for its value: the same object of the context.
    pub open(crate) spec fn as_rvalue(self) -> RValue {
        RValue { id: self.id }
    }

    /// The parameter used as storage: the same object of the context.
    pub open(crate) spec fn as_lvalue(self) -> LValue {
        LValue { id: self.id }
    }
}

impl ContextModel {
    pub open(crate) spec fn valid_parameter(self, p: Parameter) -> bool {
        p.id < self.values.len() && self.values[p.id as int].kind is Parameter
    }

    pub open(crate) spec fn valid_parameters(self, ps: Seq<Parameter>) -> bool {
        forall|i: int| 0 <= i < ps.len() ==> self.valid_parameter(#[trigger] ps[i])
    }
}

impl<'a> Context<'a> {
    /// A new parameter of the given type and name, to be given to one
    /// function.
    pub fn new_parameter(&mut self, loc: Option<Location>, ty: Type, name: &str) -> (p: Parameter)
        requires
            old(self).wf(),
            old(self)@.valid_loc(loc),
            old(self)@.valid_type(ty),
        ensures
            final(self).wf(),
            p.index() == old(self)@.values.len(),
            final(self)@.valid_parameter(p),
            final(self)@ == old(self)@.string_added(name@).value_added(
                ValueInfo {
                    kind: ValueKind::Parameter(old(self)@.strings.len() as usize),
                    ty,
                    loc,
                },
            ),
    {
        let s = self.add_string(name);
        let id = self.push_value(ValueInfo { kind: ValueKind::Parameter(s), ty, loc });
        Parameter { id }
    }
}

} // verus!
