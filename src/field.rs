use vstd::prelude::*;

use crate::ctx::Context;
use crate::location::Location;
use crate::ty::Type;

verus! {

/// A named, typed slot of a struct or a union. A field can be placed in one
/// composite type only.
#[derive(Clone, Copy, PartialEq, Eq, Structural, Debug)]
pub struct Field {
    pub(crate) id: usize,
}

/// What the context records for a field: its type, its name (an index into
/// the context's strings), its location, and the composite type that holds
/// it, once it has been placed in one.
#[derive(Clone, Copy, PartialEq, Eq, Structural, Debug)]
pub struct FieldInfo {
    pub ty: Type,
    pub name: usize,
    pub loc: Option<Location>,
    pub container: Option<usize>,
}

impl Field {
    /// The debug string of the field: its name.
    pub fn debug_string(&self, ctx: &Context) -> (r: String)
        requires
            ctx.wf(),
            ctx@.valid_field(*self),
        ensures
            r@ == ctx@.strings[ctx@.fields[self.index() as int].name as int],
    {
        ctx.strings[ctx.fields[self.id].name].clone()
    }

    /// Position of the object in its context, for code that walks the
    /// context's tables.
    pub fn id(&self) -> (r: usize)
        ensures
            r == self.index(),
    {
        self.id
    }

    /// Position of the field in its context.
    pub open(crate) spec fn index(self) -> nat {
        self.id as nat
    }
}

} // verus!
