use vstd::prelude::*;

use crate::ctx::{Context, ContextModel};
use crate::text::{append, append_signed, signed_decimal};

verus! {

/// A source position (file, line, column) attached to an IR object so that a
/// debugger can show the source that produced it. It never changes what the
/// code does.
#[derive(Clone, Copy, PartialEq, Eq, Structural, Debug)]
pub struct Location {
    pub(crate) id: usize,
}

/// What the context records for a location: the file name (an index into
/// the context's strings), the line and the column.
#[derive(Clone, Copy, PartialEq, Eq, Structural, Debug)]
pub struct LocationInfo {
    pub file: usize,
    pub line: i32,
    pub col: i32,
}

impl Location {
    /// The debug string of the location: `file:line:column`.
    pub fn debug_string(&self, ctx: &Context) -> (r: String)
        requires
            ctx.wf(),
            ctx@.valid_location(*self),
        ensures
            ({
                let info = ctx@.locations[self.index() as int];
                r@ == ctx@.strings[info.file as int] + ":"@ + signed_decimal(info.line as int)
                    + ":"@ + signed_decimal(info.col as int)
            }),
    {
        let info = ctx.locations[self.id];
        let mut out = ctx.strings[info.file].clone();
        append(&mut out, ":");
        append_signed(&mut out, info.line);
        append(&mut out, ":");
        append_signed(&mut out, info.col);
        out
    }

    /// Position of the object in its context, for code that walks the
    /// context's tables.
    pub fn id(&self) -> (r: usize)
        ensures
            r == self.index(),
    {
        self.id
    }

    /// Position of the location in its context.
    pub open(crate) spec fn index(self) -> nat {
        self.id as nat
    }
}

impl<'a> Context<'a> {
    /// A source position for a debugger: the file, the line and the column.
    pub fn new_location(&mut self, filename: &str, line: i32, col: i32) -> (l: Location)
        requires
            old(self).wf(),
        ensures
            final(self).wf(),
            l.index() == old(self)@.locations.len(),
            final(self)@ == (ContextModel {
                locations: old(self)@.locations.push(
                    LocationInfo { file: old(self)@.strings.len() as usize, line, col },
                ),
                ..old(self)@.string_added(filename@)
            }),
    {
        let id = self.locations.len();
        let file = self.add_string(filename);
        self.locations.push(LocationInfo { file, line, col });
        Location { id }
    }
}

} // verus!
