use vstd::prelude::*;

use crate::ctx::{Context, ContextError, ContextModel};
use crate::function::Function;
use crate::location::Location;
use crate::lvalue::{LValue, ToLValue};
use crate::rvalue::{RValue, ToRValue};

verus! {

/// The binary operations that the code generator knows.
#[derive(Clone, Copy, PartialEq, Eq, Structural, Debug)]
pub enum BinaryOp {
    Plus,
    Minus,
    Mult,
    Divide,
    Modulo,
    BitwiseAnd,
    BitwiseXor,
    BitwiseOr,
    LogicalAnd,
    LogicalOr,
    LShift,
    RShift,
}

/// The unary operations that the code generator knows.
#[derive(Clone, Copy, PartialEq, Eq, Structural, Debug)]
pub enum UnaryOp {
    Minus,
    BitwiseNegate,
    LogicalNegate,
    Abs,
}

/// The comparisons that the code generator knows.
#[derive(Clone, Copy, PartialEq, Eq, Structural, Debug)]
pub enum ComparisonOp {
    Equals,
    NotEquals,
    LessThan,
    LessThanEquals,
    GreaterThan,
    GreaterThanEquals,
}

/// One arm of a switch: the range `[min, max]` of constant values and the
/// block that they lead to.
#[derive(Clone, Copy, PartialEq, Eq, Structural, Debug)]
pub struct Case {
    pub(crate) id: usize,
}

/// What the context records for a case.
#[derive(Clone, Copy, PartialEq, Eq, Structural, Debug)]
pub struct CaseInfo {
    pub min: RValue,
    pub max: RValue,
    pub dest: Block,
}

/// A basic block: statements run in order, then exactly one terminator.
#[derive(Clone, Copy, PartialEq, Eq, Structural, Debug)]
pub struct Block {
    pub(crate) id: usize,
}

/// A statement that does not end its block.
#[derive(Clone, Copy, PartialEq, Eq, Structural, Debug)]
pub enum Statement {
    Eval(Option<Location>, RValue),
    Assignment(Option<Location>, LValue, RValue),
    AssignmentOp(Option<Location>, LValue, BinaryOp, RValue),
    /// A comment; the text is an index into the context's strings.
    Comment(Option<Location>, usize),
}

/// The statement that ends a block. The cases of a switch are an index into
/// the context's case lists.
#[derive(Clone, Copy, PartialEq, Eq, Structural, Debug)]
pub enum Terminator {
    Conditional(Option<Location>, RValue, Block, Block),
    Jump(Option<Location>, Block),
    Switch(Option<Location>, RValue, Block, usize),
    Return(Option<Location>, RValue),
    VoidReturn(Option<Location>),
}

/// What the context records for a block: the function that owns it, its
/// name (an index into the context's strings) and its terminator, which is
/// `None` while the block is open.
#[derive(Clone, Copy, PartialEq, Eq, Structural, Debug)]
pub struct BlockInfo {
    pub func: Function,
    pub name: usize,
    pub terminator: Option<Terminator>,
}

impl Block {
    /// The debug string of the block: its name.
    pub fn debug_string(&self, ctx: &Context) -> (r: String)
        requires
            ctx.wf(),
            ctx@.valid_block(*self),
        ensures
            r@ == ctx@.strings[ctx@.blocks[self.index() as int].name as int],
    {
        ctx.strings[ctx.blocks[self.id].name].clone()
    }

    /// Position of the object in its context, for code that walks the
    /// context's tables.
    pub fn id(&self) -> (r: usize)
        ensures
            r == self.index(),
    {
        self.id
    }

    /// Position of the block in its context.
    pub open(crate) spec fn index(self) -> nat {
        self.id as nat
    }
}

impl Case {
    /// Position of the object in its context, for code that walks the
    /// context's tables.
    pub fn id(&self) -> (r: usize)
        ensures
            r == self.index(),
    {
        self.id
    }

    /// Position of the case in its context.
    pub open(crate) spec fn index(self) -> nat {
        self.id as nat
    }
}

impl ContextModel {
    /// Whether the block has its terminator.
    pub open(crate) spec fn is_terminated(self, b: Block) -> bool {
        self.blocks[b.id as int].terminator is Some
    }

    /// The model once `st` is appended to block `b`: an open block receives
    /// it; a terminated one is left as it is and the misuse is recorded.
    pub open(crate) spec fn statement_added(self, b: Block, st: Statement) -> ContextModel {
        if self.is_terminated(b) {
            self.with_error(ContextError::BlockTerminated(b))
        } else {
            ContextModel {
                statements: self.statements.update(
                    b.id as int,
                    self.statements[b.id as int].push(st),
                ),
                ..self
            }
        }
    }

    /// The model once block `b` is ended by `t`: an open block becomes
    /// terminated; a terminated one is left as it is and the misuse is
    /// recorded.
    pub open(crate) spec fn terminated_with(self, b: Block, t: Terminator) -> ContextModel {
        if self.is_terminated(b) {
            self.with_error(ContextError::BlockTerminated(b))
        } else {
            ContextModel {
                blocks: self.blocks.update(
                    b.id as int,
                    BlockInfo { terminator: Some(t), ..self.blocks[b.id as int] },
                ),
                ..self
            }
        }
    }

    /// The model with one more list of cases.
    pub open(crate) spec fn case_list_added(self, l: Seq<Case>) -> ContextModel {
        ContextModel { case_lists: self.case_lists.push(l), ..self }
    }

    pub open(crate) spec fn valid_cases(self, cs: Seq<Case>) -> bool {
        forall|i: int| 0 <= i < cs.len() ==> self.valid_case(#[trigger] cs[i])
    }
}

impl<'a> Context<'a> {
    /// Appends a statement to an open block; see `statement_added`.
    pub(crate) fn add_statement(&mut self, b: Block, st: Statement)
        requires
            old(self).wf(),
            old(self)@.valid_block(b),
            old(self)@.statement_ok(st),
        ensures
            final(self).wf(),
            final(self)@ == old(self)@.statement_added(b, st),
    {
        let ghost m = self@;
        if self.blocks[b.id].terminator.is_some() {
            self.record_error(ContextError::BlockTerminated(b));
            return ;
        }
        let mut list = self.statements[b.id].clone();
        assert(list@ =~= m.statements[b.id as int]);
        list.push(st);
        self.statements.set(b.id, list);
        assert(self@.statements =~= m.statements.update(
            b.id as int,
            m.statements[b.id as int].push(st),
        ));
        assert(self@ =~= m.statement_added(b, st));
        proof {
            let n = self@;
            assert forall|x: int, k: int|
                0 <= x < n.statements.len() && 0 <= k < n.statements[x].len() implies n.statement_ok(
                #[trigger] n.statements[x][k],
            ) by {
                if x != b.id || k < m.statements[x].len() {
                    assert(m.statement_ok(m.statements[x][k]));
                }
            }
        }
    }

    /// Ends an open block with a terminator; see `terminated_with`.
    pub(crate) fn terminate(&mut self, b: Block, t: Terminator)
        requires
            old(self).wf(),
            old(self)@.valid_block(b),
            old(self)@.terminator_ok(t),
        ensures
            final(self).wf(),
            final(self)@ == old(self)@.terminated_with(b, t),
    {
        let ghost m = self@;
        if self.blocks[b.id].terminator.is_some() {
            self.record_error(ContextError::BlockTerminated(b));
            return ;
        }
        let info = BlockInfo { terminator: Some(t), ..self.blocks[b.id] };
        self.blocks.set(b.id, info);
        assert(self@ =~= m.terminated_with(b, t));
        proof {
            let n = self@;
            assert forall|x: int| 0 <= x < n.blocks.len() implies {
                let y = #[trigger] n.blocks[x];
                &&& n.valid_function(y.func)
                &&& n.valid_string(y.name)
                &&& (y.terminator matches Some(t) ==> n.terminator_ok(t))
            } by {
                let y = m.blocks[x];
                if y.terminator is Some {
                    assert(m.terminator_ok(y.terminator->0));
                }
            }
        }
    }

    /// A case of a switch: the values from `min_value` to `max_value`, both
    /// constants, lead to `dest_block`.
    pub fn new_case<A: ToRValue, B: ToRValue>(
        &mut self,
        min_value: A,
        max_value: B,
        dest_block: Block,
    ) -> (c: Case)
        requires
            old(self).wf(),
            old(self)@.valid_rvalue(min_value.spec_to_rvalue()),
            old(self)@.valid_rvalue(max_value.spec_to_rvalue()),
            old(self)@.valid_block(dest_block),
        ensures
            final(self).wf(),
            c.index() == old(self)@.cases.len(),
            final(self)@ == (ContextModel {
                cases: old(self)@.cases.push(
                    CaseInfo {
                        min: min_value.spec_to_rvalue(),
                        max: max_value.spec_to_rvalue(),
                        dest: dest_block,
                    },
                ),
                ..old(self)@
            }),
    {
        let id = self.cases.len();
        let min = min_value.to_rvalue();
        let max = max_value.to_rvalue();
        self.cases.push(CaseInfo { min, max, dest: dest_block });
        Case { id }
    }
}

impl Block {
    /// The function that owns this block.
    pub fn get_function(&self, ctx: &Context) -> (f: Function)
        requires
            ctx.wf(),
            ctx@.valid_block(*self),
        ensures
            f == ctx@.blocks[self.index() as int].func,
            ctx@.valid_function(f),
    {
        ctx.blocks[self.id].func
    }

    /// Evaluates the value and discards it, as C's `(void)expr;`.
    pub fn add_eval<T: ToRValue>(&self, ctx: &mut Context, loc: Option<Location>, value: T)
        requires
            old(ctx).wf(),
            old(ctx)@.valid_block(*self),
            old(ctx)@.valid_loc(loc),
            old(ctx)@.valid_rvalue(value.spec_to_rvalue()),
        ensures
            final(ctx).wf(),
            final(ctx)@ == old(ctx)@.statement_added(
                *self,
                Statement::Eval(loc, value.spec_to_rvalue()),
            ),
    {
        let v = value.to_rvalue();
        ctx.add_statement(*self, Statement::Eval(loc, v));
    }

    /// Assigns the value to the lvalue, as C's `lvalue = rvalue;`.
    pub fn add_assignment<L: ToLValue, R: ToRValue>(
        &self,
        ctx: &mut Context,
        loc: Option<Location>,
        assign_target: L,
        value: R,
    )
        requires
            old(ctx).wf(),
            old(ctx)@.valid_block(*self),
            old(ctx)@.valid_loc(loc),
            old(ctx)@.valid_lvalue(assign_target.spec_to_lvalue()),
            old(ctx)@.valid_rvalue(value.spec_to_rvalue()),
        ensures
            final(ctx).wf(),
            final(ctx)@ == old(ctx)@.statement_added(
                *self,
                Statement::Assignment(loc, assign_target.spec_to_lvalue(), value.spec_to_rvalue()),
            ),
    {
        let l = assign_target.to_lvalue();
        let v = value.to_rvalue();
        ctx.add_statement(*self, Statement::Assignment(loc, l, v));
    }

    /// Applies `op` to the lvalue and the value and stores the result in
    /// the lvalue, as C's `+=`, `*=` and the like.
    pub fn add_assignment_op<L: ToLValue, R: ToRValue>(
        &self,
        ctx: &mut Context,
        loc: Option<Location>,
        assign_target: L,
        op: BinaryOp,
        value: R,
    )
        requires
            old(ctx).wf(),
            old(ctx)@.valid_block(*self),
            old(ctx)@.valid_loc(loc),
            old(ctx)@.valid_lvalue(assign_target.spec_to_lvalue()),
            old(ctx)@.valid_rvalue(value.spec_to_rvalue()),
        ensures
            final(ctx).wf(),
            final(ctx)@ == old(ctx)@.statement_added(
                *self,
                Statement::AssignmentOp(
                    loc,
                    assign_target.spec_to_lvalue(),
                    op,
                    value.spec_to_rvalue(),
                ),
            ),
    {
        let l = assign_target.to_lvalue();
        let v = value.to_rvalue();
        ctx.add_statement(*self, Statement::AssignmentOp(loc, l, op, v));
    }

    /// Adds a comment, which the engine keeps in its dumps of the code.
    pub fn add_comment(&self, ctx: &mut Context, loc: Option<Location>, message: &str)
        requires
            old(ctx).wf(),
            old(ctx)@.valid_block(*self),
            old(ctx)@.valid_loc(loc),
        ensures
            final(ctx).wf(),
            final(ctx)@ == old(ctx)@.string_added(message@).statement_added(
                *self,
                Statement::Comment(loc, old(ctx)@.strings.len() as usize),
            ),
    {
        let t = ctx.add_string(message);
        ctx.add_statement(*self, Statement::Comment(loc, t));
    }

    /// Ends the block with a branch to `on_true` or `on_false`, as the
    /// boolean `cond` is true or false when it runs.
    pub fn end_with_conditional<T: ToRValue>(
        &self,
        ctx: &mut Context,
        loc: Option<Location>,
        cond: T,
        on_true: Block,
        on_false: Block,
    )
        requires
            old(ctx).wf(),
            old(ctx)@.valid_block(*self),
            old(ctx)@.valid_loc(loc),
            old(ctx)@.valid_rvalue(cond.spec_to_rvalue()),
            old(ctx)@.valid_block(on_true),
            old(ctx)@.valid_block(on_false),
        ensures
            final(ctx).wf(),
            final(ctx)@ == old(ctx)@.terminated_with(
                *self,
                Terminator::Conditional(loc, cond.spec_to_rvalue(), on_true, on_false),
            ),
    {
        let c = cond.to_rvalue();
        ctx.terminate(*self, Terminator::Conditional(loc, c, on_true, on_false));
    }

    /// Ends the block with a jump to `target`.
    pub fn end_with_jump(&self, ctx: &mut Context, loc: Option<Location>, target: Block)
        requires
            old(ctx).wf(),
            old(ctx)@.valid_block(*self),
            old(ctx)@.valid_loc(loc),
            old(ctx)@.valid_block(target),
        ensures
            final(ctx).wf(),
            final(ctx)@ == old(ctx)@.terminated_with(*self, Terminator::Jump(loc, target)),
    {
        ctx.terminate(*self, Terminator::Jump(loc, target));
    }

    /// Ends the block with a switch on `expr`: control goes to the case
    /// whose range holds its value, or to `default_block` when none does.
    /// The ranges must not overlap.
    pub fn end_with_switch<T: ToRValue>(
        &self,
        ctx: &mut Context,
        loc: Option<Location>,
        expr: T,
        default_block: Block,
        cases: Vec<Case>,
    )
        requires
            old(ctx).wf(),
            old(ctx)@.valid_block(*self),
            old(ctx)@.valid_loc(loc),
            old(ctx)@.valid_rvalue(expr.spec_to_rvalue()),
            old(ctx)@.valid_block(default_block),
            old(ctx)@.valid_cases(cases@),
        ensures
            final(ctx).wf(),
            final(ctx)@ == old(ctx)@.case_list_added(cases@).terminated_with(
                *self,
                Terminator::Switch(
                    loc,
                    expr.spec_to_rvalue(),
                    default_block,
                    old(ctx)@.case_lists.len() as usize,
                ),
            ),
    {
        let ghost m = ctx@;
        let e = expr.to_rvalue();
        let l = ctx.case_lists.len();
        ctx.case_lists.push(cases);
        assert(ctx@.case_lists =~= m.case_lists.push(cases@));
        assert(ctx@ =~= m.case_list_added(cases@));
        proof {
            let n = ctx@;
            assert forall|x: int, k: int|
                0 <= x < n.case_lists.len() && 0 <= k < n.case_lists[x].len() implies #[trigger] n.case_lists[x][k].id
                < n.cases.len() by {
                if x < m.case_lists.len() {
                    assert(m.case_lists[x][k].id < m.cases.len());
                } else {
                    assert(m.valid_case(cases@[k]));
                }
            }
            assert forall|x: int| 0 <= x < n.blocks.len() implies {
                let y = #[trigger] n.blocks[x];
                &&& n.valid_function(y.func)
                &&& n.valid_string(y.name)
                &&& (y.terminator matches Some(t) ==> n.terminator_ok(t))
            } by {
                let y = m.blocks[x];
                if y.terminator is Some {
                    assert(m.terminator_ok(y.terminator->0));
                }
            }
        }
        ctx.terminate(*self, Terminator::Switch(loc, e, default_block, l));
    }

    /// Ends the block by returning the value from the function; the
    /// function must not return void.
    pub fn end_with_return<T: ToRValue>(&self, ctx: &mut Context, loc: Option<Location>, ret: T)
        requires
            old(ctx).wf(),
            old(ctx)@.valid_block(*self),
            old(ctx)@.valid_loc(loc),
            old(ctx)@.valid_rvalue(ret.spec_to_rvalue()),
        ensures
            final(ctx).wf(),
            final(ctx)@ == old(ctx)@.terminated_with(
                *self,
                Terminator::Return(loc, ret.spec_to_rvalue()),
            ),
    {
        let v = ret.to_rvalue();
        ctx.terminate(*self, Terminator::Return(loc, v));
    }

    /// Ends the block by returning from a function that returns void.
    pub fn end_with_void_return(&self, ctx: &mut Context, loc: Option<Location>)
        requires
            old(ctx).wf(),
            old(ctx)@.valid_block(*self),
            old(ctx)@.valid_loc(loc),
        ensures
            final(ctx).wf(),
            final(ctx)@ == old(ctx)@.terminated_with(*self, Terminator::VoidReturn(loc)),
    {
        ctx.terminate(*self, Terminator::VoidReturn(loc));
    }
}

} // verus!
