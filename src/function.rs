use vstd::prelude::*;

use crate::block::{Block, BlockInfo, Statement};
use crate::ctx::{Context, ContextModel};
use crate::location::Location;
use crate::lvalue::LValue;
use crate::parameter::Parameter;
use crate::prim::PrimitiveKind;
use crate::rvalue::{RValue, ValueInfo, ValueKind};
use crate::ty::{type_at, Type, TypeKind};

verus! {

/// How a function is visible outside the generated code and how it may be
/// inlined.
#[derive(Clone, Copy, PartialEq, Eq, Structural, Debug)]
pub enum FunctionType {
    /// Defined here and visible by name in the compiled result.
    Exported,
    /// Defined here and callable from generated code only.
    Internal,
    /// Defined elsewhere; only referred to here.
    Extern,
    /// Defined here and always inlined where it is called; invisible in the
    /// compiled result.
    AlwaysInline,
}

/// A function of the intermediate representation. Its body is made of the
/// blocks created for it.
#[derive(Clone, Copy, PartialEq, Eq, Structural, Debug)]
pub struct Function {
    pub(crate) id: usize,
}

/// What the context records for a function: its kind, return type,
/// parameters (an index into the context's parameter lists), name (an index
/// into the context's strings), variadic flag and location, and whether it
/// is one of the engine's builtins.
#[derive(Clone, Copy, PartialEq, Eq, Structural, Debug)]
pub struct FunctionInfo {
    pub kind: FunctionType,
    pub ret: Type,
    pub params: usize,
    pub name: usize,
    pub variadic: bool,
    pub loc: Option<Location>,
    pub builtin: bool,
}

impl Function {
    /// The debug string of the function: its name.
    pub fn debug_string(&self, ctx: &Context) -> (r: String)
        requires
            ctx.wf(),
            ctx@.valid_function(*self),
        ensures
            r@ == ctx@.strings[ctx@.functions[self.index() as int].name as int],
    {
        ctx.strings[ctx.functions[self.id].name].clone()
    }

    /// Position of the object in its context, for code that walks the
    /// context's tables.
    pub fn id(&self) -> (r: usize)
        ensures
            r == self.index(),
    {
        self.id
    }

    /// Position of the function in its context.
    pub open(crate) spec fn index(self) -> nat {
        self.id as nat
    }
}

impl ContextModel {
    /// The model with one more function and its list of parameters.
    pub open(crate) spec fn function_added(self, info: FunctionInfo, params: Seq<Parameter>) -> ContextModel {
        ContextModel {
            functions: self.functions.push(info),
            param_lists: self.param_lists.push(params),
            ..self
        }
    }

    /// The parameters of a function.
    pub open(crate) spec fn params_of(self, f: Function) -> Seq<Parameter> {
        self.param_lists[self.functions[f.id as int].params as int]
    }

    /// The model with one more open block of function `f`.
    pub open(crate) spec fn block_added(self, f: Function, name: usize) -> ContextModel {
        ContextModel {
            blocks: self.blocks.push(BlockInfo { func: f, name, terminator: None }),
            statements: self.statements.push(Seq::<Statement>::empty()),
            ..self
        }
    }
}

impl<'a> Context<'a> {
    /// Records a function with its parameters.
    pub(crate) fn push_function(&mut self, info: FunctionInfo, params: &[Parameter]) -> (f: Function)
        requires
            old(self).wf(),
            old(self)@.valid_type(info.ret),
            old(self)@.valid_string(info.name),
            old(self)@.valid_loc(info.loc),
            info.params == old(self)@.param_lists.len(),
            old(self)@.valid_parameters(params@),
        ensures
            final(self).wf(),
            f.index() == old(self)@.functions.len(),
            final(self)@ == old(self)@.function_added(info, params@),
    {
        let ghost m = self@;
        let id = self.functions.len();
        let list = crate::structs::copy_slice(params);
        self.param_lists.push(list);
        self.functions.push(info);
        assert(self@.param_lists =~= m.param_lists.push(params@));
        assert(self@ =~= m.function_added(info, params@));
        proof {
            let n = self@;
            assert forall|l: int, k: int|
                0 <= l < n.param_lists.len() && 0 <= k < n.param_lists[l].len() implies #[trigger] n.param_lists[l][k].id
                < n.values.len() by {
                if l < m.param_lists.len() {
                    assert(m.param_lists[l][k].id < m.values.len());
                } else {
                    assert(m.valid_parameter(params@[k]));
                }
            }
            assert forall|i: int| 0 <= i < n.values.len() implies {
                let x = #[trigger] n.values[i];
                &&& n.valid_type(x.ty)
                &&& n.valid_loc(x.loc)
                &&& n.value_kind_ok(x.kind)
            } by {
                let x = m.values[i];
                assert(m.value_kind_ok(x.kind));
            }
            assert forall|b: int| 0 <= b < n.blocks.len() implies {
                let x = #[trigger] n.blocks[b];
                &&& n.valid_function(x.func)
                &&& n.valid_string(x.name)
                &&& (x.terminator matches Some(t) ==> n.terminator_ok(t))
            } by {
                let x = m.blocks[b];
                if x.terminator is Some {
                    assert(m.terminator_ok(x.terminator->0));
                }
            }
        }
        Function { id }
    }

    /// A function of the given kind, return type, parameters and name; its
    /// body is made of the blocks created for it afterwards.
    pub fn new_function(
        &mut self,
        loc: Option<Location>,
        kind: FunctionType,
        return_ty: Type,
        params: &[Parameter],
        name: &str,
        is_variadic: bool,
    ) -> (f: Function)
        requires
            old(self).wf(),
            old(self)@.valid_loc(loc),
            old(self)@.valid_type(return_ty),
            old(self)@.valid_parameters(params@),
        ensures
            final(self).wf(),
            f.index() == old(self)@.functions.len(),
            final(self)@ == old(self)@.string_added(name@).function_added(
                FunctionInfo {
                    kind,
                    ret: return_ty,
                    params: old(self)@.param_lists.len() as usize,
                    name: old(self)@.strings.len() as usize,
                    variadic: is_variadic,
                    loc,
                    builtin: false,
                },
                params@,
            ),
    {
        let name_id = self.add_string(name);
        let l = self.param_lists.len();
        let info = FunctionInfo {
            kind,
            ret: return_ty,
            params: l,
            name: name_id,
            variadic: is_variadic,
            loc,
            builtin: false,
        };
        self.push_function(info, params)
    }

    /// One of the engine's builtin functions, by name. The engine knows its
    /// signature; the context records it as an imported function returning
    /// void with no parameters listed.
    pub fn get_builtin_function(&mut self, name: &str) -> (f: Function)
        requires
            old(self).wf(),
        ensures
            final(self).wf(),
            f.index() == old(self)@.functions.len(),
            final(self)@ == old(self)@.string_added(name@).function_added(
                FunctionInfo {
                    kind: FunctionType::Extern,
                    ret: old(self)@.primitive_type(PrimitiveKind::Void),
                    params: old(self)@.param_lists.len() as usize,
                    name: old(self)@.strings.len() as usize,
                    variadic: false,
                    loc: None,
                    builtin: true,
                },
                Seq::<Parameter>::empty(),
            ),
    {
        let name_id = self.add_string(name);
        let l = self.param_lists.len();
        let ret = self.get_type(PrimitiveKind::Void);
        let info = FunctionInfo {
            kind: FunctionType::Extern,
            ret,
            params: l,
            name: name_id,
            variadic: false,
            loc: None,
            builtin: true,
        };
        let none: Vec<Parameter> = Vec::new();
        proof {
            assert(self@.valid_parameters(none@));
        }
        let f = self.push_function(info, none.as_slice());
        assert(none@ =~= Seq::<Parameter>::empty());
        f
    }
}

impl Function {
    /// The parameter at position `idx`.
    pub fn get_param(&self, ctx: &Context, idx: i32) -> (p: Parameter)
        requires
            ctx.wf(),
            ctx@.valid_function(*self),
            0 <= idx < ctx@.params_of(*self).len(),
        ensures
            p == ctx@.params_of(*self)[idx as int],
            ctx@.valid_value(p.index() as usize),
    {
        let l = ctx.functions[self.id].params;
        ctx.param_lists[l][idx as usize]
    }

    /// A new open block of this function.
    pub fn new_block(&self, ctx: &mut Context, name: &str) -> (b: Block)
        requires
            old(ctx).wf(),
            old(ctx)@.valid_function(*self),
        ensures
            final(ctx).wf(),
            b.index() == old(ctx)@.blocks.len(),
            final(ctx)@ == old(ctx)@.string_added(name@).block_added(
                *self,
                old(ctx)@.strings.len() as usize,
            ),
    {
        let ghost m = ctx@;
        let name_id = ctx.add_string(name);
        let id = ctx.blocks.len();
        ctx.blocks.push(BlockInfo { func: *self, name: name_id, terminator: None });
        ctx.statements.push(Vec::new());
        assert(ctx@.statements =~= m.string_added(name@).block_added(*self, name_id).statements);
        assert(ctx@ =~= m.string_added(name@).block_added(*self, name_id));
        proof {
            let n = ctx@;
            assert forall|b: int, k: int|
                0 <= b < n.statements.len() && 0 <= k < n.statements[b].len() implies n.statement_ok(
                #[trigger] n.statements[b][k],
            ) by {
                assert(m.statement_ok(m.statements[b][k]));
            }
            assert forall|b: int| 0 <= b < n.blocks.len() implies {
                let x = #[trigger] n.blocks[b];
                &&& n.valid_function(x.func)
                &&& n.valid_string(x.name)
                &&& (x.terminator matches Some(t) ==> n.terminator_ok(t))
            } by {
                if b < m.blocks.len() {
                    let x = m.blocks[b];
                    if x.terminator is Some {
                        assert(m.terminator_ok(x.terminator->0));
                    }
                }
            }
            assert forall|c: int| 0 <= c < n.cases.len() implies {
                let x = #[trigger] n.cases[c];
                &&& n.valid_value(x.min.id)
                &&& n.valid_value(x.max.id)
                &&& n.valid_block(x.dest)
            } by {
                assert(m.valid_block(m.cases[c].dest));
            }
        }
        Block { id }
    }

    /// A new local variable of this function, of the given type and name.
    pub fn new_local(&self, ctx: &mut Context, loc: Option<Location>, ty: Type, name: &str) -> (l:
        LValue)
        requires
            old(ctx).wf(),
            old(ctx)@.valid_function(*self),
            old(ctx)@.valid_loc(loc),
            old(ctx)@.valid_type(ty),
        ensures
            final(ctx).wf(),
            l.index() == old(ctx)@.values.len(),
            final(ctx)@ == old(ctx)@.string_added(name@).value_added(
                ValueInfo {
                    kind: ValueKind::Local(*self, old(ctx)@.strings.len() as usize),
                    ty,
                    loc,
                },
            ),
    {
        let name_id = ctx.add_string(name);
        let id = ctx.push_value(ValueInfo { kind: ValueKind::Local(*self, name_id), ty, loc });
        LValue { id }
    }

    /// The address of this function: a value of the function-pointer type
    /// made from its return type, parameter types and variadic flag.
    pub fn get_address(&self, ctx: &mut Context, loc: Option<Location>) -> (r: RValue)
        requires
            old(ctx).wf(),
            old(ctx)@.valid_function(*self),
            old(ctx)@.valid_loc(loc),
        ensures
            final(ctx).wf(),
            ({
                let m = old(ctx)@;
                let info = m.functions[self.index() as int];
                let tys = m.params_of(*self).map_values(|p: Parameter| m.values[p.index() as int].ty);
                let m1 = m.type_list_added(tys).type_added(
                    TypeKind::FunctionPtr(info.ret, m.type_lists.len() as usize, info.variadic, None),
                );
                &&& r.index() == m.values.len()
                &&& final(ctx)@ == m1.value_added(
                    ValueInfo {
                        kind: ValueKind::FunctionAddress(*self),
                        ty: type_at(m.types.len()),
                        loc,
                    },
                )
            }),
    {
        let ghost m = ctx@;
        let info = ctx.functions[self.id];
        let mut tys: Vec<Type> = Vec::new();
        let n = ctx.param_lists[info.params].len();
        let mut i: usize = 0;
        while i < n
            invariant
                ctx@ == m,
                m.wf(),
                info == m.functions[self.id as int],
                info.params < m.param_lists.len(),
                n == m.params_of(*self).len(),
                i <= n,
                tys@ == m.params_of(*self).subrange(0, i as int).map_values(
                    |p: Parameter| m.values[p.index() as int].ty,
                ),
                m.valid_types(tys@),
            decreases n - i,
        {
            let p = ctx.param_lists[info.params][i];
            proof {
                assert(m.params_of(*self)[i as int].id < m.values.len());
            }
            let t = ctx.values[p.id].ty;
            tys.push(t);
            proof {
                assert(m.params_of(*self).subrange(0, i as int + 1).map_values(
                    |p: Parameter| m.values[p.index() as int].ty,
                ) =~= tys@);
            }
            i = i + 1;
        }
        assert(m.params_of(*self).subrange(0, n as int) =~= m.params_of(*self));
        assert(tys@ =~= m.params_of(*self).map_values(|p: Parameter| m.values[p.index() as int].ty));
        let l = ctx.push_type_list(tys.as_slice());
        let t = ctx.push_type(TypeKind::FunctionPtr(info.ret, l, info.variadic, None));
        let id = ctx.push_value(ValueInfo { kind: ValueKind::FunctionAddress(*self), ty: t, loc });
        RValue { id }
    }
}

} // verus!
