use gccjit_rs::block::{BinaryOp, ComparisonOp, Statement, Terminator, UnaryOp};
use gccjit_rs::ctx::{CompileError, Context, ContextError, OptimizationLevel};
use gccjit_rs::function::FunctionType;
use gccjit_rs::lvalue::ToLValue;
use gccjit_rs::prim::PrimitiveKind;
use gccjit_rs::rvalue::{RValue, ToRValue, ValueKind};

#[test]
fn add_four_then_two_is_recorded_and_validates() {
    let mut ctx = Context::new();
    let int = ctx.new_type::<i32>();
    let n = ctx.new_parameter(None, int, "n");
    let f = ctx.new_function(None, FunctionType::Exported, int, &[n], "add", false);
    let block = f.new_block(&mut ctx, "entry");
    let local = f.new_local(&mut ctx, None, int, "tmp");
    let four = ctx.new_rvalue_from_int(int, 4);
    let sum = ctx.new_binary_op(None, BinaryOp::Plus, int, f.get_param(&ctx, 0), four);
    block.add_assignment(&mut ctx, None, local, sum);
    let two = ctx.new_rvalue_from_int(int, 2);
    let result = ctx.new_binary_op(None, BinaryOp::Plus, int, local, two);
    block.end_with_return(&mut ctx, None, result);
    assert_eq!(ctx.validate(), Ok(()));
    assert_eq!(f.get_param(&ctx, 0), n);
    assert_eq!(block.get_function(&ctx), f);
    assert_eq!(result.get_type(&ctx), int);
    assert_eq!(
        ctx.statements_of(block.id()),
        &[Statement::Assignment(None, local, sum)]
    );
    assert_eq!(
        ctx.block_info(block.id()).terminator,
        Some(Terminator::Return(None, result))
    );
    assert_eq!(ctx.value_info(four.id()).kind, ValueKind::Integer(4));
    assert_eq!(
        ctx.value_info(result.id()).kind,
        ValueKind::Binary(BinaryOp::Plus, local.to_rvalue(), two)
    );
    let info = ctx.function_info(f.id());
    assert_eq!(ctx.string(info.name), "add");
    assert_eq!(info.kind, FunctionType::Exported);
    assert_eq!(ctx.param_list(info.params), &[n]);
}

#[test]
fn switch_with_two_ranges_and_default() {
    let mut ctx = Context::new();
    let int = ctx.new_type::<i32>();
    let x = ctx.new_parameter(None, int, "x");
    let f = ctx.new_function(None, FunctionType::Exported, int, &[x], "pick", false);
    let entry = f.new_block(&mut ctx, "entry");
    let a = f.new_block(&mut ctx, "a");
    let b = f.new_block(&mut ctx, "b");
    let c = f.new_block(&mut ctx, "c");
    let zero = ctx.new_rvalue_from_int(int, 0);
    let one = ctx.new_rvalue_from_int(int, 1);
    let ten = ctx.new_rvalue_from_int(int, 10);
    let case_a = ctx.new_case(zero, zero, a);
    let case_b = ctx.new_case(one, ten, b);
    entry.end_with_switch(&mut ctx, None, x, c, vec![case_a, case_b]);
    assert_eq!(ctx.validate(), Err(CompileError::UnterminatedBlock(a)));
    for (blk, v) in [(a, 1), (b, 2), (c, 3)] {
        let r = ctx.new_rvalue_from_int(int, v);
        blk.end_with_return(&mut ctx, None, r);
    }
    assert_eq!(ctx.validate(), Ok(()));
    match ctx.block_info(entry.id()).terminator {
        Some(Terminator::Switch(None, e, d, l)) => {
            assert_eq!(e, x.to_rvalue());
            assert_eq!(d, c);
            assert_eq!(ctx.case_list(l), &[case_a, case_b]);
            let ci = ctx.case_info(case_b.id());
            assert_eq!((ci.min, ci.max, ci.dest), (one, ten, b));
        }
        other => panic!("unexpected terminator {:?}", other),
    }
}

#[test]
fn unterminated_block_fails_validation() {
    let mut ctx = Context::new();
    let void = ctx.new_type::<()>();
    let f = ctx.new_function(None, FunctionType::Internal, void, &[], "f", false);
    let b1 = f.new_block(&mut ctx, "b1");
    let b2 = f.new_block(&mut ctx, "b2");
    b1.end_with_jump(&mut ctx, None, b2);
    assert_eq!(ctx.validate(), Err(CompileError::UnterminatedBlock(b2)));
    b2.end_with_void_return(&mut ctx, None);
    assert_eq!(ctx.validate(), Ok(()));
}

#[test]
fn empty_context_validates() {
    let ctx = Context::default();
    assert_eq!(ctx.validate(), Ok(()));
    assert_eq!(ctx.num_blocks(), 0);
    assert_eq!(ctx.num_values(), 0);
}

#[test]
fn terminated_block_takes_nothing_more() {
    let mut ctx = Context::new();
    let void = ctx.new_type::<()>();
    let int = ctx.new_type::<i32>();
    let f = ctx.new_function(None, FunctionType::Exported, void, &[], "f", false);
    let b = f.new_block(&mut ctx, "entry");
    b.end_with_void_return(&mut ctx, None);
    let one = ctx.new_rvalue_one(int);
    b.add_eval(&mut ctx, None, one);
    assert_eq!(ctx.statements_of(b.id()).len(), 0);
    b.end_with_jump(&mut ctx, None, b);
    assert_eq!(ctx.block_info(b.id()).terminator, Some(Terminator::VoidReturn(None)));
    assert_eq!(ctx.first_error(), Some(ContextError::BlockTerminated(b)));
    assert_eq!(ctx.validate(), Err(CompileError::Recorded(ContextError::BlockTerminated(b))));
}

#[test]
fn statements_keep_their_order() {
    let mut ctx = Context::new();
    let int = ctx.new_type::<i32>();
    let void = ctx.new_type::<()>();
    let f = ctx.new_function(None, FunctionType::Exported, void, &[], "f", false);
    let b = f.new_block(&mut ctx, "entry");
    let x = f.new_local(&mut ctx, None, int, "x");
    let one = ctx.new_rvalue_one(int);
    let zero = ctx.new_rvalue_zero(int);
    b.add_comment(&mut ctx, None, "start");
    b.add_assignment(&mut ctx, None, x, zero);
    b.add_assignment_op(&mut ctx, None, x, BinaryOp::Plus, one);
    b.add_eval(&mut ctx, None, x);
    let t = b.end_with_void_return(&mut ctx, None);
    assert_eq!(t, ());
    let st = ctx.statements_of(b.id());
    assert_eq!(st.len(), 4);
    match st[0] {
        Statement::Comment(None, s) => assert_eq!(ctx.string(s), "start"),
        other => panic!("unexpected statement {:?}", other),
    }
    assert_eq!(st[1], Statement::Assignment(None, x.to_lvalue(), zero));
    assert_eq!(st[2], Statement::AssignmentOp(None, x, BinaryOp::Plus, one));
    assert_eq!(st[3], Statement::Eval(None, x.to_rvalue()));
}

#[test]
fn conditional_branch_is_recorded() {
    let mut ctx = Context::new();
    let int = ctx.new_type::<i32>();
    let n = ctx.new_parameter(None, int, "n");
    let f = ctx.new_function(None, FunctionType::Exported, int, &[n], "sign", false);
    let entry = f.new_block(&mut ctx, "entry");
    let pos = f.new_block(&mut ctx, "pos");
    let neg = f.new_block(&mut ctx, "neg");
    let zero = ctx.new_rvalue_zero(int);
    let cond = ctx.new_comparison(None, ComparisonOp::GreaterThan, n, zero);
    assert_eq!(cond.get_type(&ctx), ctx.get_type(PrimitiveKind::Bool));
    entry.end_with_conditional(&mut ctx, None, cond, pos, neg);
    assert_eq!(
        ctx.block_info(entry.id()).terminator,
        Some(Terminator::Conditional(None, cond, pos, neg))
    );
}

#[test]
fn value_types_follow_their_construction() {
    let mut ctx = Context::new();
    let int = ctx.new_type::<i32>();
    let long = ctx.new_type::<i64>();
    let int_ptr = int.make_pointer(&mut ctx);
    let s = ctx.new_string_literal("hi");
    assert_eq!(s.get_type(&ctx).debug_string(&ctx), "const char *");
    let l = ctx.new_rvalue_from_long(long, -5);
    assert_eq!(ctx.value_info(l.id()).kind, ValueKind::Integer(-5));
    let c = ctx.new_cast(None, l, int);
    assert_eq!(c.get_type(&ctx), int);
    let neg = ctx.new_unary_op(None, UnaryOp::Minus, long, l);
    assert_eq!(neg.get_type(&ctx), long);
    let p = ctx.new_parameter(None, int_ptr, "p");
    let elem = ctx.new_array_access(None, p, c);
    assert_eq!(elem.to_rvalue().get_type(&ctx), int);
    let deref = p.to_rvalue().dereference(&mut ctx, None);
    assert_eq!(deref.to_rvalue().get_type(&ctx), int);
    let addr = deref.get_address(&mut ctx, None);
    assert_eq!(addr.get_type(&ctx), int_ptr);
    let null = ctx.new_null(int_ptr);
    assert_eq!(null.get_type(&ctx), int_ptr);
    let d = ctx.new_rvalue_from_double_bits(long, 0x4000_0000_0000_0000);
    assert_eq!(ctx.value_info(d.id()).kind, ValueKind::DoubleBits(0x4000_0000_0000_0000));
    let a = ctx.new_rvalue_from_ptr(int_ptr, 4096);
    assert_eq!(ctx.value_info(a.id()).kind, ValueKind::Address(4096));
    assert_eq!(ctx.first_error(), None);
}

#[test]
fn array_elements_have_the_element_type() {
    let mut ctx = Context::new();
    let ch = ctx.new_type::<char>();
    let int = ctx.new_type::<i32>();
    let arr = ctx.new_array_type(None, ch, 8);
    let cv = arr.make_const(&mut ctx);
    let g = ctx.new_parameter(None, cv, "g");
    let i = ctx.new_rvalue_zero(int);
    let e = ctx.new_array_access(None, g, i);
    assert_eq!(e.to_rvalue().get_type(&ctx), ch);
    assert_eq!(ctx.first_error(), None);
}

#[test]
fn dereferencing_a_non_pointer_is_a_misuse() {
    let mut ctx = Context::new();
    let int = ctx.new_type::<i32>();
    let one = ctx.new_rvalue_one(int);
    let d = one.dereference(&mut ctx, None);
    assert_eq!(ctx.first_error(), Some(ContextError::NotDereferenceable(one)));
    assert_eq!(d.to_rvalue().get_type(&ctx), ctx.get_type(PrimitiveKind::Void));
}

#[test]
fn calling_a_non_function_pointer_is_a_misuse() {
    let mut ctx = Context::new();
    let int = ctx.new_type::<i32>();
    let one = ctx.new_rvalue_one(int);
    let r = ctx.new_call_through_ptr(None, one, &[]);
    assert_eq!(ctx.first_error(), Some(ContextError::NotAFunctionPointer(one)));
    assert_eq!(r.get_type(&ctx), ctx.get_type(PrimitiveKind::Void));
}

#[test]
fn calls_have_the_return_type() {
    let mut ctx = Context::new();
    let int = ctx.new_type::<i32>();
    let ch = ctx.new_type::<char>();
    let a = ctx.new_parameter(None, int, "a");
    let b = ctx.new_parameter(None, ch, "b");
    let f = ctx.new_function(None, FunctionType::Extern, int, &[a, b], "g", false);
    let one = ctx.new_rvalue_one(int);
    let c = ctx.new_rvalue_one(ch);
    let call = ctx.new_call(None, f, &[one, c]);
    assert_eq!(call.get_type(&ctx), int);
    match ctx.value_info(call.id()).kind {
        ValueKind::Call(g, l) => {
            assert_eq!(g, f);
            assert_eq!(ctx.value_list(l), &[one, c]);
        }
        other => panic!("unexpected value {:?}", other),
    }
    let fp = f.get_address(&mut ctx, None);
    assert_eq!(fp.get_type(&ctx).debug_string(&ctx), "int (*) (int, char)");
    let indirect = ctx.new_call_through_ptr(None, fp, &[one, c]);
    assert_eq!(indirect.get_type(&ctx), int);
    assert_eq!(ctx.first_error(), None);
}

#[test]
fn fields_of_values_have_the_field_type() {
    let mut ctx = Context::new();
    let int = ctx.new_type::<i32>();
    let x = ctx.new_field(None, int, "x");
    let s = ctx.new_struct_type(None, "point", &[x]);
    let sp = s.as_type().make_pointer(&mut ctx);
    let void = ctx.new_type::<()>();
    let f = ctx.new_function(None, FunctionType::Internal, void, &[], "f", false);
    let local = f.new_local(&mut ctx, None, s.as_type(), "pt");
    let lx = local.access_field(&mut ctx, None, x);
    assert_eq!(lx.to_rvalue().get_type(&ctx), int);
    let rx = local.to_rvalue().access_field(&mut ctx, None, x);
    assert_eq!(rx.get_type(&ctx), int);
    let p = ctx.new_parameter(None, sp, "p");
    let px = p.to_rvalue().dereference_field(&mut ctx, None, x);
    assert_eq!(px.to_rvalue().get_type(&ctx), int);
}

#[test]
fn vector_constants_and_builtins() {
    let mut ctx = Context::new();
    let int = ctx.new_type::<i32>();
    let v4 = ctx.new_vector_type::<i32>(4);
    let one = ctx.new_rvalue_one(int);
    let elems: Vec<RValue> = vec![one, one, one, one];
    let v = ctx.new_rvalue_from_vector(None, elems, v4);
    assert_eq!(v.get_type(&ctx), v4);
    let b = ctx.get_builtin_function("__builtin_trap");
    let info = ctx.function_info(b.id());
    assert!(info.builtin);
    assert_eq!(ctx.string(info.name), "__builtin_trap");
}

#[test]
fn settings_are_kept() {
    let mut ctx = Context::new();
    assert_eq!(ctx.settings().opt_level, OptimizationLevel::NoOptimization);
    ctx.set_opt_level(OptimizationLevel::Aggressive);
    ctx.set_dump_code(true);
    ctx.set_dump_gimple(true);
    ctx.set_name("prog");
    ctx.add_command_line_option("-fno-inline");
    ctx.add_driver_option("-lm");
    let s = ctx.settings();
    assert_eq!(s.opt_level, OptimizationLevel::Aggressive);
    assert!(s.dump_generated_code);
    assert!(s.dump_initial_gimple);
    assert_eq!(ctx.string(s.program_name.unwrap()), "prog");
    assert_eq!(ctx.string(ctx.command_line_options()[0]), "-fno-inline");
    assert_eq!(ctx.string(ctx.driver_options()[0]), "-lm");
}

#[test]
fn child_context_starts_with_the_parent_objects() {
    let mut parent = Context::new();
    let int = parent.new_type::<i32>();
    let p = int.make_pointer(&mut parent);
    let n = parent.new_parameter(None, int, "n");
    let f = parent.new_function(None, FunctionType::Exported, int, &[n], "f", false);
    {
        let mut child = parent.new_child_context();
        assert_eq!(child.num_types(), parent.num_types());
        assert_eq!(int.make_pointer(&mut child), p);
        let b = f.new_block(&mut child, "entry");
        b.end_with_return(&mut child, None, n);
        assert_eq!(child.validate(), Ok(()));
        assert_eq!(child.num_blocks(), 1);
        assert_eq!(parent.num_blocks(), 0);
    }
    assert_eq!(parent.validate(), Ok(()));
}

#[test]
fn named_objects_show_their_names() {
    let mut ctx = Context::new();
    let int = ctx.new_type::<i32>();
    let n = ctx.new_parameter(None, int, "count");
    let f = ctx.new_function(None, FunctionType::Exported, int, &[n], "square", false);
    let b = f.new_block(&mut ctx, "entry");
    let x = ctx.new_field(None, int, "x");
    assert_eq!(f.debug_string(&ctx), "square");
    assert_eq!(b.debug_string(&ctx), "entry");
    assert_eq!(n.debug_string(&ctx), "count");
    assert_eq!(x.debug_string(&ctx), "x");
}
