use gccjit_rs::ctx::Context;
use gccjit_rs::location::Location;
use gccjit_rs::prim::PrimitiveKind;
use gccjit_rs::ty::{Type, TypeKind};

#[test]
fn host_types_map_to_primitive_names() {
    let mut ctx = Context::new();
    let cases: Vec<(Type, &str)> = vec![
        (ctx.new_type::<()>(), "void"),
        (ctx.new_type::<bool>(), "bool"),
        (ctx.new_type::<char>(), "char"),
        (ctx.new_type::<i8>(), "signed char"),
        (ctx.new_type::<u8>(), "unsigned char"),
        (ctx.new_type::<i16>(), "short"),
        (ctx.new_type::<u16>(), "unsigned short"),
        (ctx.new_type::<i32>(), "int"),
        (ctx.new_type::<u32>(), "unsigned int"),
        (ctx.new_type::<i64>(), "long"),
        (ctx.new_type::<u64>(), "unsigned long"),
        (ctx.new_type::<usize>(), "size_t"),
    ];
    for (t, name) in cases {
        assert_eq!(t.debug_string(&ctx), name);
    }
}

#[test]
fn float_types_by_engine_number() {
    let ctx = Context::new();
    let float = Type::from_const(&ctx, 14).unwrap();
    let double = Type::from_const(&ctx, 15).unwrap();
    assert_eq!(float.debug_string(&ctx), "float");
    assert_eq!(double.debug_string(&ctx), "double");
    assert_eq!(Type::from_const(&ctx, 8), Some(ctx.get_type(PrimitiveKind::Int)));
    assert_eq!(Type::from_const(&ctx, 33), None);
    assert_eq!(Type::from_const(&ctx, 1000), None);
}

#[test]
fn every_primitive_kind_has_its_name() {
    let ctx = Context::new();
    for i in 0..33u32 {
        let k = PrimitiveKind::from_index(i).unwrap();
        assert_eq!(k.index(), i as usize);
        let t = ctx.get_type(k);
        assert_eq!(t.debug_string(&ctx), k.name());
        assert_eq!(ctx.type_kind(t.id()), TypeKind::Primitive(k));
    }
    assert_eq!(PrimitiveKind::ConstCharPtr.name(), "const char *");
    assert_eq!(PrimitiveKind::UInt64.name(), "__uint64_t");
}

#[test]
fn same_primitive_twice_is_the_same_type() {
    let mut ctx = Context::new();
    let a = ctx.new_type::<i32>();
    let b = ctx.new_type::<i32>();
    assert_eq!(a, b);
    assert_ne!(a, ctx.new_type::<u32>());
    assert_eq!(ctx.num_types(), 33);
}

#[test]
fn pointer_to_pointer_is_distinct_and_stable() {
    let mut ctx = Context::new();
    let int = ctx.new_type::<i32>();
    let p1 = int.make_pointer(&mut ctx);
    let p2 = p1.make_pointer(&mut ctx);
    assert_ne!(p1, p2);
    assert_ne!(p1, int);
    let n = ctx.num_types();
    assert_eq!(int.make_pointer(&mut ctx), p1);
    assert_eq!(p1.make_pointer(&mut ctx), p2);
    assert_eq!(ctx.num_types(), n);
    assert_eq!(p1.debug_string(&ctx), "int *");
    assert_eq!(p2.debug_string(&ctx), "int * *");
}

#[test]
fn qualified_types_are_interned_and_spelled() {
    let mut ctx = Context::new();
    let int = ctx.new_type::<i32>();
    let c = int.make_const(&mut ctx);
    let v = int.make_volatile(&mut ctx);
    assert_eq!(int.make_const(&mut ctx), c);
    assert_eq!(int.make_volatile(&mut ctx), v);
    assert_ne!(c, v);
    assert_eq!(c.debug_string(&ctx), "const int");
    assert_eq!(v.debug_string(&ctx), "volatile int");
    let ch = ctx.new_type::<char>();
    let cp = ch.make_pointer(&mut ctx).make_const(&mut ctx);
    assert_eq!(cp.debug_string(&ctx), "const char *");
}

#[test]
fn arrays_and_vectors_are_spelled_with_their_sizes() {
    let mut ctx = Context::new();
    let int = ctx.new_type::<i32>();
    let a = ctx.new_array_type(None, int, 10);
    assert_eq!(a.debug_string(&ctx), "int[10]");
    let b = ctx.new_array_type(None, int, 10);
    assert_ne!(a, b);
    let neg = ctx.new_array_type(None, int, -3);
    assert_eq!(neg.debug_string(&ctx), "int[-3]");
    let big = ctx.new_array_type(None, int, 2147483647);
    assert_eq!(big.debug_string(&ctx), "int[2147483647]");
    let v = ctx.new_vector_type::<i32>(4);
    assert_eq!(v.debug_string(&ctx), "int  __attribute__((vector_size(sizeof (int) * 4)))");
    assert_eq!(ctx.type_kind(v.id()), TypeKind::Vector(int, 4));
}

#[test]
fn function_pointer_types_are_spelled() {
    let mut ctx = Context::new();
    let int = ctx.new_type::<i32>();
    let ch = ctx.new_type::<char>();
    let f = ctx.new_function_pointer_type(None, int, &[int, ch], false);
    assert_eq!(f.debug_string(&ctx), "int (*) (int, char)");
    let g = ctx.new_function_pointer_type(None, int, &[int], true);
    assert_eq!(g.debug_string(&ctx), "int (*) (int, ...)");
    let void = ctx.new_type::<()>();
    let h = ctx.new_function_pointer_type(None, void, &[], false);
    assert_eq!(h.debug_string(&ctx), "void (*) ()");
    let k = ctx.new_function_pointer_type(None, void, &[], true);
    assert_eq!(k.debug_string(&ctx), "void (*) (...)");
    match ctx.type_kind(f.id()) {
        TypeKind::FunctionPtr(r, l, variadic, loc) => {
            assert_eq!(r, int);
            assert_eq!(ctx.type_list(l), &[int, ch]);
            assert!(!variadic);
            assert_eq!(loc, None::<Location>);
        }
        _ => panic!("not a function pointer type"),
    }
}

#[test]
fn locations_are_recorded() {
    let mut ctx = Context::new();
    let loc = ctx.new_location("main.c", 12, 7);
    let info = ctx.location_info(loc.id());
    assert_eq!(ctx.string(info.file), "main.c");
    assert_eq!(info.line, 12);
    assert_eq!(info.col, 7);
    let int = ctx.new_type::<i32>();
    let a = ctx.new_array_type(Some(loc), int, 2);
    assert_eq!(ctx.type_kind(a.id()), TypeKind::Array(int, 2, Some(loc)));
}

#[test]
fn location_debug_string_has_file_line_and_column() {
    let mut ctx = Context::new();
    let loc = ctx.new_location("src/app.c", 120, 4);
    assert_eq!(loc.debug_string(&ctx), "src/app.c:120:4");
    let odd = ctx.new_location("x.c", -1, 0);
    assert_eq!(odd.debug_string(&ctx), "x.c:-1:0");
}
