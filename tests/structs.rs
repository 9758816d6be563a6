use gccjit_rs::ctx::{CompileError, Context, ContextError};
use gccjit_rs::field::Field;

fn layout(ctx: &Context, s: usize) -> (String, bool, Option<Vec<(String, usize)>>) {
    let info = ctx.struct_info(s);
    let fields = info.fields.map(|l| {
        ctx.field_list(l)
            .iter()
            .map(|f| {
                let fi = ctx.field_info(f.id());
                (ctx.string(fi.name).to_string(), fi.ty.id())
            })
            .collect()
    });
    (ctx.string(info.name).to_string(), info.is_union, fields)
}

#[test]
fn opaque_struct_then_fields_matches_direct_struct() {
    let mut ctx = Context::new();
    let int = ctx.new_type::<i32>();
    let ch = ctx.new_type::<char>();
    let a1 = ctx.new_field(None, int, "a");
    let b1 = ctx.new_field(None, ch, "b");
    let opaque = ctx.new_opaque_struct_type(None, "pair");
    assert_eq!(layout(&ctx, opaque.id()).2, None);
    opaque.set_fields(&mut ctx, None, &[a1, b1]);
    let a2 = ctx.new_field(None, int, "a");
    let b2 = ctx.new_field(None, ch, "b");
    let direct = ctx.new_struct_type(None, "pair", &[a2, b2]);
    assert_eq!(layout(&ctx, opaque.id()), layout(&ctx, direct.id()));
    assert_eq!(
        layout(&ctx, direct.id()),
        (
            "pair".to_string(),
            false,
            Some(vec![("a".to_string(), int.id()), ("b".to_string(), ch.id())])
        )
    );
    assert_ne!(opaque.as_type(), direct.as_type());
    assert_eq!(opaque.as_type().debug_string(&ctx), "struct pair");
    assert_eq!(ctx.validate(), Ok(()));
}

#[test]
fn self_referential_struct() {
    let mut ctx = Context::new();
    let node = ctx.new_opaque_struct_type(None, "node");
    let next_ty = node.as_type().make_pointer(&mut ctx);
    let int = ctx.new_type::<i32>();
    let value = ctx.new_field(None, int, "value");
    let next = ctx.new_field(None, next_ty, "next");
    node.set_fields(&mut ctx, None, &[value, next]);
    assert_eq!(next_ty.debug_string(&ctx), "struct node *");
    assert_eq!(ctx.field_info(next.id()).container, Some(node.id()));
    assert_eq!(ctx.first_error(), None);
}

#[test]
fn fields_set_twice_are_rejected() {
    let mut ctx = Context::new();
    let int = ctx.new_type::<i32>();
    let s = ctx.new_opaque_struct_type(None, "s");
    let a = ctx.new_field(None, int, "a");
    s.set_fields(&mut ctx, None, &[a]);
    let b = ctx.new_field(None, int, "b");
    s.set_fields(&mut ctx, None, &[b]);
    assert_eq!(ctx.first_error(), Some(ContextError::FieldsAlreadySet(s)));
    assert_eq!(layout(&ctx, s.id()).2.unwrap().len(), 1);
    assert_eq!(ctx.field_info(b.id()).container, None);
    assert_eq!(ctx.validate(), Err(CompileError::Recorded(ContextError::FieldsAlreadySet(s))));
}

#[test]
fn direct_struct_cannot_be_given_fields() {
    let mut ctx = Context::new();
    let int = ctx.new_type::<i32>();
    let a = ctx.new_field(None, int, "a");
    let s = ctx.new_struct_type(None, "s", &[a]);
    let empty: [Field; 0] = [];
    s.set_fields(&mut ctx, None, &empty);
    assert_eq!(ctx.first_error(), Some(ContextError::FieldsAlreadySet(s)));
}

#[test]
fn a_field_belongs_to_one_composite() {
    let mut ctx = Context::new();
    let int = ctx.new_type::<i32>();
    let a = ctx.new_field(None, int, "a");
    let s = ctx.new_struct_type(None, "s", &[a]);
    assert_eq!(ctx.field_info(a.id()).container, Some(s.id()));
    let _t = ctx.new_struct_type(None, "t", &[a]);
    assert_eq!(ctx.first_error(), Some(ContextError::FieldInUse(a)));
    assert_eq!(ctx.field_info(a.id()).container, Some(s.id()));
}

#[test]
fn repeated_field_in_one_struct_is_rejected() {
    let mut ctx = Context::new();
    let int = ctx.new_type::<i32>();
    let a = ctx.new_field(None, int, "a");
    ctx.new_struct_type(None, "s", &[a, a]);
    assert_eq!(ctx.first_error(), Some(ContextError::FieldInUse(a)));
}

#[test]
fn unions_are_spelled_and_laid_out() {
    let mut ctx = Context::new();
    let int = ctx.new_type::<i32>();
    let ch = ctx.new_type::<char>();
    let i = ctx.new_field(None, int, "i");
    let c = ctx.new_field(None, ch, "c");
    let u = ctx.new_union_type(None, "either", &[i, c]);
    assert_eq!(u.debug_string(&ctx), "union either");
    let n = ctx.num_structs();
    assert_eq!(layout(&ctx, n - 1).1, true);
    assert_eq!(layout(&ctx, n - 1).2.unwrap().len(), 2);
}

#[test]
fn first_misuse_is_kept() {
    let mut ctx = Context::new();
    let int = ctx.new_type::<i32>();
    let a = ctx.new_field(None, int, "a");
    let s = ctx.new_struct_type(None, "s", &[a]);
    s.set_fields(&mut ctx, None, &[]);
    ctx.new_struct_type(None, "t", &[a]);
    assert_eq!(ctx.first_error(), Some(ContextError::FieldsAlreadySet(s)));
}
