use inkwell::context::Context;
use inkwell::types::BasicTypeEnum;
use inkwell::values::BasicValueEnum;

#[test]
fn struct_type_reads_back_its_field_types_in_order() {
    let mut context = Context::create();
    let i16_type = context.i16_type();
    let f32_type = context.f32_type();
    let fields = vec![
        BasicTypeEnum::IntType(i16_type),
        BasicTypeEnum::FloatType(f32_type),
    ];
    let struct_type = context.struct_type(&fields, false);
    assert_eq!(struct_type.get_field_types(&context), fields);
    assert_eq!(struct_type.count_fields(&context), 2);
    assert!(!struct_type.is_packed(&context));
    assert!(!struct_type.is_opaque(&context));
}

#[test]
fn packed_flag_is_kept() {
    let mut context = Context::create();
    let fields = vec![BasicTypeEnum::IntType(context.i8_type())];
    let struct_type = context.struct_type(&fields, true);
    assert!(struct_type.is_packed(&context));
}

#[test]
fn empty_struct_type_reads_back_no_fields() {
    let mut context = Context::create();
    let struct_type = context.struct_type(&vec![], false);
    assert_eq!(struct_type.get_field_types(&context), vec![]);
    assert_eq!(struct_type.count_fields(&context), 0);
}

#[test]
fn opaque_struct_type_has_no_fields_yet() {
    let mut context = Context::create();
    let struct_type = context.opaque_struct_type("my_struct");
    assert!(struct_type.is_opaque(&context));
    assert_eq!(struct_type.get_field_types(&context), vec![]);
}

#[test]
fn struct_names_read_back() {
    let mut context = Context::create();
    let named = context.opaque_struct_type("my_struct");
    assert_eq!(named.get_name(&context), Some("my_struct".to_string()));
    let literal = context.struct_type(&vec![], false);
    assert_eq!(literal.get_name(&context), None);
}

#[test]
fn vector_types_read_back_element_and_size() {
    let mut context = Context::create();
    let i8_type = context.i8_type();
    let vec_type = i8_type.vec_type(&mut context, 4);
    assert_eq!(vec_type.get_size(&context), 4);
    assert_eq!(
        vec_type.get_element_type(&context),
        BasicTypeEnum::IntType(i8_type)
    );
}

#[test]
fn opaque_struct_creation_is_never_deduplicated() {
    let mut context = Context::create();
    let first = context.opaque_struct_type("same_name");
    let second = context.opaque_struct_type("same_name");
    assert_ne!(first, second);
}

#[test]
fn const_struct_type_lists_the_value_types_in_order() {
    let mut context = Context::create();
    let i16_type = context.i16_type();
    let i8_type = context.i8_type();
    let i16_two = i16_type.const_int(2, false);
    let i8_four = i8_type.const_int(4, false);
    let const_struct = context.const_struct(
        vec![
            BasicValueEnum::IntValue(i16_two),
            BasicValueEnum::IntValue(i8_four),
        ],
        false,
    );
    assert_eq!(
        const_struct.get_type().get_field_types(&context),
        vec![
            BasicTypeEnum::IntType(i16_type),
            BasicTypeEnum::IntType(i8_type),
        ]
    );
    assert_eq!(const_struct.fields.len(), 2);
}

#[test]
fn function_types_read_back_through_the_arena() {
    let mut context = Context::create();
    let void_type = context.void_type();
    let fn_type = void_type.fn_type(&mut context, &vec![], false);
    assert_eq!(fn_type.ctx, context.handle);
    let i32_type = context.i32_type();
    let params = vec![BasicTypeEnum::IntType(context.i8_type())];
    let int_fn_type = i32_type.fn_type(&mut context, &params, true);
    assert_eq!(int_fn_type.ctx, context.handle);
    assert_ne!(fn_type, int_fn_type);
}

#[test]
fn const_int_reduces_to_the_type_width() {
    let context = Context::create();
    let i8_type = context.i8_type();
    assert_eq!(i8_type.const_int(300, false).val, 44);
    assert_eq!(i8_type.const_int(255, false).val, 255);
    let i64_type = context.i64_type();
    assert_eq!(i64_type.const_int(u64::MAX, false).val, u64::MAX);
    let i1_type = context.bool_type();
    assert_eq!(i1_type.const_int(3, false).val, 1);
}
