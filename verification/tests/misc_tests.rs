use inkwell::attributes::AttributeData;
use inkwell::context::Context;
use inkwell::global::{SingletonState, ThreadGuardState};
use inkwell::types::AnyTypeEnum;
use inkwell::values::BasicValueEnum;
use inkwell::InlineAsmDialect;

#[test]
fn metadata_nodes_and_strings_know_their_kind() {
    let mut context = Context::create();
    let i8_two = context.i8_type().const_int(2, false);
    let node = context.metadata_node(vec![BasicValueEnum::IntValue(i8_two)]);
    assert!(node.is_node());
    assert!(!node.is_string());
    let string = context.metadata_string("numbers are awesome");
    assert!(string.is_string());
    assert!(!string.is_node());
    match &string.data {
        inkwell::values::MetadataData::Str { text } => assert_eq!(text, "numbers are awesome"),
        _ => panic!("expected a metadata string"),
    }
}

#[test]
fn attributes_keep_their_kind_and_payload() {
    let context = Context::create();
    let enum_attribute = context.create_enum_attribute(0, 10);
    assert!(enum_attribute.is_enum());
    assert!(!enum_attribute.is_string());

    let string_attribute = context.create_string_attribute("my_key_123", "my_val");
    assert!(string_attribute.is_string());
    match &string_attribute.data {
        AttributeData::Str { key, value } => {
            assert_eq!(key, "my_key_123");
            assert_eq!(value, "my_val");
        },
        _ => panic!("expected a string attribute"),
    }

    let any_type = context.i32_type().as_any_type_enum();
    let type_attribute = context.create_type_attribute(7, any_type);
    assert!(type_attribute.is_type());
    assert_eq!(type_attribute.get_type_value(), any_type);
    assert_ne!(
        type_attribute.get_type_value(),
        AnyTypeEnum::IntType(context.i64_type())
    );
}

#[test]
fn inline_asm_records_every_flag() {
    let mut context = Context::create();
    let void_type = context.void_type();
    let fn_type = void_type.fn_type(&mut context, &vec![], false);
    let asm_value = context.create_inline_asm(
        fn_type,
        "syscall".to_string(),
        "=r,{rax},{rdi}".to_string(),
        true,
        false,
        None,
        false,
    );
    assert_eq!(asm_value.ctx, context.handle);
    assert_eq!(asm_value.inline_asm.assembly, "syscall");
    assert_eq!(asm_value.inline_asm.constraints, "=r,{rax},{rdi}");
    assert!(asm_value.inline_asm.has_side_effects);
    assert!(!asm_value.inline_asm.is_align_stack);
    assert!(!asm_value.inline_asm.can_throw);
    // A missing dialect reads as the default dialect.
    assert_eq!(asm_value.inline_asm.dialect, InlineAsmDialect::ATT);

    let intel = context.create_inline_asm(
        fn_type,
        "mov eax, 60".to_string(),
        String::new(),
        false,
        true,
        Some(InlineAsmDialect::Intel),
        true,
    );
    assert_eq!(intel.inline_asm.dialect, InlineAsmDialect::Intel);
    assert!(intel.inline_asm.is_align_stack);
    assert!(intel.inline_asm.can_throw);
}

#[test]
fn singleton_lifecycle_moves_one_way() {
    let mut state = SingletonState::Uninitialized;
    state.begin_initialization();
    assert_eq!(state, SingletonState::Initializing);
    state.finish_initialization();
    assert_eq!(state, SingletonState::Ready);
}

#[test]
fn thread_guard_is_acquired_once_and_kept() {
    let mut state = ThreadGuardState::NoGuardHeld;
    state.request_lock();
    assert_eq!(state, ThreadGuardState::AcquiringLock);
    state.lock_granted();
    assert_eq!(state, ThreadGuardState::HoldingLock);
}
