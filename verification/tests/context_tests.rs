use inkwell::context::Context;
use inkwell::module::MemoryBuffer;
use inkwell::targets::TargetData;
use inkwell::AddressSpace;

#[test]
fn owner_disposes_its_own_handle_exactly_once() {
    let context = Context::create();
    let handle = context.handle;
    assert!(context.owned);
    // Consuming the wrapper reports the one disposal the owner owes; the
    // move makes a second report impossible.
    assert_eq!(context.dispose(), Some(handle));
}

#[test]
fn wrapped_context_never_disposes() {
    let context = Context::wrap_existing(77);
    assert!(!context.owned);
    assert_eq!(context.dispose(), None);
}

#[test]
fn reference_views_carry_no_disposal_duty() {
    let context = Context::create();
    let view = context.get_ref();
    assert_eq!(view.handle, context.handle);
    assert_eq!(view.handle(), context.handle);
    // The owner still reports its single disposal after views were made.
    let handle = context.handle;
    assert_eq!(context.dispose(), Some(handle));
}

#[test]
fn well_known_kind_ids_are_fixed() {
    let mut context = Context::create();
    assert_eq!(context.get_kind_id("dbg"), 0);
    assert_eq!(context.get_kind_id("tbaa"), 1);
    assert_eq!(context.get_kind_id("prof"), 2);
}

#[test]
fn fresh_keys_get_new_ids_and_keep_them() {
    let mut context = Context::create();
    let foo = context.get_kind_id("foo");
    assert_eq!(foo, 3);
    let bar = context.get_kind_id("bar");
    assert_eq!(bar, 4);
    assert_ne!(foo, bar);
    // Repeating a key later returns the id it was first assigned.
    assert_eq!(context.get_kind_id("foo"), foo);
    assert_eq!(context.get_kind_id("dbg"), 0);
    assert_eq!(context.get_kind_id("bar"), bar);
}

#[test]
fn universes_are_independent() {
    let mut first = Context::create();
    let mut second = Context::create();
    assert_eq!(first.get_kind_id("foo"), 3);
    // A second universe has its own table: "bar" is its first fresh key.
    assert_eq!(second.get_kind_id("bar"), 3);
    assert_eq!(first.get_kind_id("bar"), 4);
}

#[test]
fn kind_ids_survive_other_factory_work() {
    let mut context = Context::create();
    let foo = context.get_kind_id("foo");
    // Mint other entities in between; the table only ever grows.
    let _ = context.create_module("scratch");
    let _ = context.opaque_struct_type("named");
    let _ = context.const_string(b"bytes", true);
    assert_eq!(context.get_kind_id("foo"), foo);
    assert_eq!(context.get_kind_id("tbaa"), 1);
}

#[test]
fn parse_accepts_recognized_container_signature() {
    let mut context = Context::create();
    let bytes = vec![0x42u8, 0x43, 0xC0, 0xDE, 1, 2, 3];
    let buffer = MemoryBuffer::create_from_memory_range_copy(&bytes);
    assert_eq!(buffer.get_size(), 7);
    let module = context.create_module_from_ir(buffer);
    // The buffer was moved into the call: it cannot be touched, let alone
    // released, afterwards.
    let module = module.expect("a well-formed buffer yields a module");
    assert_eq!(module.ctx, context.handle);
}

#[test]
fn parse_rejects_malformed_buffer_with_message() {
    let mut context = Context::create();
    let bytes = vec![1u8, 2, 3, 4, 5];
    let buffer = MemoryBuffer::create_from_memory_range_copy(&bytes);
    let result = context.create_module_from_ir(buffer);
    let message = result.expect_err("a malformed buffer yields an error");
    assert!(!message.is_empty());
}

#[test]
fn parse_rejects_short_buffer() {
    let mut context = Context::create();
    let buffer = MemoryBuffer::create_from_memory_range_copy(&[0x42u8, 0x43]);
    assert!(context.create_module_from_ir(buffer).is_err());
}

#[test]
fn module_and_builder_are_tied_to_their_universe() {
    let mut context = Context::create();
    let module = context.create_module("my_module");
    assert_eq!(module.name, "my_module");
    assert_eq!(module.ctx, context.handle);
    let builder = context.create_builder();
    assert_eq!(builder.ctx, context.handle);
    assert_ne!(builder.handle, module.handle);
}

#[test]
fn scalar_types_read_back_their_widths() {
    let context = Context::create();
    assert_eq!(context.bool_type().get_bit_width(), 1);
    assert_eq!(context.i8_type().get_bit_width(), 8);
    assert_eq!(context.i16_type().get_bit_width(), 16);
    assert_eq!(context.i32_type().get_bit_width(), 32);
    assert_eq!(context.i64_type().get_bit_width(), 64);
    assert_eq!(context.i128_type().get_bit_width(), 128);
    assert_eq!(context.custom_width_int_type(42).get_bit_width(), 42);
    assert_eq!(context.void_type().ctx, context.handle);
    assert_eq!(context.metadata_type().ctx, context.handle);
    assert_eq!(context.f16_type().ctx, context.handle);
    assert_eq!(context.f32_type().ctx, context.handle);
    assert_eq!(context.f64_type().ctx, context.handle);
    assert_eq!(context.x86_f80_type().ctx, context.handle);
    assert_eq!(context.f128_type().ctx, context.handle);
    assert_eq!(context.ppc_f128_type().ctx, context.handle);
}

#[test]
fn pointer_width_follows_the_target_and_address_space() {
    let context = Context::create();
    let target_data = TargetData::new(64, vec![(1, 32)]);
    assert_eq!(context.ptr_sized_int_type(&target_data, None).get_bit_width(), 64);
    assert_eq!(
        context
            .ptr_sized_int_type(&target_data, Some(AddressSpace(1)))
            .get_bit_width(),
        32
    );
    assert_eq!(
        context
            .ptr_sized_int_type(&target_data, Some(AddressSpace(7)))
            .get_bit_width(),
        64
    );
}

#[test]
fn diagnostic_registration_is_recorded() {
    let mut context = Context::create();
    assert!(context.diagnostic.is_none());
    context.set_diagnostic_handler(0x1000, 0x2000);
    let registration = context.diagnostic.expect("registration recorded");
    assert_eq!(registration.handler, 0x1000);
    assert_eq!(registration.user_data, 0x2000);
}
