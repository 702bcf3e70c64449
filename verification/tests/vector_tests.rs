use inkwell::context::Context;
use inkwell::types::{BasicTypeEnum, VectorType};
use inkwell::values::{BasicValueEnum, IntValue};
use inkwell::vec_value::VectorValue;

fn int_vector(context: &mut Context, bits: u32, lanes: &[u64]) -> (VectorType, VectorValue) {
    let int_type = context.custom_width_int_type(bits);
    let vec_type = int_type.vec_type(context, lanes.len() as u32);
    let values: Vec<IntValue> = lanes.iter().map(|&v| int_type.const_int(v, false)).collect();
    let vector = vec_type.const_vector(context, &values);
    (vec_type, vector)
}

fn lane_value(value: BasicValueEnum) -> u64 {
    match value {
        BasicValueEnum::IntValue(iv) => iv.val,
        _ => panic!("expected an integer lane"),
    }
}

#[test]
fn const_string_round_trips_its_bytes() {
    let mut context = Context::create();
    let string = context.const_string(b"my_string", false);
    assert!(string.is_const());
    assert!(string.is_const_string(&context));
    // An array constant is neither of the two vector shapes.
    assert!(!string.is_constant_vector(&context));
    assert!(!string.is_constant_data_vector(&context));
    assert_eq!(string.get_type().get_size(&context), 9);
    assert_eq!(string.get_string_constant(&context), b"my_string".to_vec());
}

#[test]
fn constant_shapes_are_mutually_exclusive() {
    let mut context = Context::create();
    // 8-bit lanes are stored directly: a data vector, never an aggregate —
    // and, having 8-bit elements, also a string constant.
    let (_, bytes) = int_vector(&mut context, 8, &[104, 105]);
    assert!(bytes.is_constant_data_vector(&context));
    assert!(!bytes.is_constant_vector(&context));
    assert!(bytes.is_const_string(&context));
    assert_eq!(bytes.get_string_constant(&context), b"hi".to_vec());
    // 16-bit lanes are stored directly too, but are no string.
    let (_, shorts) = int_vector(&mut context, 16, &[1, 2]);
    assert!(shorts.is_constant_data_vector(&context));
    assert!(!shorts.is_constant_vector(&context));
    assert!(!shorts.is_const_string(&context));
    // An unusual element width makes a vector aggregate instead.
    let (_, odd) = int_vector(&mut context, 42, &[1, 2]);
    assert!(odd.is_constant_vector(&context));
    assert!(!odd.is_constant_data_vector(&context));
    assert!(!odd.is_const_string(&context));
}

#[test]
fn null_terminated_string_gets_one_extra_lane() {
    let mut context = Context::create();
    let string = context.const_string(b"ab", true);
    assert_eq!(string.get_type().get_size(&context), 3);
    // The C-string read still stops at the first nul.
    assert_eq!(string.get_string_constant(&context), b"ab".to_vec());
}

#[test]
fn string_read_stops_at_the_first_inner_nul() {
    let mut context = Context::create();
    let string = context.const_string(b"ab\0cd", false);
    assert_eq!(string.get_type().get_size(&context), 5);
    assert_eq!(string.get_string_constant(&context), b"ab".to_vec());
}

#[test]
fn extract_reads_the_indexed_lane() {
    let mut context = Context::create();
    let (_, vector) = int_vector(&mut context, 8, &[1, 2, 3]);
    let i32_type = context.i32_type();
    let one = i32_type.const_int(1, false);
    let picked = vector.const_extract_element(&context, one);
    assert_eq!(lane_value(picked), 2);
    assert_eq!(lane_value(vector.get_element_as_constant(&context, 0)), 1);
    assert_eq!(lane_value(vector.get_element_as_constant(&context, 2)), 3);
}

#[test]
fn insert_replaces_exactly_the_indexed_lane() {
    let mut context = Context::create();
    let (_, vector) = int_vector(&mut context, 8, &[1, 2, 3]);
    let i8_type = context.i8_type();
    let i32_type = context.i32_type();
    let index = i32_type.const_int(0, false);
    let nine = i8_type.const_int(9, false);
    let inserted = vector.const_insert_element(&context, index, BasicValueEnum::IntValue(nine));
    let inserted = match inserted {
        BasicValueEnum::VectorValue(v) => v,
        _ => panic!("expected a vector"),
    };
    assert_eq!(lane_value(inserted.get_element_as_constant(&context, 0)), 9);
    assert_eq!(lane_value(inserted.get_element_as_constant(&context, 1)), 2);
    assert_eq!(lane_value(inserted.get_element_as_constant(&context, 2)), 3);
}

#[test]
fn select_picks_lanewise_by_the_condition() {
    let mut context = Context::create();
    let (_, cond) = int_vector(&mut context, 1, &[1, 0, 1]);
    let (_, then) = int_vector(&mut context, 32, &[10, 20, 30]);
    // The two branches must share one vector type.
    let else_values: Vec<IntValue> = [40u64, 50, 60]
        .iter()
        .map(|&v| context.i32_type().const_int(v, false))
        .collect();
    let else_ = then.get_type().const_vector(&context, &else_values);
    let picked = cond.const_select(&context, &then, &else_);
    let picked = match picked {
        BasicValueEnum::VectorValue(v) => v,
        _ => panic!("expected a vector"),
    };
    assert_eq!(lane_value(picked.get_element_as_constant(&context, 0)), 10);
    assert_eq!(lane_value(picked.get_element_as_constant(&context, 1)), 50);
    assert_eq!(lane_value(picked.get_element_as_constant(&context, 2)), 30);
}

#[test]
fn shuffle_picks_from_both_vectors_by_mask() {
    let mut context = Context::create();
    let (vec_type, left) = int_vector(&mut context, 8, &[1, 2]);
    let right_values: Vec<IntValue> = [3u64, 4]
        .iter()
        .map(|&v| context.i8_type().const_int(v, false))
        .collect();
    let right = vec_type.const_vector(&context, &right_values);
    let (_, mask) = int_vector(&mut context, 32, &[0, 3, 1]);
    let shuffled = left.const_shuffle_vector(&mut context, &right, &mask);
    assert_eq!(shuffled.get_type().get_size(&context), 3);
    assert_eq!(lane_value(shuffled.get_element_as_constant(&context, 0)), 1);
    assert_eq!(lane_value(shuffled.get_element_as_constant(&context, 1)), 4);
    assert_eq!(lane_value(shuffled.get_element_as_constant(&context, 2)), 2);
}

#[test]
fn zero_vector_is_null_and_others_are_not() {
    let mut context = Context::create();
    let (_, zero) = int_vector(&mut context, 8, &[0, 0, 0]);
    assert!(zero.is_null());
    let (_, nonzero) = int_vector(&mut context, 8, &[0, 1, 0]);
    assert!(!nonzero.is_null());
    let empty_string = context.const_string(b"", false);
    assert!(empty_string.is_null());
}

#[test]
fn undef_is_a_constant_with_no_lanes() {
    let mut context = Context::create();
    let (vec_type, constant) = int_vector(&mut context, 8, &[1, 2]);
    let undef = vec_type.get_undef();
    assert!(undef.is_undef());
    // The undefined value is a compile-time constant...
    assert!(undef.is_const());
    // ...but not the zero value, and none of the lane-holding shapes.
    assert!(!undef.is_null());
    assert!(!undef.is_constant_vector(&context));
    assert!(!undef.is_constant_data_vector(&context));
    assert!(!undef.is_const_string(&context));
    assert!(!constant.is_undef());
}

#[test]
fn constants_have_no_name_and_no_instruction() {
    let mut context = Context::create();
    let (_, vector) = int_vector(&mut context, 8, &[5]);
    assert_eq!(vector.get_name(), "");
    assert!(vector.as_instruction().is_none());
    assert!(vector.is_constant_data_vector(&context));
    assert!(!vector.is_constant_vector(&context));
    // A smoke check of the diagnostics path and the use-rewiring request.
    vector.print_to_stderr();
    let (_, other) = int_vector(&mut context, 8, &[6]);
    vector.replace_all_uses_with(&other);
}
