use inkwell::context::Context;
use inkwell::basic_block::FunctionValue;

fn function_in(context: &mut Context) -> FunctionValue {
    let void_type = context.void_type();
    let fn_type = void_type.fn_type(context, &vec![], false);
    let module = context.create_module("my_mod");
    module.add_function(context, "my_fn", fn_type)
}

#[test]
fn two_appends_keep_first_and_last_in_order() {
    let mut context = Context::create();
    let mut fn_value = function_in(&mut context);
    assert_eq!(fn_value.count_basic_blocks(), 0);
    assert!(fn_value.get_first_basic_block().is_none());

    let entry = context.append_basic_block(&mut fn_value, "entry");
    assert_eq!(fn_value.count_basic_blocks(), 1);

    let last = context.append_basic_block(&mut fn_value, "last");
    assert_eq!(fn_value.count_basic_blocks(), 2);
    assert_eq!(fn_value.get_first_basic_block().unwrap(), entry);
    assert_eq!(fn_value.get_last_basic_block().unwrap(), last);
}

#[test]
fn insert_after_block_with_successor_lands_before_it() {
    let mut context = Context::create();
    let mut fn_value = function_in(&mut context);
    let entry = context.append_basic_block(&mut fn_value, "entry");
    let tail = context.append_basic_block(&mut fn_value, "tail");

    let middle = context.insert_basic_block_after(&mut fn_value, &entry, "middle");
    assert_eq!(fn_value.count_basic_blocks(), 3);
    // Placed immediately before the successor: the order is entry,
    // middle, tail.
    assert_eq!(fn_value.blocks[0], entry);
    assert_eq!(fn_value.blocks[1], middle);
    assert_eq!(fn_value.blocks[2], tail);
}

#[test]
fn insert_after_last_block_appends() {
    let mut context = Context::create();
    let mut fn_value = function_in(&mut context);
    let entry = context.append_basic_block(&mut fn_value, "entry");

    let last = context.insert_basic_block_after(&mut fn_value, &entry, "last");
    assert_eq!(fn_value.count_basic_blocks(), 2);
    assert_eq!(fn_value.get_first_basic_block().unwrap(), entry);
    assert_eq!(fn_value.get_last_basic_block().unwrap(), last);
}

#[test]
fn prepend_lands_immediately_before_the_given_block() {
    let mut context = Context::create();
    let mut fn_value = function_in(&mut context);
    let entry = context.append_basic_block(&mut fn_value, "entry");

    let first = context.prepend_basic_block(&mut fn_value, &entry, "first");
    assert_eq!(fn_value.count_basic_blocks(), 2);
    assert_eq!(fn_value.get_first_basic_block().unwrap(), first);
    assert_eq!(fn_value.get_last_basic_block().unwrap(), entry);
}

#[test]
fn block_labels_are_kept() {
    let mut context = Context::create();
    let mut fn_value = function_in(&mut context);
    let entry = context.append_basic_block(&mut fn_value, "entry");
    assert_eq!(entry.name, "entry");
    assert_eq!(fn_value.blocks[0].name, "entry");
}
