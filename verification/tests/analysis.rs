use classflow::cfg::{analyze_method, build_blocks, find_leaders};
use classflow::descriptor::{parse_field_descriptor, parse_method_descriptor};
use classflow::effect::{generate_stack, instruction_effect};
use classflow::error::ErrorKind;
use classflow::instruction::Instruction;
use classflow::pool::{ConstPool, PoolEntry};
use classflow::stack::Stack;
use classflow::value::Value;

fn empty_pool() -> ConstPool {
    ConstPool::new(vec![PoolEntry::Unusable])
}

#[test]
fn method_descriptor_round_trip() {
    let (params, ret) = parse_method_descriptor(b"(IJLjava/lang/String;)D").unwrap();
    assert_eq!(params, vec![Value::I32, Value::I64, Value::Ref]);
    assert_eq!(ret, Some(Value::F64));
}

#[test]
fn method_descriptor_void_and_arrays() {
    let (params, ret) = parse_method_descriptor(b"([[I[Ljava/lang/Object;Z)V").unwrap();
    assert_eq!(params, vec![Value::Ref, Value::Ref, Value::I32]);
    assert_eq!(ret, None);
    let (params, ret) = parse_method_descriptor(b"()F").unwrap();
    assert!(params.is_empty());
    assert_eq!(ret, Some(Value::F32));
}

#[test]
fn method_descriptor_malformed() {
    assert_eq!(parse_method_descriptor(b"(I"), Err(ErrorKind::InvalidDescriptor));
    assert_eq!(parse_method_descriptor(b"I)V"), Err(ErrorKind::InvalidDescriptor));
    assert_eq!(parse_method_descriptor(b"(I)"), Err(ErrorKind::InvalidDescriptor));
    assert_eq!(parse_method_descriptor(b"(I)VV"), Err(ErrorKind::InvalidDescriptor));
    assert_eq!(parse_method_descriptor(b"(L;)V"), Err(ErrorKind::InvalidDescriptor));
}

#[test]
fn field_descriptor_categories() {
    assert_eq!(parse_field_descriptor(b"I"), Ok(Value::I32));
    assert_eq!(parse_field_descriptor(b"Z"), Ok(Value::I32));
    assert_eq!(parse_field_descriptor(b"F"), Ok(Value::F32));
    assert_eq!(parse_field_descriptor(b"J"), Ok(Value::I64));
    assert_eq!(parse_field_descriptor(b"D"), Ok(Value::F64));
    assert_eq!(parse_field_descriptor(b"Ljava/lang/String;"), Ok(Value::Ref));
    assert_eq!(parse_field_descriptor(b"[[J"), Ok(Value::Ref));
    assert_eq!(parse_field_descriptor(b"X"), Err(ErrorKind::InvalidDescriptor));
    assert_eq!(parse_field_descriptor(b"II"), Err(ErrorKind::InvalidDescriptor));
    assert_eq!(parse_field_descriptor(b""), Err(ErrorKind::InvalidDescriptor));
}

#[test]
fn value_widths() {
    assert!(Value::I64.is_big());
    assert!(Value::F64.is_big());
    assert!(Value::I32.is_small());
    assert!(Value::F32.is_small());
    assert!(Value::Ref.is_small());
}

#[test]
fn merge_of_empty_predecessor_list_is_empty() {
    let s = Stack::new(&[]).unwrap();
    assert!(s.inputs().is_empty());
    assert!(s.values().is_empty());
}

#[test]
fn merge_inherits_single_predecessor_shape() {
    let mut a = Stack::new(&[]).unwrap();
    a.push(Value::I32);
    a.push(Value::Ref);
    let s = Stack::new(&[a]).unwrap();
    assert_eq!(s.inputs(), &vec![Value::I32, Value::Ref]);
    assert_eq!(s.values(), &vec![Value::I32, Value::Ref]);
}

#[test]
fn merge_accepts_agreeing_predecessors() {
    let mut a = Stack::new(&[]).unwrap();
    a.push(Value::F64);
    let mut b = Stack::new(&[]).unwrap();
    b.push(Value::F64);
    let s = Stack::new(&[a, b]).unwrap();
    assert_eq!(s.values(), &vec![Value::F64]);
}

#[test]
fn merge_rejects_disagreeing_predecessors() {
    let mut a = Stack::new(&[]).unwrap();
    a.push(Value::I32);
    let mut b = Stack::new(&[]).unwrap();
    b.push(Value::F32);
    assert_eq!(Stack::new(&[a, b]).err(), Some(ErrorKind::StackShapeMismatch));
}

#[test]
fn pop_known_on_empty_stack_grows_inputs() {
    let mut s = Stack::new(&[]).unwrap();
    assert_eq!(s.pop_known(Value::I64), Ok(Value::I64));
    assert_eq!(s.inputs()[0], Value::I64);
    assert_eq!(s.pop_known(Value::Ref), Ok(Value::Ref));
    assert_eq!(s.inputs(), &vec![Value::Ref, Value::I64]);
    assert!(s.values().is_empty());
}

#[test]
fn pop_known_rejects_wrong_category() {
    let mut s = Stack::new(&[]).unwrap();
    s.push(Value::F32);
    assert_eq!(
        s.pop_known(Value::I32),
        Err(ErrorKind::TypeMismatch { expected: Value::I32, found: Value::F32 })
    );
}

#[test]
fn pop_unknown_underflows_on_empty_stack() {
    let mut s = Stack::new(&[]).unwrap();
    assert_eq!(s.pop_unknown(), Err(ErrorKind::StackUnderflow));
}

#[test]
fn dup_rejects_two_word_value() {
    let pool = empty_pool();
    let mut s = Stack::new(&[]).unwrap();
    s.push(Value::I64);
    assert_eq!(
        instruction_effect(&mut s, &Instruction::Dup, &pool),
        Err(ErrorKind::IllegalCategory)
    );
}

#[test]
fn dup_copies_one_word_value() {
    let pool = empty_pool();
    let mut s = Stack::new(&[]).unwrap();
    s.push(Value::I32);
    instruction_effect(&mut s, &Instruction::Dup, &pool).unwrap();
    assert_eq!(s.values(), &vec![Value::I32, Value::I32]);
}

#[test]
fn dup_family_preserves_word_count() {
    let pool = empty_pool();

    let mut s = Stack::new(&[]).unwrap();
    s.push(Value::Ref);
    s.push(Value::I32);
    instruction_effect(&mut s, &Instruction::DupX1, &pool).unwrap();
    assert_eq!(s.values(), &vec![Value::I32, Value::Ref, Value::I32]);

    let mut s = Stack::new(&[]).unwrap();
    s.push(Value::I64);
    instruction_effect(&mut s, &Instruction::Dup2, &pool).unwrap();
    assert_eq!(s.values(), &vec![Value::I64, Value::I64]);

    let mut s = Stack::new(&[]).unwrap();
    s.push(Value::I32);
    s.push(Value::F32);
    instruction_effect(&mut s, &Instruction::Dup2, &pool).unwrap();
    assert_eq!(s.values(), &vec![Value::I32, Value::F32, Value::I32, Value::F32]);

    let mut s = Stack::new(&[]).unwrap();
    s.push(Value::I32);
    s.push(Value::I64);
    instruction_effect(&mut s, &Instruction::DupX2, &pool).unwrap_err();

    let mut s = Stack::new(&[]).unwrap();
    s.push(Value::I64);
    s.push(Value::I32);
    instruction_effect(&mut s, &Instruction::DupX2, &pool).unwrap();
    assert_eq!(s.values(), &vec![Value::I32, Value::I64, Value::I32]);

    let mut s = Stack::new(&[]).unwrap();
    s.push(Value::Ref);
    s.push(Value::I64);
    instruction_effect(&mut s, &Instruction::Dup2X1, &pool).unwrap();
    assert_eq!(s.values(), &vec![Value::I64, Value::Ref, Value::I64]);

    let mut s = Stack::new(&[]).unwrap();
    s.push(Value::F64);
    s.push(Value::I64);
    instruction_effect(&mut s, &Instruction::Dup2X2, &pool).unwrap();
    assert_eq!(s.values(), &vec![Value::I64, Value::F64, Value::I64]);
}

#[test]
fn swap_and_pops_respect_categories() {
    let pool = empty_pool();

    let mut s = Stack::new(&[]).unwrap();
    s.push(Value::I32);
    s.push(Value::Ref);
    instruction_effect(&mut s, &Instruction::Swap, &pool).unwrap();
    assert_eq!(s.values(), &vec![Value::Ref, Value::I32]);

    let mut s = Stack::new(&[]).unwrap();
    s.push(Value::I64);
    assert_eq!(
        instruction_effect(&mut s, &Instruction::Pop, &pool),
        Err(ErrorKind::IllegalCategory)
    );

    let mut s = Stack::new(&[]).unwrap();
    s.push(Value::I64);
    instruction_effect(&mut s, &Instruction::Pop2, &pool).unwrap();
    assert!(s.values().is_empty());

    let mut s = Stack::new(&[]).unwrap();
    assert_eq!(
        instruction_effect(&mut s, &Instruction::Dup, &pool),
        Err(ErrorKind::StackUnderflow)
    );
}

#[test]
fn field_access_uses_pool_descriptor() {
    let pool = ConstPool::new(vec![
        PoolEntry::Unusable,
        PoolEntry::FieldRef { class_index: 2, name_and_type_index: 3 },
        PoolEntry::Class { name_index: 4 },
        PoolEntry::NameAndType { name_index: 5, descriptor_index: 6 },
        PoolEntry::Utf8 { text: b"owner".to_vec() },
        PoolEntry::Utf8 { text: b"field".to_vec() },
        PoolEntry::Utf8 { text: b"J".to_vec() },
    ]);
    let mut s = Stack::new(&[]).unwrap();
    s.push(Value::Ref);
    instruction_effect(&mut s, &Instruction::GetField { index: 1 }, &pool).unwrap();
    assert_eq!(s.values(), &vec![Value::I64]);

    instruction_effect(&mut s, &Instruction::PutStatic { index: 1 }, &pool).unwrap();
    assert!(s.values().is_empty());
}

#[test]
fn pool_resolution_errors() {
    let pool = ConstPool::new(vec![
        PoolEntry::Unusable,
        PoolEntry::Class { name_index: 9 },
        PoolEntry::FieldRef { class_index: 1, name_and_type_index: 3 },
        PoolEntry::NameAndType { name_index: 1, descriptor_index: 4 },
        PoolEntry::Utf8 { text: b"?".to_vec() },
    ]);
    let mut s = Stack::new(&[]).unwrap();
    assert_eq!(
        instruction_effect(&mut s, &Instruction::GetStatic { index: 9 }, &pool),
        Err(ErrorKind::BadPoolIndex { index: 9 })
    );
    let mut s = Stack::new(&[]).unwrap();
    assert_eq!(
        instruction_effect(&mut s, &Instruction::GetStatic { index: 1 }, &pool),
        Err(ErrorKind::WrongPoolEntry { index: 1 })
    );
    let mut s = Stack::new(&[]).unwrap();
    assert_eq!(
        instruction_effect(&mut s, &Instruction::GetStatic { index: 2 }, &pool),
        Err(ErrorKind::InvalidDescriptor)
    );
    let mut s = Stack::new(&[]).unwrap();
    assert_eq!(
        instruction_effect(&mut s, &Instruction::GetStatic { index: 0 }, &pool),
        Err(ErrorKind::BadPoolIndex { index: 0 })
    );
}

#[test]
fn invocation_pops_arguments_and_receiver() {
    let pool = ConstPool::new(vec![
        PoolEntry::Unusable,
        PoolEntry::MethodRef { class_index: 2, name_and_type_index: 3 },
        PoolEntry::Class { name_index: 4 },
        PoolEntry::NameAndType { name_index: 4, descriptor_index: 5 },
        PoolEntry::Utf8 { text: b"m".to_vec() },
        PoolEntry::Utf8 { text: b"(IJ)D".to_vec() },
    ]);
    let mut s = Stack::new(&[]).unwrap();
    s.push(Value::Ref);
    s.push(Value::I32);
    s.push(Value::I64);
    instruction_effect(&mut s, &Instruction::InvokeVirtual { index: 1 }, &pool).unwrap();
    assert_eq!(s.values(), &vec![Value::F64]);

    let mut s = Stack::new(&[]).unwrap();
    s.push(Value::I32);
    s.push(Value::I64);
    instruction_effect(&mut s, &Instruction::InvokeStatic { index: 1 }, &pool).unwrap();
    assert_eq!(s.values(), &vec![Value::F64]);
}

#[test]
fn constant_loads_take_category_from_pool() {
    let pool = ConstPool::new(vec![
        PoolEntry::Unusable,
        PoolEntry::IntegerConst,
        PoolEntry::LongConst,
        PoolEntry::Unusable,
        PoolEntry::StringConst { string_index: 5 },
        PoolEntry::Utf8 { text: b"hi".to_vec() },
    ]);
    let mut s = Stack::new(&[]).unwrap();
    instruction_effect(&mut s, &Instruction::LdC { index: 1 }, &pool).unwrap();
    instruction_effect(&mut s, &Instruction::LdC2W { index: 2 }, &pool).unwrap();
    instruction_effect(&mut s, &Instruction::LdCW { index: 4 }, &pool).unwrap();
    assert_eq!(s.values(), &vec![Value::I32, Value::I64, Value::Ref]);

    let mut s = Stack::new(&[]).unwrap();
    assert_eq!(
        instruction_effect(&mut s, &Instruction::LdC { index: 2 }, &pool),
        Err(ErrorKind::WrongPoolEntry { index: 2 })
    );
}

#[test]
fn generate_stack_folds_a_block() {
    let pool = empty_pool();
    let block = vec![
        (0u32, Instruction::IConst1),
        (1u32, Instruction::IConst2),
        (2u32, Instruction::IAdd),
        (3u32, Instruction::I2L),
    ];
    let s = generate_stack(&block, &pool, &[]).unwrap();
    assert!(s.inputs().is_empty());
    assert_eq!(s.values(), &vec![Value::I64]);
}

#[test]
fn generate_stack_reports_failing_address() {
    let pool = empty_pool();
    let block = vec![
        (0u32, Instruction::FConst0),
        (1u32, Instruction::IAdd),
    ];
    let f = generate_stack(&block, &pool, &[]).unwrap_err();
    assert_eq!(f.address, 1);
    assert_eq!(f.kind, ErrorKind::TypeMismatch { expected: Value::I32, found: Value::F32 });
}

#[test]
fn generate_stack_infers_demanded_inputs() {
    let pool = empty_pool();
    let block = vec![(0u32, Instruction::IReturn)];
    let s = generate_stack(&block, &pool, &[]).unwrap();
    assert_eq!(s.inputs(), &vec![Value::I32]);
    assert!(s.values().is_empty());
}

#[test]
fn straight_line_method_is_one_block() {
    let pool = empty_pool();
    let stream = vec![
        (0u32, Instruction::IConst1),
        (1u32, Instruction::IConst2),
        (2u32, Instruction::IAdd),
        (3u32, Instruction::IReturn),
    ];
    let leaders = find_leaders(&stream, &[]).unwrap();
    assert_eq!(leaders, vec![0]);
    let results = analyze_method(&stream, &[], &pool).unwrap();
    assert_eq!(results.len(), 1);
    assert_eq!(results[0].block.start, 0);
    assert_eq!(results[0].block.end, 4);
    assert_eq!(results[0].block.address, 0);
    assert!(results[0].entry.is_empty());
    assert!(results[0].exit.is_empty());
}

#[test]
fn branch_targets_and_successors_are_leaders() {
    let stream = vec![
        (0u32, Instruction::ILoad0),
        (1u32, Instruction::IfEq { target: 10 }),
        (2u32, Instruction::IConst1),
        (3u32, Instruction::Goto { target: 12 }),
        (5u32, Instruction::IConst0),
        (10u32, Instruction::IConst2),
        (12u32, Instruction::IReturn),
    ];
    let leaders = find_leaders(&stream, &[]).unwrap();
    assert_eq!(leaders, vec![0, 2, 5, 10, 12]);
}

#[test]
fn diamond_merges_agreeing_paths() {
    let pool = empty_pool();
    let stream = vec![
        (0u32, Instruction::ILoad0),
        (1u32, Instruction::IfEq { target: 6 }),
        (2u32, Instruction::IConst1),
        (3u32, Instruction::Goto { target: 7 }),
        (6u32, Instruction::IConst2),
        (7u32, Instruction::IReturn),
    ];
    let leaders = find_leaders(&stream, &[]).unwrap();
    assert_eq!(leaders, vec![0, 2, 6, 7]);
    let results = analyze_method(&stream, &[], &pool).unwrap();
    assert_eq!(results.len(), 4);
    assert!(results[0].entry.is_empty());
    assert!(results[0].exit.is_empty());
    assert_eq!(results[1].exit, vec![Value::I32]);
    assert_eq!(results[2].exit, vec![Value::I32]);
    assert_eq!(results[3].entry, vec![Value::I32]);
    assert!(results[3].exit.is_empty());
}

#[test]
fn merge_disagreement_fails_at_join_address() {
    let pool = empty_pool();
    let stream = vec![
        (0u32, Instruction::IConst1),
        (1u32, Instruction::IfEq { target: 5 }),
        (2u32, Instruction::IConst2),
        (3u32, Instruction::Goto { target: 6 }),
        (5u32, Instruction::FConst0),
        (6u32, Instruction::Return),
    ];
    let f = analyze_method(&stream, &[], &pool).unwrap_err();
    assert_eq!(f.kind, ErrorKind::StackShapeMismatch);
    assert_eq!(f.address, 6);
}

#[test]
fn matching_back_edge_is_accepted() {
    let pool = empty_pool();
    let stream = vec![
        (0u32, Instruction::ILoad0),
        (1u32, Instruction::IfNe { target: 0 }),
    ];
    let results = analyze_method(&stream, &[], &pool).unwrap();
    assert_eq!(results.len(), 1);
    assert!(results[0].entry.is_empty());
    assert!(results[0].exit.is_empty());
}

#[test]
fn growing_back_edge_is_rejected() {
    let pool = empty_pool();
    let stream = vec![
        (0u32, Instruction::IConst1),
        (1u32, Instruction::Goto { target: 0 }),
    ];
    let f = analyze_method(&stream, &[], &pool).unwrap_err();
    assert_eq!(f.kind, ErrorKind::StackShapeMismatch);
    assert_eq!(f.address, 0);
}

#[test]
fn out_of_order_stream_is_rejected() {
    let pool = empty_pool();
    let stream = vec![
        (0u32, Instruction::IConst1),
        (4u32, Instruction::IConst2),
        (4u32, Instruction::IAdd),
        (5u32, Instruction::IReturn),
    ];
    let f = analyze_method(&stream, &[], &pool).unwrap_err();
    assert_eq!(f.kind, ErrorKind::InvalidOrdering);
    assert_eq!(f.address, 4);
}

#[test]
fn handler_entries_begin_blocks() {
    let stream = vec![
        (0u32, Instruction::IConst1),
        (1u32, Instruction::IStore0),
        (2u32, Instruction::IConst2),
        (3u32, Instruction::IStore1),
        (4u32, Instruction::Return),
    ];
    let leaders = find_leaders(&stream, &[2]).unwrap();
    assert_eq!(leaders, vec![0, 2]);
    let blocks = build_blocks(&stream, &[2]).unwrap();
    assert_eq!(blocks.len(), 2);
    assert_eq!((blocks[0].start, blocks[0].end), (0, 2));
    assert_eq!((blocks[1].start, blocks[1].end), (2, 5));
}

#[test]
fn narrowing_cast_isolates_a_boundary() {
    let pool = empty_pool();
    let stream = vec![
        (0u32, Instruction::ALoad0),
        (1u32, Instruction::CheckCast { index: 1 }),
        (4u32, Instruction::AReturn),
    ];
    let leaders = find_leaders(&stream, &[]).unwrap();
    assert_eq!(leaders, vec![0, 4]);
    let results = analyze_method(&stream, &[], &pool).unwrap();
    assert_eq!(results.len(), 2);
    assert_eq!(results[0].exit, vec![Value::Ref]);
    assert_eq!(results[1].entry, vec![Value::Ref]);
    assert!(results[1].exit.is_empty());
}

#[test]
fn switches_pop_their_key_and_mark_targets() {
    let pool = empty_pool();
    let stream = vec![
        (0u32, Instruction::ILoad0),
        (1u32, Instruction::TableSwitch { default_target: 20, targets: vec![16, 18] }),
        (16u32, Instruction::Return),
        (18u32, Instruction::Return),
        (20u32, Instruction::Return),
    ];
    let leaders = find_leaders(&stream, &[]).unwrap();
    assert_eq!(leaders, vec![0, 16, 18, 20]);
    let results = analyze_method(&stream, &[], &pool).unwrap();
    assert_eq!(results.len(), 4);
    assert!(results[0].exit.is_empty());
}

#[test]
fn array_accesses_and_conversions() {
    let pool = empty_pool();
    let block = vec![
        (0u32, Instruction::ALoad0),
        (1u32, Instruction::IConst0),
        (2u32, Instruction::IALoad),
        (3u32, Instruction::I2D),
        (4u32, Instruction::D2F),
        (5u32, Instruction::F2L),
        (6u32, Instruction::LConst0),
        (7u32, Instruction::LAdd),
        (8u32, Instruction::LCmp),
    ];
    let s = generate_stack(&block, &pool, &[]).unwrap();
    assert_eq!(s.inputs(), &vec![Value::I64]);
    assert_eq!(s.values(), &vec![Value::I32]);
}

#[test]
fn long_shift_takes_int_amount() {
    let pool = empty_pool();
    let block = vec![
        (0u32, Instruction::LConst1),
        (1u32, Instruction::IConst2),
        (2u32, Instruction::LShL),
    ];
    let s = generate_stack(&block, &pool, &[]).unwrap();
    assert_eq!(s.values(), &vec![Value::I64]);
}

#[test]
fn empty_stream_has_no_blocks() {
    let pool = empty_pool();
    let stream: Vec<(u32, Instruction)> = Vec::new();
    assert_eq!(find_leaders(&stream, &[]).unwrap(), Vec::<u32>::new());
    assert!(analyze_method(&stream, &[], &pool).unwrap().is_empty());
}

#[test]
fn duplicate_targets_yield_one_leader() {
    let stream = vec![
        (0u32, Instruction::ILoad0),
        (1u32, Instruction::IfEq { target: 8 }),
        (4u32, Instruction::Goto { target: 8 }),
        (8u32, Instruction::Return),
    ];
    let leaders = find_leaders(&stream, &[]).unwrap();
    assert_eq!(leaders, vec![0, 4, 8]);
}

#[test]
fn multianewarray_pops_one_length_per_dimension() {
    let pool = empty_pool();
    let block = vec![
        (0u32, Instruction::IConst1),
        (1u32, Instruction::IConst2),
        (2u32, Instruction::MultiANewArray { index: 1, dimensions: 2 }),
    ];
    let s = generate_stack(&block, &pool, &[]).unwrap();
    assert_eq!(s.values(), &vec![Value::Ref]);
    assert!(s.inputs().is_empty());
}

#[test]
fn monitor_instructions_pop_a_reference() {
    let pool = empty_pool();
    let mut s = Stack::new(&[]).unwrap();
    s.push(Value::Ref);
    instruction_effect(&mut s, &Instruction::MonitorEnter, &pool).unwrap();
    assert!(s.values().is_empty());
    let mut s = Stack::new(&[]).unwrap();
    s.push(Value::I32);
    assert_eq!(
        instruction_effect(&mut s, &Instruction::MonitorExit, &pool),
        Err(ErrorKind::TypeMismatch { expected: Value::Ref, found: Value::I32 })
    );
}

#[test]
fn putfield_pops_value_then_reference() {
    let pool = ConstPool::new(vec![
        PoolEntry::Unusable,
        PoolEntry::FieldRef { class_index: 2, name_and_type_index: 3 },
        PoolEntry::Class { name_index: 4 },
        PoolEntry::NameAndType { name_index: 4, descriptor_index: 5 },
        PoolEntry::Utf8 { text: b"f".to_vec() },
        PoolEntry::Utf8 { text: b"D".to_vec() },
    ]);
    let mut s = Stack::new(&[]).unwrap();
    s.push(Value::Ref);
    s.push(Value::F64);
    instruction_effect(&mut s, &Instruction::PutField { index: 1 }, &pool).unwrap();
    assert!(s.values().is_empty());
}

#[test]
fn dynamic_call_site_uses_its_descriptor() {
    let pool = ConstPool::new(vec![
        PoolEntry::Unusable,
        PoolEntry::InvokeDynamic { bootstrap_index: 0, name_and_type_index: 2 },
        PoolEntry::NameAndType { name_index: 3, descriptor_index: 4 },
        PoolEntry::Utf8 { text: b"f".to_vec() },
        PoolEntry::Utf8 { text: b"(I)J".to_vec() },
    ]);
    let mut s = Stack::new(&[]).unwrap();
    s.push(Value::I32);
    instruction_effect(&mut s, &Instruction::InvokeDynamic { index: 1 }, &pool).unwrap();
    assert_eq!(s.values(), &vec![Value::I64]);
}

#[test]
fn dynamic_constants_load_their_field_category() {
    let pool = ConstPool::new(vec![
        PoolEntry::Unusable,
        PoolEntry::Dynamic { bootstrap_index: 0, name_and_type_index: 3 },
        PoolEntry::Dynamic { bootstrap_index: 0, name_and_type_index: 4 },
        PoolEntry::NameAndType { name_index: 5, descriptor_index: 6 },
        PoolEntry::NameAndType { name_index: 5, descriptor_index: 7 },
        PoolEntry::Utf8 { text: b"c".to_vec() },
        PoolEntry::Utf8 { text: b"F".to_vec() },
        PoolEntry::Utf8 { text: b"D".to_vec() },
    ]);
    let mut s = Stack::new(&[]).unwrap();
    instruction_effect(&mut s, &Instruction::LdC { index: 1 }, &pool).unwrap();
    instruction_effect(&mut s, &Instruction::LdC2W { index: 2 }, &pool).unwrap();
    assert_eq!(s.values(), &vec![Value::F32, Value::F64]);

    let mut s = Stack::new(&[]).unwrap();
    assert_eq!(
        instruction_effect(&mut s, &Instruction::LdC { index: 2 }, &pool),
        Err(ErrorKind::WrongPoolEntry { index: 2 })
    );
}

#[test]
fn subroutine_forms_have_no_stack_effect_and_end_blocks() {
    let pool = empty_pool();
    let stream = vec![
        (0u32, Instruction::JSr { target: 4 }),
        (3u32, Instruction::Return),
        (4u32, Instruction::Ret { index: 0 }),
    ];
    let leaders = find_leaders(&stream, &[]).unwrap();
    assert_eq!(leaders, vec![0, 3, 4]);
    let results = analyze_method(&stream, &[], &pool).unwrap();
    assert_eq!(results.len(), 3);
    for r in &results {
        assert!(r.entry.is_empty());
        assert!(r.exit.is_empty());
    }
}

#[test]
fn object_creation_and_instance_checks() {
    let pool = empty_pool();
    let block = vec![
        (0u32, Instruction::New { index: 1 }),
        (3u32, Instruction::InstanceOf { index: 1 }),
        (6u32, Instruction::NewArray { atype: 10 }),
        (8u32, Instruction::ArrayLength),
    ];
    let s = generate_stack(&block, &pool, &[]).unwrap();
    assert_eq!(s.values(), &vec![Value::I32]);
}
