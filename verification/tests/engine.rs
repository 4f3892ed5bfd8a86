use cervus::engine::{Action, BasicBlock, Builder, EngineError, Function, Module, ValueType};

#[test]
fn get_param_within_declared_count() {
    let mut m = Module::new("m");
    let f = Function::new(
        &mut m,
        "f",
        ValueType::Int64,
        vec![ValueType::Int64, ValueType::Int32],
    );
    assert!(f.get_param(0).is_some());
    assert!(f.get_param(1).is_some());
    assert!(f.get_param(2).is_none());
    assert!(f.get_param(100).is_none());
}

#[test]
fn get_param_on_parameterless_function() {
    let mut m = Module::new("m");
    let f = Function::new(&mut m, "f", ValueType::Void, vec![]);
    assert!(f.get_param(0).is_none());
}

#[test]
fn builder_names_are_sequential() {
    let mut m = Module::new("m");
    let f = Function::new(
        &mut m,
        "f",
        ValueType::Int64,
        vec![ValueType::Int64, ValueType::Int64],
    );
    let bb = BasicBlock::new(&mut m, &f, "entry").unwrap();
    let p0 = f.get_param(0).unwrap();
    let p1 = f.get_param(1).unwrap();
    let mut builder = Builder::new(&bb);
    let sum = builder.append(&mut m, Action::Add(p0, p1)).unwrap();
    builder.append(&mut m, Action::Add(sum, p0)).unwrap();
    builder.append(&mut m, Action::Return(sum)).unwrap();
    let instrs = &m.functions[0].blocks[0].instrs;
    assert_eq!(instrs.len(), 3);
    assert_eq!(instrs[0].id, 1);
    assert_eq!(instrs[1].id, 2);
    assert_eq!(instrs[2].id, 3);
    assert_eq!(instrs[0].name.as_str(), "action_1");
    assert_eq!(instrs[1].name.as_str(), "action_2");
    assert_eq!(instrs[2].name.as_str(), "action_3");
    assert!(instrs[0].name != instrs[1].name);
    assert!(instrs[1].name != instrs[2].name);
    assert!(instrs[0].name != instrs[2].name);
}

#[test]
fn blocks_append_in_insertion_order() {
    let mut m = Module::new("m");
    let f = Function::new(&mut m, "f", ValueType::Void, vec![]);
    let b0 = BasicBlock::new(&mut m, &f, "first").unwrap();
    let b1 = BasicBlock::new(&mut m, &f, "second").unwrap();
    let b2 = BasicBlock::new(&mut m, &f, "third").unwrap();
    assert_eq!(b0.index, 0);
    assert_eq!(b1.index, 1);
    assert_eq!(b2.index, 2);
    let blocks = &m.functions[0].blocks;
    assert_eq!(blocks.len(), 3);
    assert_eq!(blocks[0].name.as_str(), "first");
    assert_eq!(blocks[1].name.as_str(), "second");
    assert_eq!(blocks[2].name.as_str(), "third");
}

#[test]
fn builders_on_two_blocks_count_independently() {
    let mut m = Module::new("m");
    let f = Function::new(&mut m, "f", ValueType::Int64, vec![ValueType::Int64]);
    let bb_a = BasicBlock::new(&mut m, &f, "a").unwrap();
    let bb_b = BasicBlock::new(&mut m, &f, "b").unwrap();
    let p0 = f.get_param(0).unwrap();
    let mut builder_a = Builder::new(&bb_a);
    let mut builder_b = Builder::new(&bb_b);
    builder_a.append(&mut m, Action::Add(p0, p0)).unwrap();
    builder_a.append(&mut m, Action::Return(p0)).unwrap();
    builder_b.append(&mut m, Action::Return(p0)).unwrap();
    assert_eq!(builder_a.next_action_id, 2);
    assert_eq!(builder_b.next_action_id, 1);
    let blocks = &m.functions[0].blocks;
    assert_eq!(blocks[0].instrs.len(), 2);
    assert_eq!(blocks[1].instrs.len(), 1);
    assert_eq!(blocks[0].instrs[0].name.as_str(), "action_1");
    assert_eq!(blocks[0].instrs[1].name.as_str(), "action_2");
    assert_eq!(blocks[1].instrs[0].name.as_str(), "action_1");
}

#[test]
fn stale_function_handle_is_rejected() {
    let mut owner = Module::new("owner");
    let f = Function::new(&mut owner, "f", ValueType::Void, vec![]);
    let mut other = Module::new("other");
    let r = BasicBlock::new(&mut other, &f, "entry");
    assert_eq!(r, Err(EngineError::StaleHandle));
    assert_eq!(other.functions.len(), 0);
}

#[test]
fn stale_builder_cursor_is_rejected() {
    let mut owner = Module::new("owner");
    let f = Function::new(&mut owner, "f", ValueType::Int64, vec![ValueType::Int64]);
    let bb = BasicBlock::new(&mut owner, &f, "entry").unwrap();
    let p0 = f.get_param(0).unwrap();
    let mut other = Module::new("other");
    let mut builder = Builder::new(&bb);
    let r = builder.append(&mut other, Action::Return(p0));
    assert_eq!(r, Err(EngineError::StaleHandle));
    assert_eq!(builder.next_action_id, 0);
}
