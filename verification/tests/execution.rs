use cervus::engine::{Action, BasicBlock, Builder, Function, Module, ValueType};
use cervus::execution::ExecutionEngine;
use cervus::verify::VerifyError;

fn adder() -> (Module, Function) {
    let mut m = Module::new("m");
    let f = Function::new(
        &mut m,
        "adder",
        ValueType::Int64,
        vec![ValueType::Int64, ValueType::Int64],
    );
    let bb = BasicBlock::new(&mut m, &f, "entry").unwrap();
    let p0 = f.get_param(0).unwrap();
    let p1 = f.get_param(1).unwrap();
    let mut builder = Builder::new(&bb);
    let sum = builder.append(&mut m, Action::Add(p0, p1)).unwrap();
    builder.append(&mut m, Action::Return(sum)).unwrap();
    (m, f)
}

#[test]
fn compiled_adder_computes_sums() {
    let (m, f) = adder();
    let engine = ExecutionEngine::new(m).unwrap();
    assert_eq!(engine.call(&f, &vec![2, 3]), Some(5));
    assert_eq!(engine.call(&f, &vec![0, 0]), Some(0));
    assert_eq!(engine.call(&f, &vec![-1, 1]), Some(0));
    assert_eq!(engine.call(&f, &vec![40, 2]), Some(42));
}

#[test]
fn addition_wraps_around_on_overflow() {
    let (m, f) = adder();
    let engine = ExecutionEngine::new(m).unwrap();
    assert_eq!(engine.call(&f, &vec![i64::MAX, 1]), Some(i64::MIN));
    assert_eq!(engine.call(&f, &vec![i64::MIN, -1]), Some(i64::MAX));
}

#[test]
fn chained_additions_evaluate_in_order() {
    let mut m = Module::new("m");
    let f = Function::new(
        &mut m,
        "triple",
        ValueType::Int64,
        vec![ValueType::Int64],
    );
    let bb = BasicBlock::new(&mut m, &f, "entry").unwrap();
    let p0 = f.get_param(0).unwrap();
    let mut builder = Builder::new(&bb);
    let twice = builder.append(&mut m, Action::Add(p0, p0)).unwrap();
    let thrice = builder.append(&mut m, Action::Add(twice, p0)).unwrap();
    builder.append(&mut m, Action::Return(thrice)).unwrap();
    let engine = ExecutionEngine::new(m).unwrap();
    assert_eq!(engine.call(&f, &vec![7]), Some(21));
    assert_eq!(engine.call(&f, &vec![-4]), Some(-12));
}

#[test]
fn returning_a_parameter_is_identity() {
    let mut m = Module::new("m");
    let f = Function::new(&mut m, "id", ValueType::Int64, vec![ValueType::Int64]);
    let bb = BasicBlock::new(&mut m, &f, "entry").unwrap();
    let p0 = f.get_param(0).unwrap();
    let mut builder = Builder::new(&bb);
    builder.append(&mut m, Action::Return(p0)).unwrap();
    let engine = ExecutionEngine::new(m).unwrap();
    assert_eq!(engine.call(&f, &vec![7]), Some(7));
    assert_eq!(engine.call(&f, &vec![-9]), Some(-9));
}

#[test]
fn unterminated_module_is_rejected_by_engine() {
    let mut m = Module::new("m");
    let f = Function::new(&mut m, "f", ValueType::Int64, vec![ValueType::Int64]);
    let bb = BasicBlock::new(&mut m, &f, "entry").unwrap();
    let p0 = f.get_param(0).unwrap();
    let mut builder = Builder::new(&bb);
    builder.append(&mut m, Action::Add(p0, p0)).unwrap();
    let r = ExecutionEngine::new(m);
    assert_eq!(
        r.err(),
        Some(VerifyError::MissingTerminator { function: 0, block: 0 })
    );
}

#[test]
fn call_with_wrong_argument_count_yields_nothing() {
    let (m, f) = adder();
    let engine = ExecutionEngine::new(m).unwrap();
    assert_eq!(engine.call(&f, &vec![1]), None);
    assert_eq!(engine.call(&f, &vec![1, 2, 3]), None);
}

#[test]
fn call_through_stale_handle_yields_nothing() {
    let (m, _) = adder();
    let engine = ExecutionEngine::new(m).unwrap();
    let mut other = Module::new("other");
    let stale = {
        let mut g = Function::new(&mut other, "g", ValueType::Int64, vec![]);
        g.index = 5;
        g
    };
    assert_eq!(engine.call(&stale, &vec![]), None);
}

#[test]
fn calling_a_bare_declaration_yields_nothing() {
    let mut m = Module::new("m");
    let f = Function::new(&mut m, "decl", ValueType::Int64, vec![ValueType::Int64]);
    let engine = ExecutionEngine::new(m).unwrap();
    assert_eq!(engine.call(&f, &vec![1]), None);
}
