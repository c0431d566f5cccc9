use std::rc::Rc;

use packed_ops::gates::{gate_name, StandardGate};
use packed_ops::handle::ManagedHandle;
use packed_ops::instruction::{
    ExtraAttributes, InternedId, MaterializePlan, PackedInstruction,
};
use packed_ops::instructions::StandardInstruction;
use packed_ops::packed_op::{EqOutcome, OperationRef, PackedOperation};
use packed_ops::params::{Param, ParamList};
use packed_ops::records::GateRecord;

fn handle(token: u64) -> ManagedHandle {
    ManagedHandle::acquire(token, Rc::new(token))
}

fn bare(op: PackedOperation) -> PackedInstruction {
    PackedInstruction::new(op, InternedId { index: 0 }, InternedId { index: 0 }, None, None)
}

fn heap_gate_instruction(token: u64, param: Param) -> PackedInstruction {
    let record = GateRecord {
        gate: handle(token),
        qubits: 1,
        clbits: 0,
        params: 1,
        op_name: String::from("custom_gate"),
    };
    PackedInstruction::new(
        PackedOperation::from_gate(Box::new(record)),
        InternedId { index: 3 },
        InternedId { index: 0 },
        Some(Box::new(ParamList::from_vec(vec![param]))),
        None,
    )
}

#[test]
fn params_view_is_empty_without_allocation_marker() {
    let instr = bare(PackedOperation::from_standard(StandardGate::CX));
    assert!(instr.params_view().is_empty());
    assert!(!instr.is_parameterized());
}

#[test]
fn params_round_trip_through_the_stored_list() {
    let list = ParamList::from_vec(vec![Param::Value(7), Param::Value(9)]);
    assert_eq!(list.len(), 2);
    let instr = PackedInstruction::new(
        PackedOperation::from_standard(StandardGate::RZ),
        InternedId { index: 1 },
        InternedId { index: 0 },
        Some(Box::new(list)),
        None,
    );
    let view = instr.params_view();
    assert_eq!(view.len(), 2);
    assert!(matches!(view[0], Param::Value(7)));
    assert!(matches!(view[1], Param::Value(9)));
}

#[test]
fn params_mut_writes_reach_the_stored_list() {
    let mut instr = heap_gate_instruction(5, Param::Value(1));
    {
        let params = instr.params_mut();
        params[0] = Param::Value(42);
    }
    assert!(matches!(instr.params_view()[0], Param::Value(42)));
}

#[test]
fn is_parameterized_detects_symbolic_expressions() {
    let concrete = PackedInstruction::new(
        PackedOperation::from_standard(StandardGate::RX),
        InternedId { index: 0 },
        InternedId { index: 0 },
        Some(Box::new(ParamList::from_vec(vec![
            Param::Value(3),
            Param::Obj(handle(90)),
        ]))),
        None,
    );
    assert!(!concrete.is_parameterized());

    let symbolic = PackedInstruction::new(
        PackedOperation::from_standard(StandardGate::RX),
        InternedId { index: 0 },
        InternedId { index: 0 },
        Some(Box::new(ParamList::from_vec(vec![
            Param::Value(3),
            Param::Expression(handle(91)),
        ]))),
        None,
    );
    assert!(symbolic.is_parameterized());
}

#[test]
fn label_and_condition_come_from_the_extra_block() {
    let instr = bare(PackedOperation::from_standard(StandardGate::S));
    assert!(instr.label().is_none());
    assert!(instr.condition().is_none());

    let attrs = ExtraAttributes {
        label: Some(String::from("tagged")),
        condition: Some(handle(17)),
        duration: None,
        unit: Some(String::from("dt")),
    };
    let instr = PackedInstruction::new(
        PackedOperation::from_standard(StandardGate::S),
        InternedId { index: 0 },
        InternedId { index: 0 },
        None,
        Some(Box::new(attrs)),
    );
    assert_eq!(instr.label(), Some("tagged"));
    assert_eq!(instr.condition().unwrap().token(), 17);
}

#[test]
fn materialization_settles_once_and_discards_later_results() {
    let mut instr = bare(PackedOperation::from_standard(StandardGate::H));

    match instr.materialize_plan() {
        MaterializePlan::BuildStandardGate(g) => assert_eq!(g, StandardGate::H),
        _ => panic!("expected a build request for the fixed code"),
    }

    let first = instr.settle_cache(handle(100));
    assert_eq!(first.token(), 100);

    match instr.materialize_plan() {
        MaterializePlan::Cached(h) => assert_eq!(h.token(), 100),
        _ => panic!("expected the settled object"),
    }

    let second = instr.settle_cache(handle(200));
    assert_eq!(second.token(), 200);
    match instr.materialize_plan() {
        MaterializePlan::Cached(h) => assert_eq!(h.token(), 100),
        _ => panic!("expected the first settled object to win"),
    }
}

#[test]
fn racing_settles_agree_and_do_not_leak() {
    let lease_a = Rc::new(0u64);
    let lease_b = Rc::new(0u64);
    let mut instr = bare(PackedOperation::from_standard(StandardGate::X));

    let a = instr.settle_cache(ManagedHandle::acquire(1, Rc::clone(&lease_a)));
    let b = instr.settle_cache(ManagedHandle::acquire(2, Rc::clone(&lease_b)));
    assert_eq!(a.token(), 1);
    assert_eq!(b.token(), 2);

    drop(a);
    drop(b);
    assert_eq!(Rc::strong_count(&lease_a), 2);
    assert_eq!(Rc::strong_count(&lease_b), 1);

    drop(instr);
    assert_eq!(Rc::strong_count(&lease_a), 1);
    assert_eq!(Rc::strong_count(&lease_b), 1);
}

#[test]
fn materialization_reuses_the_record_object() {
    let instr = heap_gate_instruction(55, Param::Value(2));
    match instr.materialize_plan() {
        MaterializePlan::FromRecord(h) => assert_eq!(h.token(), 55),
        _ => panic!("expected the record's own object"),
    }
}

#[test]
fn materialization_requests_fixed_instruction_builds() {
    let instr = bare(PackedOperation::from_standard_instruction(StandardInstruction::Measure));
    match instr.materialize_plan() {
        MaterializePlan::BuildStandardInstruction(i) => {
            assert_eq!(i, StandardInstruction::Measure)
        }
        _ => panic!("expected a build request for the fixed instruction"),
    }
}

#[test]
fn instruction_eq_follows_the_operation_dispatch() {
    let a = bare(PackedOperation::from_standard(StandardGate::CZ));
    let b = bare(PackedOperation::from_standard(StandardGate::CZ));
    assert!(matches!(a.instruction_eq(&b), EqOutcome::Decided(true)));

    let c = heap_gate_instruction(61, Param::Value(0));
    match a.instruction_eq(&c) {
        EqOutcome::PromoteFixed(g, h) => {
            assert_eq!(g, StandardGate::CZ);
            assert_eq!(h.token(), 61);
        }
        _ => panic!("expected promotion of the fixed side"),
    }
    match c.instruction_eq(&a) {
        EqOutcome::PromoteFixed(g, h) => {
            assert_eq!(g, StandardGate::CZ);
            assert_eq!(h.token(), 61);
        }
        _ => panic!("expected promotion of the fixed side"),
    }
}

#[test]
fn standard_gate_accessor_sees_only_fixed_gates() {
    let fixed = bare(PackedOperation::from_standard(StandardGate::Tdg));
    assert_eq!(fixed.standard_gate(), Some(StandardGate::Tdg));

    let heap = heap_gate_instruction(62, Param::Value(0));
    assert_eq!(heap.standard_gate(), None);
}

#[test]
fn clone_keeps_params_attrs_and_cache() {
    let mut instr = heap_gate_instruction(70, Param::Value(12));
    instr.settle_cache(handle(71));

    let copy = instr.clone();
    assert!(matches!(copy.params_view()[0], Param::Value(12)));
    assert_eq!(copy.qubits, InternedId { index: 3 });
    assert_eq!(copy.cache.get().unwrap().token(), 71);
    match copy.op.view() {
        OperationRef::Gate(rec) => assert_eq!(rec.gate.token(), 70),
        _ => panic!("expected a unitary record view"),
    }
}

#[test]
fn deep_copy_keeps_the_original_parameters_untouched() {
    let original = heap_gate_instruction(80, Param::Value(5));

    let mut copy = PackedInstruction::new(
        original.op.rebuilt_with(handle(81)),
        original.qubits,
        original.clbits,
        Some(Box::new(ParamList::from_vec(vec![Param::Value(5)]))),
        None,
    );
    {
        let params = copy.params_mut();
        params[0] = Param::Value(99);
    }

    assert!(matches!(original.params_view()[0], Param::Value(5)));
    assert!(matches!(copy.params_view()[0], Param::Value(99)));
    match original.op.view() {
        OperationRef::Gate(rec) => assert_eq!(rec.gate.token(), 80),
        _ => panic!("expected a unitary record view"),
    }
}

#[test]
fn end_to_end_fixed_gate_instruction() {
    let instr = PackedInstruction::new(
        PackedOperation::from_standard(StandardGate::CX),
        InternedId { index: 12 },
        InternedId { index: 0 },
        None,
        None,
    );
    assert!(instr.params_view().is_empty());
    assert_eq!(instr.op.num_qubits(), 2);

    let mut instr = instr;
    let built_for = match instr.materialize_plan() {
        MaterializePlan::BuildStandardGate(g) => g,
        _ => panic!("expected a build request for the fixed code"),
    };
    assert_eq!(gate_name(built_for), "cx");

    let settled = instr.settle_cache(handle(90));
    assert_eq!(settled.token(), 90);
    match instr.materialize_plan() {
        MaterializePlan::Cached(h) => assert_eq!(h.token(), 90),
        _ => panic!("expected the settled object"),
    }
}

#[test]
fn setters_preserve_the_operation_and_each_other() {
    let mut instr = bare(PackedOperation::from_standard(StandardGate::H));
    assert!(instr.label().is_none());

    instr.set_label(Some(String::from("first")));
    assert_eq!(instr.label(), Some("first"));
    assert!(instr.condition().is_none());

    instr.set_condition(Some(handle(23)));
    assert_eq!(instr.label(), Some("first"));
    assert_eq!(instr.condition().unwrap().token(), 23);

    instr.set_label(Some(String::from("second")));
    assert_eq!(instr.label(), Some("second"));
    assert_eq!(instr.condition().unwrap().token(), 23);

    instr.set_label(None);
    assert!(instr.label().is_none());
    assert_eq!(instr.condition().unwrap().token(), 23);

    assert_eq!(instr.standard_gate(), Some(StandardGate::H));
}

#[test]
fn setters_on_a_bare_instruction_allocate_nothing_for_absent_values() {
    let mut instr = bare(PackedOperation::from_standard(StandardGate::Y));
    instr.set_label(None);
    instr.set_condition(None);
    assert!(instr.extra_attrs.is_none());
    assert!(instr.label().is_none());
    assert!(instr.condition().is_none());
}
