use std::rc::Rc;

use packed_ops::gates::{gate_code, gate_from_code, gate_name, gate_num_params, gate_num_qubits, StandardGate};
use packed_ops::handle::ManagedHandle;
use packed_ops::instructions::{DelayUnit, StandardInstruction, StandardInstructionType};
use packed_ops::packed_op::{EqOutcome, InstanceCheckSubject, OperationRef, PackedOperation, PackedOperationType};
use packed_ops::records::{GateRecord, GenericRecord, InstructionRecord};
use packed_ops::PackError;

fn handle(token: u64) -> ManagedHandle {
    ManagedHandle::acquire(token, Rc::new(token))
}

fn gate_record(token: u64) -> GateRecord {
    GateRecord {
        gate: handle(token),
        qubits: 2,
        clbits: 0,
        params: 1,
        op_name: String::from("custom_gate"),
    }
}

fn instruction_record(token: u64) -> InstructionRecord {
    InstructionRecord {
        instruction: handle(token),
        qubits: 1,
        clbits: 1,
        params: 0,
        control_flow: true,
        op_name: String::from("custom_instruction"),
    }
}

fn generic_record(token: u64) -> GenericRecord {
    GenericRecord {
        operation: handle(token),
        qubits: 3,
        clbits: 2,
        params: 0,
        op_name: String::from("custom_operation"),
    }
}

#[test]
fn standard_gate_round_trip() {
    let op = PackedOperation::from_standard(StandardGate::H);
    assert_eq!(op.discriminant(), PackedOperationType::StandardGate);
    assert_eq!(op.try_standard_gate(), Some(StandardGate::H));
    assert_eq!(op.try_standard_instruction(), None);
    assert_eq!(op.standard_gate(), StandardGate::H);
    match op.view() {
        OperationRef::Standard(g) => assert_eq!(g, StandardGate::H),
        _ => panic!("expected a fixed gate view"),
    }
}

#[test]
fn standard_instruction_round_trips() {
    let cases = [
        StandardInstruction::Barrier(3),
        StandardInstruction::Barrier(0),
        StandardInstruction::Delay(DelayUnit::Dt),
        StandardInstruction::Delay(DelayUnit::S),
        StandardInstruction::Measure,
        StandardInstruction::Reset,
    ];
    for instr in cases {
        let op = PackedOperation::from_standard_instruction(instr);
        assert_eq!(op.discriminant(), PackedOperationType::StandardInstruction);
        assert_eq!(op.try_standard_instruction(), Some(instr));
        assert_eq!(op.try_standard_gate(), None);
        match op.view() {
            OperationRef::StandardInstruction(i) => assert_eq!(i, instr),
            _ => panic!("expected a fixed instruction view"),
        }
    }
}

#[test]
fn heap_record_round_trips() {
    let op = PackedOperation::from_gate(Box::new(gate_record(7)));
    assert_eq!(op.discriminant(), PackedOperationType::Gate);
    assert_eq!(op.try_standard_gate(), None);
    match op.view() {
        OperationRef::Gate(rec) => {
            assert_eq!(rec.gate.token(), 7);
            assert_eq!(rec.qubits, 2);
            assert_eq!(rec.params, 1);
            assert_eq!(rec.op_name, "custom_gate");
        }
        _ => panic!("expected a unitary record view"),
    }

    let op = PackedOperation::from_instruction(Box::new(instruction_record(8)));
    assert_eq!(op.discriminant(), PackedOperationType::Instruction);
    match op.view() {
        OperationRef::Instruction(rec) => {
            assert_eq!(rec.instruction.token(), 8);
            assert!(rec.control_flow);
        }
        _ => panic!("expected a non-unitary record view"),
    }

    let op = PackedOperation::from_operation(Box::new(generic_record(9)));
    assert_eq!(op.discriminant(), PackedOperationType::Operation);
    match op.view() {
        OperationRef::Operation(rec) => {
            assert_eq!(rec.operation.token(), 9);
            assert_eq!(rec.qubits, 3);
        }
        _ => panic!("expected a generic record view"),
    }
}

#[test]
fn zeroed_default_is_first_fixed_gate() {
    let op = PackedOperation::default();
    assert_eq!(op.discriminant(), PackedOperationType::StandardGate);
    assert_eq!(op.try_standard_gate(), Some(StandardGate::GlobalPhase));
}

#[test]
fn delegated_queries_follow_the_tables() {
    let op = PackedOperation::from_standard(StandardGate::CCX);
    assert_eq!(op.name(), "ccx");
    assert_eq!(op.num_qubits(), 3);
    assert_eq!(op.num_clbits(), 0);
    assert_eq!(op.num_params(), 0);
    assert!(!op.control_flow());
    assert!(!op.directive());

    let op = PackedOperation::from_standard_instruction(StandardInstruction::Barrier(5));
    assert_eq!(op.name(), "barrier");
    assert_eq!(op.num_qubits(), 5);
    assert!(op.directive());

    let op = PackedOperation::from_standard_instruction(StandardInstruction::Measure);
    assert_eq!(op.name(), "measure");
    assert_eq!(op.num_clbits(), 1);
    assert!(!op.directive());

    let op = PackedOperation::from_instruction(Box::new(instruction_record(4)));
    assert_eq!(op.name(), "custom_instruction");
    assert!(op.control_flow());
    assert!(!op.directive());
}

#[test]
fn clone_of_heap_kind_is_independently_owned() {
    let original = PackedOperation::from_gate(Box::new(gate_record(11)));
    let mut copy = original.clone();

    {
        let rec = copy.gate_record_mut();
        rec.qubits = 9;
        rec.op_name = String::from("renamed");
    }

    match original.view() {
        OperationRef::Gate(rec) => {
            assert_eq!(rec.qubits, 2);
            assert_eq!(rec.op_name, "custom_gate");
            assert_eq!(rec.gate.token(), 11);
        }
        _ => panic!("expected a unitary record view"),
    }
    match copy.view() {
        OperationRef::Gate(rec) => {
            assert_eq!(rec.qubits, 9);
            assert_eq!(rec.op_name, "renamed");
            assert_eq!(rec.gate.token(), 11);
        }
        _ => panic!("expected a unitary record view"),
    }
}

#[test]
fn drop_releases_each_acquired_reference_exactly_once() {
    let lease = Rc::new(0u64);
    assert_eq!(Rc::strong_count(&lease), 1);

    let op = PackedOperation::from_gate(Box::new(GateRecord {
        gate: ManagedHandle::acquire(1, Rc::clone(&lease)),
        qubits: 1,
        clbits: 0,
        params: 0,
        op_name: String::from("leased"),
    }));
    assert_eq!(Rc::strong_count(&lease), 2);

    let copy = op.clone();
    assert_eq!(Rc::strong_count(&lease), 3);

    drop(copy);
    assert_eq!(Rc::strong_count(&lease), 2);
    drop(op);
    assert_eq!(Rc::strong_count(&lease), 1);
}

#[test]
fn fixed_kinds_take_no_reference() {
    let lease = Rc::new(0u64);
    let op = PackedOperation::from_standard(StandardGate::X);
    let other = PackedOperation::from_standard_instruction(StandardInstruction::Reset);
    assert_eq!(Rc::strong_count(&lease), 1);
    drop(op);
    drop(other);
    assert_eq!(Rc::strong_count(&lease), 1);
}

#[test]
fn rebuilt_with_fresh_reference_keeps_metadata() {
    let original = PackedOperation::from_gate(Box::new(gate_record(21)));
    let copy = original.rebuilt_with(handle(22));
    match copy.view() {
        OperationRef::Gate(rec) => {
            assert_eq!(rec.gate.token(), 22);
            assert_eq!(rec.qubits, 2);
            assert_eq!(rec.clbits, 0);
            assert_eq!(rec.params, 1);
            assert_eq!(rec.op_name, "custom_gate");
        }
        _ => panic!("expected a unitary record view"),
    }
    match original.view() {
        OperationRef::Gate(rec) => assert_eq!(rec.gate.token(), 21),
        _ => panic!("expected a unitary record view"),
    }
}

#[test]
fn heap_object_names_the_record_object() {
    let op = PackedOperation::from_standard(StandardGate::Z);
    assert!(op.heap_object().is_none());

    let op = PackedOperation::from_operation(Box::new(generic_record(31)));
    assert_eq!(op.heap_object().unwrap().token(), 31);
}

#[test]
fn value_eq_decides_fixed_comparisons_by_value() {
    let h1 = PackedOperation::from_standard(StandardGate::H);
    let h2 = PackedOperation::from_standard(StandardGate::H);
    let x = PackedOperation::from_standard(StandardGate::X);
    assert!(matches!(h1.value_eq(&h2), EqOutcome::Decided(true)));
    assert!(matches!(h1.value_eq(&x), EqOutcome::Decided(false)));

    let b2 = PackedOperation::from_standard_instruction(StandardInstruction::Barrier(2));
    let b2b = PackedOperation::from_standard_instruction(StandardInstruction::Barrier(2));
    let b3 = PackedOperation::from_standard_instruction(StandardInstruction::Barrier(3));
    let delay = PackedOperation::from_standard_instruction(StandardInstruction::Delay(DelayUnit::Ns));
    assert!(matches!(b2.value_eq(&b2b), EqOutcome::Decided(true)));
    assert!(matches!(b2.value_eq(&b3), EqOutcome::Decided(false)));
    assert!(matches!(b2.value_eq(&delay), EqOutcome::Decided(false)));
    assert!(matches!(h1.value_eq(&b2), EqOutcome::Decided(false)));
    assert!(matches!(b2.value_eq(&h1), EqOutcome::Decided(false)));
}

#[test]
fn value_eq_delegates_matching_heap_kinds() {
    let g1 = PackedOperation::from_gate(Box::new(gate_record(41)));
    let g2 = PackedOperation::from_gate(Box::new(gate_record(42)));
    match g1.value_eq(&g2) {
        EqOutcome::CompareObjects(a, b) => {
            assert_eq!(a.token(), 41);
            assert_eq!(b.token(), 42);
        }
        _ => panic!("expected a delegated comparison"),
    }
    match g2.value_eq(&g1) {
        EqOutcome::CompareObjects(a, b) => {
            assert_eq!(a.token(), 42);
            assert_eq!(b.token(), 41);
        }
        _ => panic!("expected a delegated comparison"),
    }

    let i1 = PackedOperation::from_instruction(Box::new(instruction_record(43)));
    let i2 = PackedOperation::from_instruction(Box::new(instruction_record(44)));
    assert!(matches!(i1.value_eq(&i2), EqOutcome::CompareObjects(_, _)));

    let o1 = PackedOperation::from_operation(Box::new(generic_record(45)));
    let o2 = PackedOperation::from_operation(Box::new(generic_record(46)));
    assert!(matches!(o1.value_eq(&o2), EqOutcome::CompareObjects(_, _)));
}

#[test]
fn value_eq_promotes_fixed_gate_in_both_directions() {
    let fixed = PackedOperation::from_standard(StandardGate::CX);
    let heap = PackedOperation::from_gate(Box::new(gate_record(51)));

    match fixed.value_eq(&heap) {
        EqOutcome::PromoteFixed(g, h) => {
            assert_eq!(g, StandardGate::CX);
            assert_eq!(h.token(), 51);
        }
        _ => panic!("expected promotion of the fixed side"),
    }
    match heap.value_eq(&fixed) {
        EqOutcome::PromoteFixed(g, h) => {
            assert_eq!(g, StandardGate::CX);
            assert_eq!(h.token(), 51);
        }
        _ => panic!("expected promotion of the fixed side"),
    }
}

#[test]
fn value_eq_rejects_other_kind_mismatches() {
    let fixed_gate = PackedOperation::from_standard(StandardGate::H);
    let fixed_instr = PackedOperation::from_standard_instruction(StandardInstruction::Measure);
    let heap_gate = PackedOperation::from_gate(Box::new(gate_record(61)));
    let heap_instr = PackedOperation::from_instruction(Box::new(instruction_record(62)));
    let heap_op = PackedOperation::from_operation(Box::new(generic_record(63)));

    assert!(matches!(fixed_gate.value_eq(&heap_instr), EqOutcome::Decided(false)));
    assert!(matches!(heap_instr.value_eq(&fixed_gate), EqOutcome::Decided(false)));
    assert!(matches!(fixed_gate.value_eq(&heap_op), EqOutcome::Decided(false)));
    assert!(matches!(fixed_instr.value_eq(&heap_gate), EqOutcome::Decided(false)));
    assert!(matches!(fixed_instr.value_eq(&heap_instr), EqOutcome::Decided(false)));
    assert!(matches!(fixed_instr.value_eq(&heap_op), EqOutcome::Decided(false)));
    assert!(matches!(heap_gate.value_eq(&heap_instr), EqOutcome::Decided(false)));
    assert!(matches!(heap_gate.value_eq(&heap_op), EqOutcome::Decided(false)));
    assert!(matches!(heap_instr.value_eq(&heap_op), EqOutcome::Decided(false)));
    assert!(matches!(heap_op.value_eq(&heap_instr), EqOutcome::Decided(false)));
}

#[test]
fn value_eq_is_reflexive_on_every_kind() {
    let values = [
        PackedOperation::from_standard(StandardGate::Swap),
        PackedOperation::from_standard_instruction(StandardInstruction::Delay(DelayUnit::Ms)),
        PackedOperation::from_gate(Box::new(gate_record(71))),
        PackedOperation::from_instruction(Box::new(instruction_record(72))),
        PackedOperation::from_operation(Box::new(generic_record(73))),
    ];
    for v in &values {
        match v.value_eq(v) {
            EqOutcome::Decided(b) => assert!(b),
            EqOutcome::CompareObjects(a, b) => assert_eq!(a.token(), b.token()),
            EqOutcome::PromoteFixed(_, _) => panic!("promotion cannot arise against itself"),
        }
    }
}

#[test]
fn barrier_payload_overflow_is_rejected_at_the_boundary() {
    let max = StandardInstruction::barrier(u32::MAX as u64);
    assert_eq!(max, Ok(StandardInstruction::Barrier(u32::MAX)));

    let over = StandardInstruction::barrier(u32::MAX as u64 + 1);
    assert_eq!(over, Err(PackError::PayloadOverflow));

    let op = PackedOperation::from_standard_instruction(max.unwrap());
    assert_eq!(
        op.try_standard_instruction(),
        Some(StandardInstruction::Barrier(u32::MAX))
    );
}

#[test]
fn gate_codes_cover_the_closed_enumeration() {
    for code in 0..52u8 {
        let g = gate_from_code(code);
        assert_eq!(gate_code(g), code);
    }
    assert_eq!(gate_code(StandardGate::GlobalPhase), 0);
    assert_eq!(gate_code(StandardGate::RC3X), 51);
    assert_eq!(gate_name(StandardGate::GlobalPhase), "global_phase");
    assert_eq!(gate_name(StandardGate::H), "h");
    assert_eq!(gate_name(StandardGate::C3X), "mcx");
    assert_eq!(gate_num_qubits(StandardGate::GlobalPhase), 0);
    assert_eq!(gate_num_qubits(StandardGate::RC3X), 4);
    assert_eq!(gate_num_params(StandardGate::CU), 4);
    assert_eq!(gate_num_params(StandardGate::U2), 2);
}

#[test]
fn instance_check_subjects_follow_the_kind() {
    let op = PackedOperation::from_standard(StandardGate::T);
    assert!(matches!(
        op.instance_check_subject(),
        InstanceCheckSubject::StandardGateClass(StandardGate::T)
    ));

    let op = PackedOperation::from_standard_instruction(StandardInstruction::Delay(DelayUnit::Us));
    assert!(matches!(
        op.instance_check_subject(),
        InstanceCheckSubject::StandardInstructionClass(StandardInstructionType::Delay)
    ));

    let op = PackedOperation::from_gate(Box::new(gate_record(81)));
    match op.instance_check_subject() {
        InstanceCheckSubject::Object(h) => assert_eq!(h.token(), 81),
        _ => panic!("expected the record's own object"),
    }
}
