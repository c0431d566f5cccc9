use vstd::prelude::*;
use crate::gates::{
    gate_code, gate_from_code, gate_name, gate_num_params, gate_num_qubits, gate_of_ordinal,
    gate_ordinal, lemma_gate_ordinal_round_trip, spec_gate_name, spec_gate_num_params,
    spec_gate_num_qubits, StandardGate, STANDARD_GATE_COUNT,
};
use crate::handle::ManagedHandle;
use crate::instructions::{
    delay_unit_from_code, delay_unit_of_ordinal, instruction_directive, instruction_name,
    instruction_num_clbits, instruction_num_params, instruction_num_qubits,
    instruction_type_code, instruction_type_of_ordinal, spec_instruction_directive,
    spec_instruction_name, spec_instruction_num_clbits, spec_instruction_num_params,
    spec_instruction_num_qubits, DelayUnit, StandardInstruction, StandardInstructionType,
};
use crate::records::{GateRecord, GenericRecord, InstructionRecord};

verus! {

/// The logical discriminant of a packed operation.
#[derive(Clone, Copy, Debug, PartialEq, Eq, Structural)]
pub enum PackedOperationType {
    /// A built-in gate code stored inline.  This kind must hold the zero
    /// discriminant, so that a zero-filled word decodes as the first fixed
    /// gate and never as an owned record.
    StandardGate,
    /// A built-in instruction code plus its immediate, stored inline.
    StandardInstruction,
    /// An owned record for an open-ended unitary operation.
    Gate,
    /// An owned record for an open-ended non-unitary instruction.
    Instruction,
    /// An owned record for a fully generic operation.
    Operation,
}

/// One owned heap record, tagged by its kind.
#[derive(Debug)]
pub enum HeapRecord {
    Gate(GateRecord),
    Instruction(InstructionRecord),
    Operation(GenericRecord),
}

/// The mathematical value of a packed operation: which of the five kinds it
/// holds, and the full decoded payload of that kind.
pub enum OperationModel {
    StandardGate(StandardGate),
    StandardInstruction(StandardInstruction),
    Gate(GateRecord),
    Instruction(InstructionRecord),
    Operation(GenericRecord),
}

impl OperationModel {
    /// The discriminant of a model value.
    pub open spec fn kind(self) -> PackedOperationType {
        match self {
            OperationModel::StandardGate(_) => PackedOperationType::StandardGate,
            OperationModel::StandardInstruction(_) => PackedOperationType::StandardInstruction,
            OperationModel::Gate(_) => PackedOperationType::Gate,
            OperationModel::Instruction(_) => PackedOperationType::Instruction,
            OperationModel::Operation(_) => PackedOperationType::Operation,
        }
    }

    /// The name an operation reports.
    pub open spec fn spec_name(self) -> Seq<char> {
        match self {
            OperationModel::StandardGate(g) => spec_gate_name(g),
            OperationModel::StandardInstruction(i) => spec_instruction_name(
                i.spec_instruction_type(),
            ),
            OperationModel::Gate(r) => r.op_name@,
            OperationModel::Instruction(r) => r.op_name@,
            OperationModel::Operation(r) => r.op_name@,
        }
    }

    /// How many operands of the primary kind an operation acts on.
    pub open spec fn spec_num_qubits(self) -> u32 {
        match self {
            OperationModel::StandardGate(g) => spec_gate_num_qubits(g),
            OperationModel::StandardInstruction(i) => spec_instruction_num_qubits(i),
            OperationModel::Gate(r) => r.qubits,
            OperationModel::Instruction(r) => r.qubits,
            OperationModel::Operation(r) => r.qubits,
        }
    }

    /// How many operands of the secondary kind an operation acts on.
    pub open spec fn spec_num_clbits(self) -> u32 {
        match self {
            OperationModel::StandardGate(_) => 0,
            OperationModel::StandardInstruction(i) => spec_instruction_num_clbits(i),
            OperationModel::Gate(r) => r.clbits,
            OperationModel::Instruction(r) => r.clbits,
            OperationModel::Operation(r) => r.clbits,
        }
    }

    /// How many parameters an operation takes.
    pub open spec fn spec_num_params(self) -> u32 {
        match self {
            OperationModel::StandardGate(g) => spec_gate_num_params(g),
            OperationModel::StandardInstruction(i) => spec_instruction_num_params(i),
            OperationModel::Gate(r) => r.params,
            OperationModel::Instruction(r) => r.params,
            OperationModel::Operation(r) => r.params,
        }
    }

    /// Whether an operation carries nested sub-blocks.
    pub open spec fn spec_control_flow(self) -> bool {
        match self {
            OperationModel::Instruction(r) => r.control_flow,
            _ => false,
        }
    }

    /// Whether an operation is a pure directive with no operational effect.
    pub open spec fn spec_directive(self) -> bool {
        match self {
            OperationModel::StandardInstruction(i) => spec_instruction_directive(i),
            _ => false,
        }
    }
}

/// A single-word tagged encoding of one operation, together with the owned
/// record slot for the open-ended kinds.
///
/// The low three bits of the word always hold the discriminant, whatever
/// kind is active, so the tag can be read without first knowing the shape;
/// in particular a zero-filled word decodes as the first fixed gate code and
/// can never be mistaken for an owned record.  A fixed gate stores its code
/// in bits 3..11; a fixed instruction stores its sub-kind code in bits 3..11
/// and its 32-bit immediate in bits 32..64, with the bits between left zero.
/// For the three heap kinds the word holds nothing but the discriminant and
/// the record lives in the owned slot, whose tag always agrees with the
/// discriminant.
#[derive(Debug)]
pub struct PackedOperation {
    word: u64,
    record: Option<Box<HeapRecord>>,
}

impl PackedOperation {
    /// Well-formedness of the packed encoding: the discriminant is inside
    /// the closed enumeration, inline payloads lie inside their fields with
    /// the padding bits zero, and the record slot is filled exactly for the
    /// heap discriminants, with a record of the matching kind.
    pub closed spec fn wf(self) -> bool {
        let d = self.word & 7;
        let code = (self.word >> 3) & 0xff;
        let imm = self.word >> 32;
        &&& d <= 4
        &&& (d == 0 ==> self.record is None && code < STANDARD_GATE_COUNT && self.word >> 11
            == 0)
        &&& (d == 1 ==> self.record is None && code < 4 && ((self.word >> 11) & 0x1f_ffff)
            == 0 && (code == 1 ==> imm < 6) && (code >= 2 ==> imm == 0))
        &&& (d == 2 ==> self.word == 2 && (self.record matches Some(r) && *r is Gate))
        &&& (d == 3 ==> self.word == 3 && (self.record matches Some(r) && *r is Instruction))
        &&& (d == 4 ==> self.word == 4 && (self.record matches Some(r) && *r is Operation))
    }

    /// The decoded value of a well-formed packed operation.
    pub closed spec fn model(self) -> OperationModel {
        let d = self.word & 7;
        let code = (self.word >> 3) & 0xff;
        let imm = (self.word >> 32) as u32;
        if d == 0 {
            OperationModel::StandardGate(gate_of_ordinal(code as u8))
        } else if d == 1 {
            OperationModel::StandardInstruction(
                match instruction_type_of_ordinal(code as u8) {
                    StandardInstructionType::Barrier => StandardInstruction::Barrier(imm),
                    StandardInstructionType::Delay => StandardInstruction::Delay(
                        delay_unit_of_ordinal(imm),
                    ),
                    StandardInstructionType::Measure => StandardInstruction::Measure,
                    StandardInstructionType::Reset => StandardInstruction::Reset,
                },
            )
        } else {
            match self.record {
                Some(r) => match *r {
                    HeapRecord::Gate(g) => OperationModel::Gate(g),
                    HeapRecord::Instruction(i) => OperationModel::Instruction(i),
                    HeapRecord::Operation(o) => OperationModel::Operation(o),
                },
                None => arbitrary(),
            }
        }
    }

    /// Create a packed operation from a fixed gate code.
    pub fn from_standard(standard: StandardGate) -> (r: Self)
        ensures
            r.wf(),
            r.model() == OperationModel::StandardGate(standard),
    {
        let code = gate_code(standard);
        let word = (code as u64) << 3;
        proof {
            assert(word & 7 == 0 && (word >> 3) & 0xff == code && word >> 11 == 0)
                by (bit_vector)
                requires
                    word == (code as u64) << 3,
                    code < 52,
            ;
            lemma_gate_ordinal_round_trip(standard);
        }
        PackedOperation { word, record: None }
    }

    /// Create a packed operation from a fixed instruction, storing its
    /// sub-kind code and immediate payload inline.
    pub fn from_standard_instruction(instruction: StandardInstruction) -> (r: Self)
        ensures
            r.wf(),
            r.model() == OperationModel::StandardInstruction(instruction),
    {
        let kind = instruction.instruction_type();
        let code = instruction_type_code(kind);
        let imm: u32 = match instruction {
            StandardInstruction::Barrier(num_qubits) => num_qubits,
            StandardInstruction::Delay(unit) => crate::instructions::delay_unit_code(unit),
            StandardInstruction::Measure => 0,
            StandardInstruction::Reset => 0,
        };
        let word = 1u64 | ((code as u64) << 3) | ((imm as u64) << 32);
        proof {
            assert(word & 7 == 1 && (word >> 3) & 0xff == code && ((word >> 11) & 0x1f_ffff)
                == 0 && word >> 32 == imm)
                by (bit_vector)
                requires
                    word == 1u64 | ((code as u64) << 3) | ((imm as u64) << 32),
                    code < 4,
            ;
            crate::instructions::lemma_instruction_type_round_trip(kind);
            if let StandardInstruction::Delay(unit) = instruction {
                crate::instructions::lemma_delay_unit_round_trip(unit);
            }
        }
        PackedOperation { word, record: None }
    }

    /// Create a packed operation owning a heap record for an open-ended
    /// unitary operation.
    pub fn from_gate(gate: Box<GateRecord>) -> (r: Self)
        ensures
            r.wf(),
            r.model() == OperationModel::Gate(*gate),
    {
        let r = PackedOperation { word: 2, record: Some(Box::new(HeapRecord::Gate(*gate))) };
        proof {
            assert(2u64 & 7 == 2 && 2u64 <= 4) by (bit_vector);
        }
        r
    }

    /// Create a packed operation owning a heap record for an open-ended
    /// non-unitary instruction.
    pub fn from_instruction(instruction: Box<InstructionRecord>) -> (r: Self)
        ensures
            r.wf(),
            r.model() == OperationModel::Instruction(*instruction),
    {
        let r = PackedOperation {
            word: 3,
            record: Some(Box::new(HeapRecord::Instruction(*instruction))),
        };
        proof {
            assert(3u64 & 7 == 3 && 3u64 <= 4) by (bit_vector);
        }
        r
    }

    /// Create a packed operation owning a heap record for a fully generic
    /// operation.
    pub fn from_operation(operation: Box<GenericRecord>) -> (r: Self)
        ensures
            r.wf(),
            r.model() == OperationModel::Operation(*operation),
    {
        let r = PackedOperation {
            word: 4,
            record: Some(Box::new(HeapRecord::Operation(*operation))),
        };
        proof {
            assert(4u64 & 7 == 4 && 4u64 <= 4) by (bit_vector);
        }
        r
    }

    /// The discriminant of the stored kind, read from the fixed low bits of
    /// the word without knowing the active shape.
    pub fn discriminant(&self) -> (d: PackedOperationType)
        requires
            self.wf(),
        ensures
            d == self.model().kind(),
    {
        let tag = self.word & 7;
        match tag {
            0 => PackedOperationType::StandardGate,
            1 => PackedOperationType::StandardInstruction,
            2 => PackedOperationType::Gate,
            3 => PackedOperationType::Instruction,
            4 => PackedOperationType::Operation,
            _ => unreached(),
        }
    }

    /// The contained fixed gate, if this operation holds one.
    pub fn try_standard_gate(&self) -> (r: Option<StandardGate>)
        requires
            self.wf(),
        ensures
            r == (match self.model() {
                OperationModel::StandardGate(g) => Some(g),
                _ => None::<StandardGate>,
            }),
    {
        if self.word & 7 == 0 {
            let code = ((self.word >> 3) & 0xff) as u8;
            Some(gate_from_code(code))
        } else {
            None
        }
    }

    /// The contained fixed gate.  Callers must have checked the kind first
    /// through `try_standard_gate` or `discriminant`.
    pub fn standard_gate(&self) -> (g: StandardGate)
        requires
            self.wf(),
            self.model() is StandardGate,
        ensures
            self.model() == OperationModel::StandardGate(g),
    {
        match self.try_standard_gate() {
            Some(g) => g,
            None => unreached(),
        }
    }

    /// The contained fixed instruction, decoded together with its immediate
    /// payload, if this operation holds one.
    pub fn try_standard_instruction(&self) -> (r: Option<StandardInstruction>)
        requires
            self.wf(),
        ensures
            r == (match self.model() {
                OperationModel::StandardInstruction(i) => Some(i),
                _ => None::<StandardInstruction>,
            }),
    {
        if self.word & 7 == 1 {
            let code = ((self.word >> 3) & 0xff) as u8;
            let imm = (self.word >> 32) as u32;
            let kind = crate::instructions::instruction_type_from_code(code);
            Some(
                match kind {
                    StandardInstructionType::Barrier => StandardInstruction::Barrier(imm),
                    StandardInstructionType::Delay => StandardInstruction::Delay(
                        delay_unit_from_code(imm),
                    ),
                    StandardInstructionType::Measure => StandardInstruction::Measure,
                    StandardInstructionType::Reset => StandardInstruction::Reset,
                },
            )
        } else {
            None
        }
    }

    /// The contained fixed instruction.  Callers must have checked the kind
    /// first through `try_standard_instruction` or `discriminant`.
    pub fn standard_instruction(&self) -> (i: StandardInstruction)
        requires
            self.wf(),
            self.model() is StandardInstruction,
        ensures
            self.model() == OperationModel::StandardInstruction(i),
    {
        match self.try_standard_instruction() {
            Some(i) => i,
            None => unreached(),
        }
    }

    /// A borrowed, discriminated view of the packed data, reporting exactly
    /// the kind and value the operation was constructed with.
    pub fn view(&self) -> (r: OperationRef<'_>)
        requires
            self.wf(),
        ensures
            match r {
                OperationRef::Standard(g) => self.model() == OperationModel::StandardGate(g),
                OperationRef::StandardInstruction(i) => self.model()
                    == OperationModel::StandardInstruction(i),
                OperationRef::Gate(rec) => self.model() == OperationModel::Gate(*rec),
                OperationRef::Instruction(rec) => self.model() == OperationModel::Instruction(
                    *rec,
                ),
                OperationRef::Operation(rec) => self.model() == OperationModel::Operation(*rec),
            },
    {
        match &self.record {
            Some(b) => match &**b {
                HeapRecord::Gate(g) => OperationRef::Gate(g),
                HeapRecord::Instruction(i) => OperationRef::Instruction(i),
                HeapRecord::Operation(o) => OperationRef::Operation(o),
            },
            None => {
                if self.word & 7 == 0 {
                    OperationRef::Standard(self.standard_gate())
                } else {
                    OperationRef::StandardInstruction(self.standard_instruction())
                }
            },
        }
    }
}

impl PackedOperation {
    /// The name the operation reports: from the registered tables for the
    /// fixed kinds, from the record for the heap kinds.
    pub fn name(&self) -> (r: &str)
        requires
            self.wf(),
        ensures
            r@ == self.model().spec_name(),
    {
        match self.view() {
            OperationRef::Standard(g) => gate_name(g),
            OperationRef::StandardInstruction(i) => instruction_name(i.instruction_type()),
            OperationRef::Gate(rec) => rec.op_name.as_str(),
            OperationRef::Instruction(rec) => rec.op_name.as_str(),
            OperationRef::Operation(rec) => rec.op_name.as_str(),
        }
    }

    /// How many operands of the primary kind the operation acts on.
    pub fn num_qubits(&self) -> (n: u32)
        requires
            self.wf(),
        ensures
            n == self.model().spec_num_qubits(),
    {
        match self.view() {
            OperationRef::Standard(g) => gate_num_qubits(g),
            OperationRef::StandardInstruction(i) => instruction_num_qubits(i),
            OperationRef::Gate(rec) => rec.qubits,
            OperationRef::Instruction(rec) => rec.qubits,
            OperationRef::Operation(rec) => rec.qubits,
        }
    }

    /// How many operands of the secondary kind the operation acts on.
    pub fn num_clbits(&self) -> (n: u32)
        requires
            self.wf(),
        ensures
            n == self.model().spec_num_clbits(),
    {
        match self.view() {
            OperationRef::Standard(_) => 0,
            OperationRef::StandardInstruction(i) => instruction_num_clbits(i),
            OperationRef::Gate(rec) => rec.clbits,
            OperationRef::Instruction(rec) => rec.clbits,
            OperationRef::Operation(rec) => rec.clbits,
        }
    }

    /// How many parameters the operation takes.
    pub fn num_params(&self) -> (n: u32)
        requires
            self.wf(),
        ensures
            n == self.model().spec_num_params(),
    {
        match self.view() {
            OperationRef::Standard(g) => gate_num_params(g),
            OperationRef::StandardInstruction(i) => instruction_num_params(i),
            OperationRef::Gate(rec) => rec.params,
            OperationRef::Instruction(rec) => rec.params,
            OperationRef::Operation(rec) => rec.params,
        }
    }

    /// Whether the operation carries nested sub-blocks.
    pub fn control_flow(&self) -> (r: bool)
        requires
            self.wf(),
        ensures
            r == self.model().spec_control_flow(),
    {
        match self.view() {
            OperationRef::Instruction(rec) => rec.control_flow,
            _ => false,
        }
    }

    /// Whether the operation is a pure directive with no operational effect.
    pub fn directive(&self) -> (r: bool)
        requires
            self.wf(),
        ensures
            r == self.model().spec_directive(),
    {
        match self.view() {
            OperationRef::StandardInstruction(i) => instruction_directive(i),
            _ => false,
        }
    }

    /// Mutable access to the contained unitary record.  Whatever the caller
    /// writes through the reference, the discriminant stays in place: only
    /// the record's payload fields can change.
    pub fn gate_record_mut(&mut self) -> (r: &mut GateRecord)
        requires
            old(self).wf(),
            old(self).model() is Gate,
        ensures
            old(self).model() == OperationModel::Gate(*r),
            final(self).wf(),
            final(self).model() == OperationModel::Gate(*final(r)),
    {
        match &mut self.record {
            Some(b) => match &mut **b {
                HeapRecord::Gate(g) => g,
                _ => unreached(),
            },
            None => unreached(),
        }
    }

    /// Mutable access to the contained non-unitary record; as with the
    /// unitary record, the discriminant cannot change through it.
    pub fn instruction_record_mut(&mut self) -> (r: &mut InstructionRecord)
        requires
            old(self).wf(),
            old(self).model() is Instruction,
        ensures
            old(self).model() == OperationModel::Instruction(*r),
            final(self).wf(),
            final(self).model() == OperationModel::Instruction(*final(r)),
    {
        match &mut self.record {
            Some(b) => match &mut **b {
                HeapRecord::Instruction(i) => i,
                _ => unreached(),
            },
            None => unreached(),
        }
    }

    /// Mutable access to the contained generic record; as with the unitary
    /// record, the discriminant cannot change through it.
    pub fn operation_record_mut(&mut self) -> (r: &mut GenericRecord)
        requires
            old(self).wf(),
            old(self).model() is Operation,
        ensures
            old(self).model() == OperationModel::Operation(*r),
            final(self).wf(),
            final(self).model() == OperationModel::Operation(*final(r)),
    {
        match &mut self.record {
            Some(b) => match &mut **b {
                HeapRecord::Operation(o) => o,
                _ => unreached(),
            },
            None => unreached(),
        }
    }

    /// The handle of the contained heap record, as a further reference to
    /// the same external object; the fixed kinds hold none.
    pub fn heap_object(&self) -> (r: Option<ManagedHandle>)
        requires
            self.wf(),
        ensures
            match self.model() {
                OperationModel::Gate(rec) => r matches Some(h) && h == rec.gate,
                OperationModel::Instruction(rec) => r matches Some(h) && h == rec.instruction,
                OperationModel::Operation(rec) => r matches Some(h) && h == rec.operation,
                _ => r is None,
            },
    {
        match self.view() {
            OperationRef::Gate(rec) => Some(rec.gate.clone_ref()),
            OperationRef::Instruction(rec) => Some(rec.instruction.clone_ref()),
            OperationRef::Operation(rec) => Some(rec.operation.clone_ref()),
            _ => None,
        }
    }

    /// The same operation rebuilt around a replacement object reference,
    /// with every piece of cached shape metadata carried over.  This is the
    /// verified half of the external deep-copy and copy protocols: the
    /// caller copies the object behind `heap_object` outside and hands the
    /// fresh handle in.
    pub fn rebuilt_with(&self, fresh: ManagedHandle) -> (r: Self)
        requires
            self.wf(),
            !(self.model() is StandardGate),
            !(self.model() is StandardInstruction),
        ensures
            r.wf(),
            match self.model() {
                OperationModel::Gate(rec) => r.model() == OperationModel::Gate(
                    GateRecord { gate: fresh, ..rec },
                ),
                OperationModel::Instruction(rec) => r.model() == OperationModel::Instruction(
                    InstructionRecord { instruction: fresh, ..rec },
                ),
                OperationModel::Operation(rec) => r.model() == OperationModel::Operation(
                    GenericRecord { operation: fresh, ..rec },
                ),
                _ => false,
            },
    {
        match self.view() {
            OperationRef::Gate(rec) => PackedOperation::from_gate(
                Box::new(rec.clone_with(fresh)),
            ),
            OperationRef::Instruction(rec) => PackedOperation::from_instruction(
                Box::new(rec.clone_with(fresh)),
            ),
            OperationRef::Operation(rec) => PackedOperation::from_operation(
                Box::new(rec.clone_with(fresh)),
            ),
            _ => unreached(),
        }
    }
}

impl Default for PackedOperation {
    /// The all-zero word.  Zeroed storage decodes as the first fixed gate
    /// code — never as an owned record — so a defaulted or zero-filled
    /// operation can never be mistaken for a pointer to anything.
    fn default() -> (r: Self)
        ensures
            r.wf(),
            r.model() == OperationModel::StandardGate(StandardGate::GlobalPhase),
    {
        proof {
            assert(0u64 & 7 == 0 && (0u64 >> 3) & 0xff == 0 && 0u64 >> 11 == 0) by (bit_vector);
        }
        PackedOperation { word: 0, record: None }
    }
}

impl Clone for PackedOperation {
    /// An independently owned copy.  The fixed kinds copy by value; the heap
    /// kinds rebuild a fresh record holding a further reference to the same
    /// external object, so the copy decodes to the same model while sharing
    /// no owned storage with the original.
    fn clone(&self) -> (r: Self)
        ensures
            r == *self,
    {
        PackedOperation {
            word: self.word,
            record: match &self.record {
                Some(b) => Some(
                    Box::new(
                        match &**b {
                            HeapRecord::Gate(g) => HeapRecord::Gate(
                                g.clone_with(g.gate.clone_ref()),
                            ),
                            HeapRecord::Instruction(i) => HeapRecord::Instruction(
                                i.clone_with(i.instruction.clone_ref()),
                            ),
                            HeapRecord::Operation(o) => HeapRecord::Operation(
                                o.clone_with(o.operation.clone_ref()),
                            ),
                        },
                    ),
                ),
                None => None,
            },
        }
    }
}

/// How an equality question over two packed operations is to be resolved.
/// Everything this library can decide from the packed data alone is decided;
/// what depends on the externally managed objects is handed out as the pair
/// of handles to consult.
#[derive(Debug)]
pub enum EqOutcome {
    /// The comparison is settled by the packed data alone.
    Decided(bool),
    /// The two named objects must be asked for equality; the operations are
    /// equal exactly when the external comparison says so.
    CompareObjects(ManagedHandle, ManagedHandle),
    /// A fixed gate code stands against an open-ended unitary record: the
    /// fixed side must first be materialized into a fresh object, and that
    /// object compared against the named one.
    PromoteFixed(StandardGate, ManagedHandle),
}

/// The resolution plan for an equality question, stated over the decoded
/// models with objects named by their identity tokens.
pub enum EqPlan {
    Decided(bool),
    CompareObjects(u64, u64),
    PromoteFixed(StandardGate, u64),
}

/// The equality dispatch over two decoded operations: fixed against fixed
/// compares codes and immediates by value; matching heap kinds delegate to
/// their objects; a fixed gate against a heap gate record is resolved by
/// materializing the fixed side, whichever operand it is; every other kind
/// mismatch is unequal.
pub open spec fn spec_eq_plan(a: OperationModel, b: OperationModel) -> EqPlan {
    match (a, b) {
        (OperationModel::StandardGate(x), OperationModel::StandardGate(y)) => EqPlan::Decided(
            x == y,
        ),
        (
            OperationModel::StandardInstruction(x),
            OperationModel::StandardInstruction(y),
        ) => EqPlan::Decided(x == y),
        (OperationModel::Gate(r), OperationModel::Gate(s)) => EqPlan::CompareObjects(
            r.gate.spec_token(),
            s.gate.spec_token(),
        ),
        (OperationModel::Instruction(r), OperationModel::Instruction(s)) => EqPlan::CompareObjects(
            r.instruction.spec_token(),
            s.instruction.spec_token(),
        ),
        (OperationModel::Operation(r), OperationModel::Operation(s)) => EqPlan::CompareObjects(
            r.operation.spec_token(),
            s.operation.spec_token(),
        ),
        (OperationModel::StandardGate(x), OperationModel::Gate(s)) => EqPlan::PromoteFixed(
            x,
            s.gate.spec_token(),
        ),
        (OperationModel::Gate(r), OperationModel::StandardGate(y)) => EqPlan::PromoteFixed(
            y,
            r.gate.spec_token(),
        ),
        _ => EqPlan::Decided(false),
    }
}

/// Whether a delivered outcome carries out a plan: decided verdicts agree,
/// and delegated comparisons name exactly the planned objects.
pub open spec fn outcome_matches_plan(o: EqOutcome, p: EqPlan) -> bool {
    match (o, p) {
        (EqOutcome::Decided(x), EqPlan::Decided(y)) => x == y,
        (EqOutcome::CompareObjects(h1, h2), EqPlan::CompareObjects(t1, t2)) => h1.spec_token()
            == t1 && h2.spec_token() == t2,
        (EqOutcome::PromoteFixed(g1, h), EqPlan::PromoteFixed(g2, t)) => g1 == g2
            && h.spec_token() == t,
        _ => false,
    }
}

/// The same plan as seen from the swapped operand order: delegated
/// comparisons consult the same two objects, promotion materializes the
/// fixed side whichever operand it is, and decided verdicts are unchanged.
pub open spec fn eq_plan_mirror(p: EqPlan) -> EqPlan {
    match p {
        EqPlan::Decided(b) => EqPlan::Decided(b),
        EqPlan::CompareObjects(t1, t2) => EqPlan::CompareObjects(t2, t1),
        EqPlan::PromoteFixed(g, t) => EqPlan::PromoteFixed(g, t),
    }
}

/// An operation compared against itself is never handed to promotion, and
/// is either decided equal outright or delegated as one object against
/// itself.
pub proof fn lemma_eq_plan_reflexive(m: OperationModel)
    ensures
        match spec_eq_plan(m, m) {
            EqPlan::Decided(b) => b,
            EqPlan::CompareObjects(t1, t2) => t1 == t2,
            EqPlan::PromoteFixed(_, _) => false,
        },
{
}

/// The equality dispatch is symmetric: swapping the operands yields the
/// mirrored plan, so a fixed-against-heap comparison resolves exactly as the
/// heap-against-fixed comparison of the same two operations.
pub proof fn lemma_eq_plan_symmetric(a: OperationModel, b: OperationModel)
    ensures
        spec_eq_plan(b, a) == eq_plan_mirror(spec_eq_plan(a, b)),
{
}

impl PackedOperation {
    /// Resolve as much of an equality question as the packed data decides,
    /// and name the external objects that must settle the rest.
    pub fn value_eq(&self, other: &PackedOperation) -> (r: EqOutcome)
        requires
            self.wf(),
            other.wf(),
        ensures
            outcome_matches_plan(r, spec_eq_plan(self.model(), other.model())),
    {
        match (self.view(), other.view()) {
            (OperationRef::Standard(x), OperationRef::Standard(y)) => EqOutcome::Decided(x == y),
            (
                OperationRef::StandardInstruction(x),
                OperationRef::StandardInstruction(y),
            ) => EqOutcome::Decided(x == y),
            (OperationRef::Gate(r), OperationRef::Gate(s)) => EqOutcome::CompareObjects(
                r.gate.clone_ref(),
                s.gate.clone_ref(),
            ),
            (OperationRef::Instruction(r), OperationRef::Instruction(s)) => {
                EqOutcome::CompareObjects(r.instruction.clone_ref(), s.instruction.clone_ref())
            },
            (OperationRef::Operation(r), OperationRef::Operation(s)) => {
                EqOutcome::CompareObjects(r.operation.clone_ref(), s.operation.clone_ref())
            },
            (OperationRef::Standard(x), OperationRef::Gate(s)) => EqOutcome::PromoteFixed(
                x,
                s.gate.clone_ref(),
            ),
            (OperationRef::Gate(r), OperationRef::Standard(y)) => EqOutcome::PromoteFixed(
                y,
                r.gate.clone_ref(),
            ),
            _ => EqOutcome::Decided(false),
        }
    }

    /// Which external class membership must be consulted for a type query:
    /// the registered class for the fixed kinds, the object itself for the
    /// heap kinds.
    pub fn instance_check_subject(&self) -> (r: InstanceCheckSubject)
        requires
            self.wf(),
        ensures
            match self.model() {
                OperationModel::StandardGate(g) => r == InstanceCheckSubject::StandardGateClass(
                    g,
                ),
                OperationModel::StandardInstruction(i) => r
                    == InstanceCheckSubject::StandardInstructionClass(i.spec_instruction_type()),
                OperationModel::Gate(rec) => r matches InstanceCheckSubject::Object(h) && h
                    == rec.gate,
                OperationModel::Instruction(rec) => r matches InstanceCheckSubject::Object(h)
                    && h == rec.instruction,
                OperationModel::Operation(rec) => r matches InstanceCheckSubject::Object(h) && h
                    == rec.operation,
            },
    {
        match self.view() {
            OperationRef::Standard(g) => InstanceCheckSubject::StandardGateClass(g),
            OperationRef::StandardInstruction(i) => InstanceCheckSubject::StandardInstructionClass(
                i.instruction_type(),
            ),
            OperationRef::Gate(rec) => InstanceCheckSubject::Object(rec.gate.clone_ref()),
            OperationRef::Instruction(rec) => InstanceCheckSubject::Object(
                rec.instruction.clone_ref(),
            ),
            OperationRef::Operation(rec) => InstanceCheckSubject::Object(
                rec.operation.clone_ref(),
            ),
        }
    }
}

/// What a type-membership query must be checked against.
#[derive(Debug)]
pub enum InstanceCheckSubject {
    /// The registered external class of a fixed gate code.
    StandardGateClass(StandardGate),
    /// The registered external class of a fixed instruction kind.
    StandardInstructionClass(StandardInstructionType),
    /// The externally managed object itself.
    Object(ManagedHandle),
}

/// A borrowed, read-only discriminated reference onto one packed operation.
#[derive(Debug)]
pub enum OperationRef<'a> {
    /// A fixed gate code.
    Standard(StandardGate),
    /// A fixed instruction with its decoded immediate.
    StandardInstruction(StandardInstruction),
    /// The record of an open-ended unitary operation.
    Gate(&'a GateRecord),
    /// The record of an open-ended non-unitary instruction.
    Instruction(&'a InstructionRecord),
    /// The record of a fully generic operation.
    Operation(&'a GenericRecord),
}

} // verus!
