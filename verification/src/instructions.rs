use vstd::prelude::*;
use crate::PackError;

verus! {

/// Number of codes in the closed standard-instruction enumeration.
pub const STANDARD_INSTRUCTION_COUNT: u8 = 4;

/// The closed enumeration of built-in non-unitary instruction kinds.  As
/// with the gates, the variant order fixes each kind's ordinal in the
/// registered lookup tables.
#[derive(Clone, Copy, Debug, PartialEq, Eq, Structural)]
pub enum StandardInstructionType {
    Barrier,
    Delay,
    Measure,
    Reset,
}

/// The unit of measure attached to a delay.
#[derive(Clone, Copy, Debug, PartialEq, Eq, Structural)]
pub enum DelayUnit {
    S,
    Ms,
    Us,
    Ns,
    Ps,
    Dt,
}

/// A fully decoded fixed instruction: the sub-kind code together with its
/// immediate payload, where the kind carries one.
#[derive(Clone, Copy, Debug, PartialEq, Eq, Structural)]
pub enum StandardInstruction {
    /// A variadic marker; the payload is its operand count.
    Barrier(u32),
    /// A timed pause; the payload selects the unit of measure.
    Delay(DelayUnit),
    Measure,
    Reset,
}

/// The ordinal of an instruction kind in the closed enumeration.
pub open spec fn instruction_type_ordinal(t: StandardInstructionType) -> u8 {
    match t {
        StandardInstructionType::Barrier => 0,
        StandardInstructionType::Delay => 1,
        StandardInstructionType::Measure => 2,
        StandardInstructionType::Reset => 3,
    }
}

/// The instruction kind holding a given ordinal; out-of-range ordinals are
/// mapped onto the first kind so the packed decoding stays total.
pub open spec fn instruction_type_of_ordinal(code: u8) -> StandardInstructionType {
    if code == 0 {
        StandardInstructionType::Barrier
    } else if code == 1 {
        StandardInstructionType::Delay
    } else if code == 2 {
        StandardInstructionType::Measure
    } else if code == 3 {
        StandardInstructionType::Reset
    } else {
        StandardInstructionType::Barrier
    }
}

/// Every instruction kind's ordinal lies inside the closed enumeration and
/// decodes back to the same kind.
pub proof fn lemma_instruction_type_round_trip(t: StandardInstructionType)
    ensures
        instruction_type_ordinal(t) < STANDARD_INSTRUCTION_COUNT,
        instruction_type_of_ordinal(instruction_type_ordinal(t)) == t,
{
}

/// The ordinal of an instruction kind, as stored in the packed code field.
pub fn instruction_type_code(t: StandardInstructionType) -> (code: u8)
    ensures
        code == instruction_type_ordinal(t),
{
    match t {
        StandardInstructionType::Barrier => 0,
        StandardInstructionType::Delay => 1,
        StandardInstructionType::Measure => 2,
        StandardInstructionType::Reset => 3,
    }
}

/// Decode an instruction-kind ordinal.  An ordinal outside the closed
/// enumeration is a corruption signal and is excluded up front.
pub fn instruction_type_from_code(code: u8) -> (t: StandardInstructionType)
    requires
        code < STANDARD_INSTRUCTION_COUNT,
    ensures
        t == instruction_type_of_ordinal(code),
        instruction_type_ordinal(t) == code,
{
    match code {
        0 => StandardInstructionType::Barrier,
        1 => StandardInstructionType::Delay,
        2 => StandardInstructionType::Measure,
        3 => StandardInstructionType::Reset,
        _ => {
            proof {
                assert(false);
            }
            StandardInstructionType::Barrier
        }
    }
}

/// The ordinal of a delay unit, as stored in the immediate field.
pub open spec fn delay_unit_ordinal(u: DelayUnit) -> u32 {
    match u {
        DelayUnit::S => 0,
        DelayUnit::Ms => 1,
        DelayUnit::Us => 2,
        DelayUnit::Ns => 3,
        DelayUnit::Ps => 4,
        DelayUnit::Dt => 5,
    }
}

/// The delay unit holding a given ordinal; out-of-range ordinals are mapped
/// onto seconds so the packed decoding stays total.
pub open spec fn delay_unit_of_ordinal(code: u32) -> DelayUnit {
    if code == 0 {
        DelayUnit::S
    } else if code == 1 {
        DelayUnit::Ms
    } else if code == 2 {
        DelayUnit::Us
    } else if code == 3 {
        DelayUnit::Ns
    } else if code == 4 {
        DelayUnit::Ps
    } else if code == 5 {
        DelayUnit::Dt
    } else {
        DelayUnit::S
    }
}

/// Every delay unit's ordinal decodes back to the same unit.
pub proof fn lemma_delay_unit_round_trip(u: DelayUnit)
    ensures
        delay_unit_ordinal(u) < 6,
        delay_unit_of_ordinal(delay_unit_ordinal(u)) == u,
{
}

/// The ordinal of a delay unit, as stored in the immediate field.
pub fn delay_unit_code(u: DelayUnit) -> (code: u32)
    ensures
        code == delay_unit_ordinal(u),
{
    match u {
        DelayUnit::S => 0,
        DelayUnit::Ms => 1,
        DelayUnit::Us => 2,
        DelayUnit::Ns => 3,
        DelayUnit::Ps => 4,
        DelayUnit::Dt => 5,
    }
}

/// Decode a delay-unit ordinal.  An ordinal outside the closed enumeration
/// is a corruption signal and is excluded up front.
pub fn delay_unit_from_code(code: u32) -> (u: DelayUnit)
    requires
        code < 6,
    ensures
        u == delay_unit_of_ordinal(code),
        delay_unit_ordinal(u) == code,
{
    match code {
        0 => DelayUnit::S,
        1 => DelayUnit::Ms,
        2 => DelayUnit::Us,
        3 => DelayUnit::Ns,
        4 => DelayUnit::Ps,
        5 => DelayUnit::Dt,
        _ => {
            proof {
                assert(false);
            }
            DelayUnit::S
        }
    }
}

/// The registered spelling of a delay unit.
pub open spec fn spec_delay_unit_name(u: DelayUnit) -> Seq<char> {
    match u {
        DelayUnit::S => "s"@,
        DelayUnit::Ms => "ms"@,
        DelayUnit::Us => "us"@,
        DelayUnit::Ns => "ns"@,
        DelayUnit::Ps => "ps"@,
        DelayUnit::Dt => "dt"@,
    }
}

/// The registered spelling of a delay unit.
pub fn delay_unit_name(u: DelayUnit) -> (name: &'static str)
    ensures
        name@ == spec_delay_unit_name(u),
{
    match u {
        DelayUnit::S => "s",
        DelayUnit::Ms => "ms",
        DelayUnit::Us => "us",
        DelayUnit::Ns => "ns",
        DelayUnit::Ps => "ps",
        DelayUnit::Dt => "dt",
    }
}

impl StandardInstruction {
    /// The sub-kind of a decoded instruction.
    pub open spec fn spec_instruction_type(self) -> StandardInstructionType {
        match self {
            StandardInstruction::Barrier(_) => StandardInstructionType::Barrier,
            StandardInstruction::Delay(_) => StandardInstructionType::Delay,
            StandardInstruction::Measure => StandardInstructionType::Measure,
            StandardInstruction::Reset => StandardInstructionType::Reset,
        }
    }

    /// The immediate payload of a decoded instruction; kinds without a
    /// payload store zero.
    pub open spec fn spec_immediate(self) -> u32 {
        match self {
            StandardInstruction::Barrier(n) => n,
            StandardInstruction::Delay(u) => delay_unit_ordinal(u),
            StandardInstruction::Measure => 0,
            StandardInstruction::Reset => 0,
        }
    }

    /// A variadic marker over `num_operands` operands.  The operand count is
    /// stored in the inline immediate field, so a count that does not fit
    /// the field is a construction-time error, never a silent truncation.
    pub fn barrier(num_operands: u64) -> (r: Result<StandardInstruction, PackError>)
        ensures
            num_operands <= u32::MAX ==> r == Ok::<_, PackError>(
                StandardInstruction::Barrier(num_operands as u32),
            ),
            num_operands > u32::MAX ==> r == Err::<StandardInstruction, _>(
                PackError::PayloadOverflow,
            ),
    {
        if num_operands <= u32::MAX as u64 {
            Ok(StandardInstruction::Barrier(num_operands as u32))
        } else {
            Err(PackError::PayloadOverflow)
        }
    }

    /// The sub-kind of a decoded instruction.
    pub fn instruction_type(&self) -> (t: StandardInstructionType)
        ensures
            t == self.spec_instruction_type(),
    {
        match self {
            StandardInstruction::Barrier(_) => StandardInstructionType::Barrier,
            StandardInstruction::Delay(_) => StandardInstructionType::Delay,
            StandardInstruction::Measure => StandardInstructionType::Measure,
            StandardInstruction::Reset => StandardInstructionType::Reset,
        }
    }
}

/// The registered name of an instruction kind.
pub open spec fn spec_instruction_name(t: StandardInstructionType) -> Seq<char> {
    match t {
        StandardInstructionType::Barrier => "barrier"@,
        StandardInstructionType::Delay => "delay"@,
        StandardInstructionType::Measure => "measure"@,
        StandardInstructionType::Reset => "reset"@,
    }
}

/// The registered name of an instruction kind.
pub fn instruction_name(t: StandardInstructionType) -> (name: &'static str)
    ensures
        name@ == spec_instruction_name(t),
{
    match t {
        StandardInstructionType::Barrier => "barrier",
        StandardInstructionType::Delay => "delay",
        StandardInstructionType::Measure => "measure",
        StandardInstructionType::Reset => "reset",
    }
}

/// How many operands of the primary kind an instruction acts on.
pub open spec fn spec_instruction_num_qubits(i: StandardInstruction) -> u32 {
    match i {
        StandardInstruction::Barrier(n) => n,
        StandardInstruction::Delay(_) => 1,
        StandardInstruction::Measure => 1,
        StandardInstruction::Reset => 1,
    }
}

/// How many operands of the primary kind an instruction acts on.
pub fn instruction_num_qubits(i: StandardInstruction) -> (n: u32)
    ensures
        n == spec_instruction_num_qubits(i),
{
    match i {
        StandardInstruction::Barrier(n) => n,
        StandardInstruction::Delay(_) => 1,
        StandardInstruction::Measure => 1,
        StandardInstruction::Reset => 1,
    }
}

/// How many operands of the secondary kind an instruction acts on.
pub open spec fn spec_instruction_num_clbits(i: StandardInstruction) -> u32 {
    match i {
        StandardInstruction::Barrier(_) => 0,
        StandardInstruction::Delay(_) => 0,
        StandardInstruction::Measure => 1,
        StandardInstruction::Reset => 0,
    }
}

/// How many operands of the secondary kind an instruction acts on.
pub fn instruction_num_clbits(i: StandardInstruction) -> (n: u32)
    ensures
        n == spec_instruction_num_clbits(i),
{
    match i {
        StandardInstruction::Barrier(_) => 0,
        StandardInstruction::Delay(_) => 0,
        StandardInstruction::Measure => 1,
        StandardInstruction::Reset => 0,
    }
}

/// How many parameters an instruction takes; a delay's duration is its one
/// parameter.
pub open spec fn spec_instruction_num_params(i: StandardInstruction) -> u32 {
    match i {
        StandardInstruction::Barrier(_) => 0,
        StandardInstruction::Delay(_) => 1,
        StandardInstruction::Measure => 0,
        StandardInstruction::Reset => 0,
    }
}

/// How many parameters an instruction takes.
pub fn instruction_num_params(i: StandardInstruction) -> (n: u32)
    ensures
        n == spec_instruction_num_params(i),
{
    match i {
        StandardInstruction::Barrier(_) => 0,
        StandardInstruction::Delay(_) => 1,
        StandardInstruction::Measure => 0,
        StandardInstruction::Reset => 0,
    }
}

/// Whether an instruction is a pure directive with no operational effect.
pub open spec fn spec_instruction_directive(i: StandardInstruction) -> bool {
    match i {
        StandardInstruction::Barrier(_) => true,
        StandardInstruction::Delay(_) => false,
        StandardInstruction::Measure => false,
        StandardInstruction::Reset => false,
    }
}

/// Whether an instruction is a pure directive with no operational effect.
pub fn instruction_directive(i: StandardInstruction) -> (r: bool)
    ensures
        r == spec_instruction_directive(i),
{
    match i {
        StandardInstruction::Barrier(_) => true,
        StandardInstruction::Delay(_) => false,
        StandardInstruction::Measure => false,
        StandardInstruction::Reset => false,
    }
}

/// The module part of an instruction kind's registered class path.
pub open spec fn spec_instruction_class_module(t: StandardInstructionType) -> Seq<char> {
    "qiskit.circuit"@
}

/// The class-name part of an instruction kind's registered class path.
pub open spec fn spec_instruction_class_name(t: StandardInstructionType) -> Seq<char> {
    match t {
        StandardInstructionType::Barrier => "Barrier"@,
        StandardInstructionType::Delay => "Delay"@,
        StandardInstructionType::Measure => "Measure"@,
        StandardInstructionType::Reset => "Reset"@,
    }
}

/// The registered lookup path for the external class standing for an
/// instruction kind.  Positions in this table follow the kind ordinals.
pub fn instruction_class_path(t: StandardInstructionType) -> (path: (&'static str, &'static str))
    ensures
        path.0@ == spec_instruction_class_module(t),
        path.1@ == spec_instruction_class_name(t),
{
    match t {
        StandardInstructionType::Barrier => ("qiskit.circuit", "Barrier"),
        StandardInstructionType::Delay => ("qiskit.circuit", "Delay"),
        StandardInstructionType::Measure => ("qiskit.circuit", "Measure"),
        StandardInstructionType::Reset => ("qiskit.circuit", "Reset"),
    }
}

} // verus!
