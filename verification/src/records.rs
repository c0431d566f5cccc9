use vstd::prelude::*;
use crate::handle::ManagedHandle;

verus! {

/// The heap record for an open-ended unitary operation: a handle to the
/// externally managed object plus the cached shape metadata that readers can
/// consult without going back to the object.
#[derive(Debug)]
pub struct GateRecord {
    /// The externally managed operation object.
    pub gate: ManagedHandle,
    /// How many operands of the primary kind the operation acts on.
    pub qubits: u32,
    /// How many operands of the secondary kind the operation acts on.
    pub clbits: u32,
    /// How many parameters the operation takes.
    pub params: u32,
    /// The operation's name.
    pub op_name: String,
}

/// The heap record for an open-ended non-unitary instruction.
#[derive(Debug)]
pub struct InstructionRecord {
    /// The externally managed operation object.
    pub instruction: ManagedHandle,
    /// How many operands of the primary kind the operation acts on.
    pub qubits: u32,
    /// How many operands of the secondary kind the operation acts on.
    pub clbits: u32,
    /// How many parameters the operation takes.
    pub params: u32,
    /// Whether the operation carries nested sub-blocks.
    pub control_flow: bool,
    /// The operation's name.
    pub op_name: String,
}

/// The heap record for a fully generic operation that is neither a gate nor
/// an instruction.
#[derive(Debug)]
pub struct GenericRecord {
    /// The externally managed operation object.
    pub operation: ManagedHandle,
    /// How many operands of the primary kind the operation acts on.
    pub qubits: u32,
    /// How many operands of the secondary kind the operation acts on.
    pub clbits: u32,
    /// How many parameters the operation takes.
    pub params: u32,
    /// The operation's name.
    pub op_name: String,
}

impl GateRecord {
    /// A new record over the same object reference, with the shape metadata
    /// copied across.
    pub fn clone_with(&self, handle: ManagedHandle) -> (r: GateRecord)
        ensures
            r == (GateRecord { gate: handle, ..*self }),
    {
        GateRecord {
            gate: handle,
            qubits: self.qubits,
            clbits: self.clbits,
            params: self.params,
            op_name: self.op_name.clone(),
        }
    }
}

impl InstructionRecord {
    /// A new record over the same object reference, with the shape metadata
    /// copied across.
    pub fn clone_with(&self, handle: ManagedHandle) -> (r: InstructionRecord)
        ensures
            r == (InstructionRecord { instruction: handle, ..*self }),
    {
        InstructionRecord {
            instruction: handle,
            qubits: self.qubits,
            clbits: self.clbits,
            params: self.params,
            control_flow: self.control_flow,
            op_name: self.op_name.clone(),
        }
    }
}

impl GenericRecord {
    /// A new record over the same object reference, with the shape metadata
    /// copied across.
    pub fn clone_with(&self, handle: ManagedHandle) -> (r: GenericRecord)
        ensures
            r == (GenericRecord { operation: handle, ..*self }),
    {
        GenericRecord {
            operation: handle,
            qubits: self.qubits,
            clbits: self.clbits,
            params: self.params,
            op_name: self.op_name.clone(),
        }
    }
}

} // verus!
