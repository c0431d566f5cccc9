use vstd::prelude::*;
use crate::handle::{spec_settled, ManagedHandle, OnceHandle};
use crate::packed_op::{
    outcome_matches_plan, spec_eq_plan, EqOutcome, OperationModel, OperationRef, PackedOperation,
};
use crate::params::{any_symbolic, param_list_elems, Param, ParamList};
use crate::gates::StandardGate;
use crate::instructions::StandardInstruction;

verus! {

/// A compact id standing in for a shared, immutable ordered list of operand
/// references held by an external interning store.  The id is meaningless
/// outside the store that produced it.
#[derive(Clone, Copy, Debug, PartialEq, Eq, Structural)]
pub struct InternedId {
    pub index: u32,
}

/// The rare per-instruction attributes, split into their own block so the
/// overwhelmingly common attribute-free instruction pays one optional slot
/// for all of them.
#[derive(Debug)]
pub struct ExtraAttributes {
    /// A user-supplied label.
    pub label: Option<String>,
    /// A reference to an externally held classical condition.
    pub condition: Option<ManagedHandle>,
    /// A reference to an externally held duration value.
    pub duration: Option<ManagedHandle>,
    /// The unit of measure the duration is stated in.
    pub unit: Option<String>,
}

impl ExtraAttributes {
    /// An equal attribute block, taking further references to the same
    /// external objects.
    pub fn clone_attrs(&self) -> (r: ExtraAttributes)
        ensures
            r == *self,
    {
        ExtraAttributes {
            label: match &self.label {
                Some(s) => Some(s.clone()),
                None => None,
            },
            condition: match &self.condition {
                Some(h) => Some(h.clone_ref()),
                None => None,
            },
            duration: match &self.duration {
                Some(h) => Some(h.clone_ref()),
                None => None,
            },
            unit: match &self.unit {
                Some(s) => Some(s.clone()),
                None => None,
            },
        }
    }
}

/// What a materialization must do next: hand back the settled object, reuse
/// the record's own object, or build a fresh object externally from the
/// fixed code.
#[derive(Debug)]
pub enum MaterializePlan {
    /// The cache already holds the settled object.
    Cached(ManagedHandle),
    /// A fresh object must be built externally from this fixed gate code,
    /// the instruction's parameters and its extra attributes.
    BuildStandardGate(StandardGate),
    /// A fresh object must be built externally from this fixed instruction,
    /// the instruction's parameters and its extra attributes.
    BuildStandardInstruction(StandardInstruction),
    /// The instruction owns a record; its object is the answer.
    FromRecord(ManagedHandle),
}

/// The per-step record: one packed operation, the two interned operand ids,
/// the optional parameter list, the optional rare-attribute block, and the
/// lazily settled cache of the externally materialized object.
#[derive(Debug)]
pub struct PackedInstruction {
    /// The packed operation.
    pub op: PackedOperation,
    /// The id under which the interning store holds the primary operands.
    pub qubits: InternedId,
    /// The id under which the interning store holds the secondary operands.
    pub clbits: InternedId,
    /// The parameter list; absent stands for no parameters, so the common
    /// parameterless case costs one pointer-sized slot and no allocation.
    pub params: Option<Box<ParamList>>,
    /// The rare attributes; absent in the overwhelmingly common case.
    pub extra_attrs: Option<Box<ExtraAttributes>>,
    /// The lazily settled cache of the externally materialized object.
    pub cache: OnceHandle,
}

impl PackedInstruction {
    /// Well-formedness: the packed operation is well-formed.
    pub open spec fn wf(self) -> bool {
        self.op.wf()
    }

    /// The parameter list as a sequence; absent stands for the empty list.
    pub open spec fn spec_params(self) -> Seq<Param> {
        match self.params {
            Some(b) => param_list_elems(*b),
            None => Seq::<Param>::empty(),
        }
    }

    /// The materialization cache.
    pub open spec fn spec_cache(self) -> Option<ManagedHandle> {
        self.cache.spec_get()
    }

    /// The label, if the instruction carries one.
    pub open spec fn spec_label(self) -> Option<Seq<char>> {
        match self.extra_attrs {
            Some(e) => match e.label {
                Some(s) => Some(s@),
                None => None,
            },
            None => None,
        }
    }

    /// The classical-condition reference, if the instruction carries one.
    pub open spec fn spec_condition(self) -> Option<ManagedHandle> {
        match self.extra_attrs {
            Some(e) => e.condition,
            None => None,
        }
    }

    /// A new instruction record around a packed operation, with an empty
    /// materialization cache.
    pub fn new(
        op: PackedOperation,
        qubits: InternedId,
        clbits: InternedId,
        params: Option<Box<ParamList>>,
        extra_attrs: Option<Box<ExtraAttributes>>,
    ) -> (r: PackedInstruction)
        ensures
            r.op == op,
            r.qubits == qubits,
            r.clbits == clbits,
            r.params == params,
            r.extra_attrs == extra_attrs,
            r.spec_cache() is None,
    {
        PackedInstruction { op, qubits, clbits, params, extra_attrs, cache: OnceHandle::new() }
    }

    /// The fixed gate in this instruction, if it holds one; an instruction
    /// around an externally defined operation reports none.
    pub fn standard_gate(&self) -> (r: Option<StandardGate>)
        requires
            self.wf(),
        ensures
            r == (match self.op.model() {
                OperationModel::StandardGate(g) => Some(g),
                _ => None::<StandardGate>,
            }),
    {
        self.op.try_standard_gate()
    }

    /// A borrowed view of the parameters; the empty slice when none are
    /// stored, without allocating.
    pub fn params_view(&self) -> (s: &[Param])
        ensures
            s@ == self.spec_params(),
    {
        match &self.params {
            Some(b) => b.as_slice(),
            None => &[],
        }
    }

    /// A mutable view of the parameters; the empty slice when none are
    /// stored.  Writes through it change the stored parameter values and
    /// nothing else.
    pub fn params_mut(&mut self) -> (s: &mut [Param])
        ensures
            s@ == old(self).spec_params(),
            final(self).spec_params() == final(s)@,
            final(self).op == old(self).op,
            final(self).qubits == old(self).qubits,
            final(self).clbits == old(self).clbits,
            final(self).extra_attrs == old(self).extra_attrs,
            final(self).spec_cache() == old(self).spec_cache(),
    {
        match &mut self.params {
            Some(b) => b.as_mut_slice(),
            None => &mut [],
        }
    }

    /// Whether any parameter is a compile-time symbolic expression rather
    /// than a concrete value.
    pub fn is_parameterized(&self) -> (r: bool)
        ensures
            r == any_symbolic(self.spec_params()),
    {
        let s = self.params_view();
        let mut idx: usize = 0;
        while idx < s.len()
            invariant
                idx <= s.len(),
                s@ == self.spec_params(),
                forall|j: int| 0 <= j < idx ==> !s@[j].is_symbolic(),
            decreases s.len() - idx,
        {
            match &s[idx] {
                Param::Expression(_) => {
                    return true;
                },
                _ => {},
            }
            idx += 1;
        }
        false
    }

    /// The classical-condition reference, if the instruction carries one.
    pub fn condition(&self) -> (r: Option<&ManagedHandle>)
        ensures
            match r {
                Some(h) => self.spec_condition() == Some(*h),
                None => self.spec_condition() is None,
            },
    {
        match &self.extra_attrs {
            Some(e) => e.condition.as_ref(),
            None => None,
        }
    }

    /// The label, if the instruction carries one.
    pub fn label(&self) -> (r: Option<&str>)
        ensures
            match r {
                Some(s) => self.spec_label() == Some(s@),
                None => self.spec_label() is None,
            },
    {
        match &self.extra_attrs {
            Some(e) => match &e.label {
                Some(s) => Some(s.as_str()),
                None => None,
            },
            None => None,
        }
    }

    /// Replace the label, leaving the operation — and in particular its
    /// discriminant — and every other field in place.  The attribute block
    /// is created on first use and an absent label writes nothing into an
    /// absent block.
    pub fn set_label(&mut self, label: Option<String>)
        ensures
            final(self).spec_label() == (match label {
                Some(s) => Some(s@),
                None => None::<Seq<char>>,
            }),
            final(self).spec_condition() == old(self).spec_condition(),
            final(self).op == old(self).op,
            final(self).qubits == old(self).qubits,
            final(self).clbits == old(self).clbits,
            final(self).params == old(self).params,
            final(self).spec_cache() == old(self).spec_cache(),
    {
        if self.extra_attrs.is_none() {
            if label.is_some() {
                self.extra_attrs = Some(
                    Box::new(
                        ExtraAttributes { label, condition: None, duration: None, unit: None },
                    ),
                );
            }
        } else {
            match &mut self.extra_attrs {
                Some(e) => {
                    e.label = label;
                },
                None => unreached(),
            }
        }
    }

    /// Replace the classical-condition reference, leaving the operation —
    /// and in particular its discriminant — and every other field in
    /// place.  The attribute block is created on first use and an absent
    /// condition writes nothing into an absent block.
    pub fn set_condition(&mut self, condition: Option<ManagedHandle>)
        ensures
            final(self).spec_condition() == condition,
            final(self).spec_label() == old(self).spec_label(),
            final(self).op == old(self).op,
            final(self).qubits == old(self).qubits,
            final(self).clbits == old(self).clbits,
            final(self).params == old(self).params,
            final(self).spec_cache() == old(self).spec_cache(),
    {
        if self.extra_attrs.is_none() {
            if condition.is_some() {
                self.extra_attrs = Some(
                    Box::new(
                        ExtraAttributes { label: None, condition, duration: None, unit: None },
                    ),
                );
            }
        } else {
            match &mut self.extra_attrs {
                Some(e) => {
                    e.condition = condition;
                },
                None => unreached(),
            }
        }
    }

    /// The settled object from an earlier materialization, if there is one.
    pub fn cached(&self) -> (r: Option<&ManagedHandle>)
        ensures
            match r {
                Some(h) => self.spec_cache() == Some(*h),
                None => self.spec_cache() is None,
            },
    {
        self.cache.get()
    }

    /// What a materialization of this instruction must do: hand back the
    /// settled object if one is cached, reuse the record's object for the
    /// heap kinds, and otherwise ask for a fresh object to be built
    /// externally from the fixed code.  An object built for a fixed code is
    /// a disconnected view: later changes to this instruction's parameters,
    /// label or condition do not reach it.
    pub fn materialize_plan(&self) -> (r: MaterializePlan)
        requires
            self.wf(),
        ensures
            self.spec_cache() matches Some(c) ==> (r matches MaterializePlan::Cached(h) && h
                == c),
            self.spec_cache() is None ==> match self.op.model() {
                OperationModel::StandardGate(g) => r == MaterializePlan::BuildStandardGate(g),
                OperationModel::StandardInstruction(i) => r
                    == MaterializePlan::BuildStandardInstruction(i),
                OperationModel::Gate(rec) => r matches MaterializePlan::FromRecord(h) && h
                    == rec.gate,
                OperationModel::Instruction(rec) => r matches MaterializePlan::FromRecord(h)
                    && h == rec.instruction,
                OperationModel::Operation(rec) => r matches MaterializePlan::FromRecord(h) && h
                    == rec.operation,
            },
    {
        match self.cached() {
            Some(h) => MaterializePlan::Cached(h.clone_ref()),
            None => match self.op.view() {
                OperationRef::Standard(g) => MaterializePlan::BuildStandardGate(g),
                OperationRef::StandardInstruction(i) => {
                    MaterializePlan::BuildStandardInstruction(i)
                },
                OperationRef::Gate(rec) => MaterializePlan::FromRecord(rec.gate.clone_ref()),
                OperationRef::Instruction(rec) => MaterializePlan::FromRecord(
                    rec.instruction.clone_ref(),
                ),
                OperationRef::Operation(rec) => MaterializePlan::FromRecord(
                    rec.operation.clone_ref(),
                ),
            },
        }
    }

    /// Offer a materialized object to the cache.  The first successful
    /// write wins: an already settled cache is left exactly as it is and
    /// the offered object is discarded, so re-entrant and racing
    /// materializations all converge on one settled object.  The caller's
    /// own object is handed back either way.
    pub fn settle_cache(&mut self, built: ManagedHandle) -> (r: ManagedHandle)
        ensures
            final(self).spec_cache() == spec_settled(old(self).spec_cache(), built),
            r == built,
            final(self).op == old(self).op,
            final(self).qubits == old(self).qubits,
            final(self).clbits == old(self).clbits,
            final(self).params == old(self).params,
            final(self).extra_attrs == old(self).extra_attrs,
    {
        self.cache.settle(built)
    }

    /// Resolve as much of an equality question over two instructions'
    /// operations as the packed data decides, ignoring the operand ids,
    /// whose meaning belongs to the owning container.
    pub fn instruction_eq(&self, other: &PackedInstruction) -> (r: EqOutcome)
        requires
            self.wf(),
            other.wf(),
        ensures
            outcome_matches_plan(r, spec_eq_plan(self.op.model(), other.op.model())),
    {
        self.op.value_eq(&other.op)
    }
}

impl Clone for PackedInstruction {
    /// An independently owned copy: the operation is cloned, the operand
    /// ids are shared, the parameters and attributes are copied element by
    /// element with further references taken to the same external objects,
    /// and the settled cache is carried over.
    fn clone(&self) -> (r: Self)
        ensures
            r.op == self.op,
            r.qubits == self.qubits,
            r.clbits == self.clbits,
            r.spec_params() == self.spec_params(),
            r.params is Some <==> self.params is Some,
            r.extra_attrs == self.extra_attrs,
            r.spec_cache() == self.spec_cache(),
    {
        let params: Option<Box<ParamList>> = match &self.params {
            Some(b) => {
                let s = b.as_slice();
                let mut v: Vec<Param> = Vec::new();
                let mut idx: usize = 0;
                while idx < s.len()
                    invariant
                        idx <= s.len(),
                        v@ == s@.take(idx as int),
                    decreases s.len() - idx,
                {
                    v.push(s[idx].clone_param());
                    proof {
                        assert(v@ =~= s@.take(idx + 1));
                    }
                    idx += 1;
                }
                proof {
                    assert(v@ =~= s@);
                }
                Some(Box::new(ParamList::from_vec(v)))
            },
            None => None,
        };
        PackedInstruction {
            op: self.op.clone(),
            qubits: self.qubits,
            clbits: self.clbits,
            params,
            extra_attrs: match &self.extra_attrs {
                Some(e) => Some(Box::new(e.clone_attrs())),
                None => None,
            },
            cache: self.cache.clone_cell(),
        }
    }
}

} // verus!
