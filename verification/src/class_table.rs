use vstd::prelude::*;
use crate::gates::{
    gate_class_path, gate_code, gate_ordinal, lemma_gate_ordinal_round_trip,
    spec_gate_class_module, spec_gate_class_name, StandardGate, STANDARD_GATE_COUNT,
};
use crate::handle::{spec_settled, ManagedHandle};

verus! {

/// The result of a class lookup: either the cached external class object,
/// or the registered import path the caller must resolve externally and
/// then offer back through `populate`.
#[derive(Debug)]
pub enum ClassLookup {
    /// The slot for this gate is filled; a reference to its class object.
    Cached(ManagedHandle),
    /// The slot is empty; the registered module and class name to import.
    NeedsImport(&'static str, &'static str),
}

/// The registry mapping each fixed gate code to the external class object
/// standing for it.  It is an explicit value constructed once during
/// context initialization and passed to every component that needs the
/// mapping — not an ambient mutable singleton.  One slot per gate ordinal,
/// filled lazily and at most once: later offers for a filled slot are
/// discarded.
#[derive(Debug)]
pub struct GateClassTable {
    entries: Vec<Option<ManagedHandle>>,
}

impl GateClassTable {
    /// Well-formedness: exactly one slot per code of the closed gate
    /// enumeration.
    pub closed spec fn wf(self) -> bool {
        self.entries@.len() == STANDARD_GATE_COUNT
    }

    /// The slot for a gate.
    pub closed spec fn spec_entry(self, g: StandardGate) -> Option<ManagedHandle> {
        self.entries@[gate_ordinal(g) as int]
    }

    /// A fresh registry with every slot empty.
    pub fn new() -> (r: GateClassTable)
        ensures
            r.wf(),
            forall|g: StandardGate| r.spec_entry(g) is None,
    {
        let mut entries: Vec<Option<ManagedHandle>> = Vec::new();
        let mut i: usize = 0;
        while i < STANDARD_GATE_COUNT as usize
            invariant
                i <= STANDARD_GATE_COUNT as usize,
                entries@.len() == i,
                forall|j: int| 0 <= j < i ==> entries@[j] is None,
            decreases STANDARD_GATE_COUNT as usize - i,
        {
            entries.push(None);
            i += 1;
        }
        let r = GateClassTable { entries };
        proof {
            assert forall|g: StandardGate| r.spec_entry(g) is None by {
                lemma_gate_ordinal_round_trip(g);
            }
        }
        r
    }

    /// Offer the external class object for a gate.  The first offer for a
    /// slot wins; offers for a filled slot are discarded.  Every other slot
    /// is left untouched.
    pub fn populate(&mut self, g: StandardGate, class: ManagedHandle)
        requires
            old(self).wf(),
        ensures
            final(self).wf(),
            final(self).spec_entry(g) == spec_settled(old(self).spec_entry(g), class),
            forall|h: StandardGate|
                gate_ordinal(h) != gate_ordinal(g) ==> final(self).spec_entry(h) == old(
                    self,
                ).spec_entry(h),
    {
        proof {
            lemma_gate_ordinal_round_trip(g);
        }
        let idx = gate_code(g) as usize;
        if self.entries[idx].is_none() {
            self.entries[idx] = Some(class);
        }
        proof {
            assert forall|h: StandardGate|
                gate_ordinal(h) != gate_ordinal(g) implies self.spec_entry(h) == old(
                self,
            ).spec_entry(h) by {
                lemma_gate_ordinal_round_trip(h);
            }
        }
    }

    /// The class lookup for a gate: the cached object where the slot is
    /// filled, else the registered import path to resolve.
    pub fn lookup(&self, g: StandardGate) -> (r: ClassLookup)
        requires
            self.wf(),
        ensures
            match r {
                ClassLookup::Cached(h) => self.spec_entry(g) == Some(h),
                ClassLookup::NeedsImport(m, c) => self.spec_entry(g) is None && m@
                    == spec_gate_class_module(g) && c@ == spec_gate_class_name(g),
            },
    {
        proof {
            lemma_gate_ordinal_round_trip(g);
        }
        let idx = gate_code(g) as usize;
        match &self.entries[idx] {
            Some(h) => ClassLookup::Cached(h.clone_ref()),
            None => {
                let path = gate_class_path(g);
                ClassLookup::NeedsImport(path.0, path.1)
            },
        }
    }
}

} // verus!
