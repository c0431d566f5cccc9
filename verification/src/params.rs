use vstd::prelude::*;
use smallvec::SmallVec;
use crate::handle::ManagedHandle;

verus! {

/// One operation parameter.  A concrete numeric value is carried inline as
/// its raw machine encoding; symbolic expressions and any other parameter
/// objects are owned by the external runtime and reached through handles,
/// with evaluation left entirely to that runtime.
#[derive(Debug)]
pub enum Param {
    /// A concrete numeric value, carried as its raw bit encoding.
    Value(u64),
    /// A compile-time symbolic expression held by the external runtime.
    Expression(ManagedHandle),
    /// Any other parameter object held by the external runtime.
    Obj(ManagedHandle),
}

impl Param {
    /// Whether this parameter is a symbolic expression rather than a
    /// concrete value.
    pub open spec fn is_symbolic(self) -> bool {
        self is Expression
    }

    /// An equal parameter: concrete values copy, handles take a further
    /// reference to the same external object.
    pub fn clone_param(&self) -> (r: Param)
        ensures
            r == *self,
    {
        match self {
            Param::Value(v) => Param::Value(*v),
            Param::Expression(h) => Param::Expression(h.clone_ref()),
            Param::Obj(h) => Param::Obj(h.clone_ref()),
        }
    }
}

/// Whether any parameter in a list is a symbolic expression.
pub open spec fn any_symbolic(s: Seq<Param>) -> bool {
    exists|i: int| 0 <= i < s.len() && s[i].is_symbolic()
}

/// The stored parameter list.  The storage keeps a small number of
/// parameters inline and spills longer lists to the heap; that layout lives
/// behind this opaque wrapper, and everything this library states about a
/// list goes through `param_list_elems`.
#[verifier::external_body]
#[derive(Debug)]
pub struct ParamList {
    list: SmallVec<[Param; 3]>,
}

/// What a stored parameter list holds, in order.
pub uninterp spec fn param_list_elems(v: ParamList) -> Seq<Param>;

impl ParamList {
    /// Relies on smallvec's `SmallVec::from_vec`: the new vector holds
    /// exactly the given elements, in order.
    #[verifier::external_body]
    pub fn from_vec(v: Vec<Param>) -> (r: ParamList)
        ensures
            param_list_elems(r) == v@,
    {
        ParamList { list: SmallVec::from_vec(v) }
    }

    /// Relies on smallvec's `SmallVec::len`: the number of stored elements.
    #[verifier::external_body]
    pub fn len(&self) -> (n: usize)
        ensures
            n == param_list_elems(*self).len(),
    {
        self.list.len()
    }

    /// Relies on smallvec's `SmallVec::as_slice`: a borrowed view of the
    /// entire vector.
    #[verifier::external_body]
    pub fn as_slice(&self) -> (s: &[Param])
        ensures
            s@ == param_list_elems(*self),
    {
        self.list.as_slice()
    }

    /// Relies on smallvec's `SmallVec::as_mut_slice`: a mutable view of the
    /// entire vector, writes through which are writes to the stored
    /// elements.
    #[verifier::external_body]
    pub fn as_mut_slice(&mut self) -> (s: &mut [Param])
        ensures
            s@ == param_list_elems(*old(self)),
            param_list_elems(*final(self)) == final(s)@,
    {
        self.list.as_mut_slice()
    }
}

} // verus!
