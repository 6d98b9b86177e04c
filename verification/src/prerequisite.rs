use vstd::prelude::*;

use crate::types::TypeId;

verus! {

/// An ordered list of prerequisite type identifiers for an interface: the
/// types that any implementor must already be a subclass of, or itself
/// implement.
///
/// The list is built fluently, one witness at a time, and preserves
/// declaration order.  It is a value type, computed fresh from the declared
/// witnesses and never stored by the registry.
pub struct PrerequisiteList {
    ids: Vec<TypeId>,
}

impl View for PrerequisiteList {
    type V = Seq<TypeId>;

    closed spec fn view(&self) -> Seq<TypeId> {
        self.ids@
    }
}

impl PrerequisiteList {
    /// The empty list: an interface with no prerequisites.
    pub fn new() -> (r: PrerequisiteList)
        ensures
            r@ == Seq::<TypeId>::empty(),
    {
        PrerequisiteList { ids: Vec::new() }
    }

    /// Appends one prerequisite; declaration order is preserved.  Total:
    /// every type witness is accepted.
    pub fn prerequisite(self, t: TypeId) -> (r: PrerequisiteList)
        ensures
            r@ == self@.push(t),
    {
        let mut ids = self.ids;
        ids.push(t);
        PrerequisiteList { ids }
    }

    /// The identifiers, in declaration order.
    pub fn types(&self) -> (r: &Vec<TypeId>)
        ensures
            r@ == self@,
    {
        &self.ids
    }

    /// How many prerequisites were declared.
    pub fn len(&self) -> (r: usize)
        ensures
            r == self@.len(),
    {
        self.ids.len()
    }
}

} // verus!
