use vstd::prelude::*;

use crate::types::TypeId;

verus! {

/// The per-interface state a live object's class carries: which interface it
/// belongs to, and the handle under which the surrounding runtime keeps that
/// interface's class data.  A value of this type is a read-only view; it
/// never owns the foreign memory it stands for.
#[derive(Clone, Copy, PartialEq, Eq, Structural, Debug)]
pub struct InterfaceState {
    pub iface: TypeId,
    pub class_data: u64,
}

/// What this layer knows of a live object: its dynamic type and the
/// interface states that type carries, one per implemented interface.
pub struct ObjectModel {
    type_id: TypeId,
    states: Vec<InterfaceState>,
}

impl ObjectModel {
    /// The carried interface states, in the order they were attached.
    pub closed spec fn states_view(self) -> Seq<InterfaceState> {
        self.states@
    }

    /// The object's dynamic type.
    pub closed spec fn spec_type_id(self) -> TypeId {
        self.type_id
    }

    /// Whether the object's dynamic type implements `iface`.
    pub open spec fn spec_implements(self, iface: TypeId) -> bool {
        exists|i: int| 0 <= i < self.states_view().len() && self.states_view()[i].iface == iface
    }

    /// The position of the state for `iface`; meaningful only when the
    /// interface is implemented.
    pub open spec fn spec_state_index(self, iface: TypeId) -> int {
        choose|i: int| 0 <= i < self.states_view().len() && self.states_view()[i].iface == iface
    }

    /// The state for `iface`; meaningful only when implemented.
    pub open spec fn state_of(self, iface: TypeId) -> InterfaceState {
        self.states_view()[self.spec_state_index(iface)]
    }

    /// A dynamic type carries at most one state per interface.
    pub open spec fn wf(self) -> bool {
        forall|i: int, j: int|
            0 <= i < j < self.states_view().len() ==> self.states_view()[i].iface
                != self.states_view()[j].iface
    }

    /// An object of the given dynamic type that implements nothing yet.
    pub fn new(type_id: TypeId) -> (r: ObjectModel)
        ensures
            r.wf(),
            r.spec_type_id() == type_id,
            forall|t: TypeId| !r.spec_implements(t),
    {
        ObjectModel { type_id, states: Vec::new() }
    }

    /// Attaches the state of one more implemented interface.
    pub fn implement(self, state: InterfaceState) -> (r: ObjectModel)
        requires
            self.wf(),
            !self.spec_implements(state.iface),
        ensures
            r.wf(),
            r.spec_type_id() == self.spec_type_id(),
            r.states_view() == self.states_view().push(state),
            r.spec_implements(state.iface),
            forall|t: TypeId|
                t != state.iface ==> (r.spec_implements(t) <==> self.spec_implements(t)),
    {
        let mut states = self.states;
        states.push(state);
        let r = ObjectModel { type_id: self.type_id, states };
        proof {
            assert(r.states_view()[r.states_view().len() - 1].iface == state.iface);
            assert forall|t: TypeId| t != state.iface implies (r.spec_implements(t)
                <==> self.spec_implements(t)) by {
                if r.spec_implements(t) {
                    let k = choose|i: int|
                        0 <= i < r.states_view().len() && r.states_view()[i].iface == t;
                    assert(0 <= k < self.states_view().len() && self.states_view()[k].iface == t);
                }
                if self.spec_implements(t) {
                    let k = choose|i: int|
                        0 <= i < self.states_view().len() && self.states_view()[i].iface == t;
                    assert(0 <= k < r.states_view().len() && r.states_view()[k].iface == t);
                }
            }
        }
        r
    }

    /// The object's dynamic type.
    pub fn type_id(&self) -> (r: TypeId)
        ensures
            r == self.spec_type_id(),
    {
        self.type_id
    }

    /// The is-a check: whether the dynamic type implements `iface`.
    pub fn implements(&self, iface: TypeId) -> (r: bool)
        ensures
            r == self.spec_implements(iface),
    {
        let n = self.states.len();
        let mut i: usize = 0;
        while i < n
            invariant
                n == self.states_view().len(),
                0 <= i <= n,
                forall|j: int| 0 <= j < i ==> self.states_view()[j].iface != iface,
            decreases n - i,
        {
            if self.states[i].iface == iface {
                return true;
            }
            i += 1;
        }
        false
    }

    /// A state found at one position is the state of its interface: states
    /// are one per interface, so the position is unique.
    proof fn lemma_state_index_unique(self, iface: TypeId, i: int)
        requires
            self.wf(),
            0 <= i < self.states_view().len(),
            self.states_view()[i].iface == iface,
        ensures
            self.spec_implements(iface),
            self.spec_state_index(iface) == i,
            self.state_of(iface) == self.states_view()[i],
    {
        assert(self.spec_implements(iface));
        let k = self.spec_state_index(iface);
        assert(0 <= k < self.states_view().len() && self.states_view()[k].iface == iface);
        if k != i {
            assert(self.states_view()[k].iface != self.states_view()[i].iface);
        }
    }

    /// Looks up the interface state of `iface` on this object.
    ///
    /// The caller must already know that the object's dynamic type
    /// implements the interface; on such an object the returned view is the
    /// one stable state attached for that interface.  An object that does
    /// not implement the interface is excluded outright — this lookup never
    /// hands back a view into memory that is not there.
    pub fn from_instance(&self, iface: TypeId) -> (r: InterfaceState)
        requires
            self.wf(),
            self.spec_implements(iface),
        ensures
            r == self.state_of(iface),
            r.iface == iface,
    {
        let n = self.states.len();
        let mut i: usize = 0;
        while i < n
            invariant
                self.wf(),
                self.spec_implements(iface),
                n == self.states_view().len(),
                0 <= i <= n,
                forall|j: int| 0 <= j < i ==> self.states_view()[j].iface != iface,
            decreases n - i,
        {
            if self.states[i].iface == iface {
                proof {
                    self.lemma_state_index_unique(iface, i as int);
                }
                return self.states[i];
            }
            i += 1;
        }
        proof {
            let k = self.spec_state_index(iface);
            assert(0 <= k < self.states_view().len() && self.states_view()[k].iface == iface);
        }
        unreached()
    }

    /// The checked form of the lookup: the state if the dynamic type
    /// implements `iface`, and nothing — deterministically — if it does not.
    pub fn try_from_instance(&self, iface: TypeId) -> (r: Option<InterfaceState>)
        requires
            self.wf(),
        ensures
            (r matches Some(s) ==> s == self.state_of(iface) && s.iface == iface),
            (r is Some <==> self.spec_implements(iface)),
    {
        if self.implements(iface) {
            Some(self.from_instance(iface))
        } else {
            None
        }
    }
}

} // verus!
