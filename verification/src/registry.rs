use vstd::prelude::*;

use crate::descriptor::{InterfaceDescriptor, PropertySpec, SignalSpec};
use crate::types::TypeId;

verus! {

/// Upper bound on how many types the registry hands out identifiers for.
pub const MAX_TYPES: u64 = 0xffff_ffff;

/// One call that the surrounding runtime must perform on behalf of a
/// registration.  The registration functions only decide; they return the
/// calls to make, in order, and the runtime dispatches each one — the
/// prerequisite attachments and the `type_init` hook right after the type is
/// allocated, the property installations, signal registrations and the
/// `interface_init` hook when the runtime first initializes the interface.
#[derive(Debug)]
pub enum RuntimeAction {
    /// Attach a prerequisite constraint to the freshly registered interface.
    AddPrerequisite { iface: TypeId, prerequisite: TypeId },
    /// Install one declared property on the interface.
    InstallProperty { iface: TypeId, prop: PropertySpec },
    /// Register one declared signal against the interface's identifier.
    RegisterSignal { iface: TypeId, signal: SignalSpec },
    /// Invoke the defining party's `type_init` hook.
    CallTypeInit { iface: TypeId },
    /// Invoke the defining party's `interface_init` hook.
    CallInterfaceInit { iface: TypeId },
}

/// Why a registration was refused.
#[derive(Clone, Copy, PartialEq, Eq, Structural, Debug)]
pub enum RegistrationError {
    /// The descriptor's name already names a registered type.  Two distinct
    /// descriptors may never share a name; the failure is deterministic and
    /// leaves the registry unchanged.
    NameCollision,
}

/// A successful registration: the fresh identifier and the ordered calls the
/// runtime still has to perform for it.
#[derive(Debug)]
pub struct Registration {
    pub id: TypeId,
    pub actions: Vec<RuntimeAction>,
}

/// The calls owed right after a fresh registration: one prerequisite
/// attachment per declared prerequisite, in declaration order, then the
/// `type_init` hook, last.
pub open spec fn registration_trace(prereqs: Seq<TypeId>, iface: TypeId) -> Seq<RuntimeAction> {
    Seq::new(
        prereqs.len() + 1,
        |i: int|
            if i < prereqs.len() {
                RuntimeAction::AddPrerequisite { iface, prerequisite: prereqs[i] }
            } else {
                RuntimeAction::CallTypeInit { iface }
            },
    )
}

/// The calls owed when the runtime first initializes the interface: every
/// property installation in declaration order, then every signal
/// registration in declaration order, then the `interface_init` hook, last —
/// so the hook already sees the properties and signals.
pub open spec fn interface_init_trace(
    props: Seq<PropertySpec>,
    sigs: Seq<SignalSpec>,
    iface: TypeId,
) -> Seq<RuntimeAction> {
    Seq::new(
        props.len() + sigs.len() + 1,
        |i: int|
            if i < props.len() {
                RuntimeAction::InstallProperty { iface, prop: props[i] }
            } else if i < props.len() + sigs.len() {
                RuntimeAction::RegisterSignal { iface, signal: sigs[i - props.len()] }
            } else {
                RuntimeAction::CallInterfaceInit { iface }
            },
    )
}

/// The process-wide type registry: which names are registered, and which
/// identifier was issued for each.  Entries are permanent — nothing is ever
/// removed — and an identifier, once issued for a name, never changes.
pub struct TypeRegistry {
    names: Vec<String>,
}

impl TypeRegistry {
    /// The registered names, in registration order.
    pub closed spec fn names_view(self) -> Seq<Seq<char>> {
        self.names@.map(|i: int, s: String| s@)
    }

    /// How many types are registered.
    pub open spec fn count(self) -> nat {
        self.names_view().len()
    }

    /// Whether `name` names a registered type.
    pub open spec fn registered(self, name: Seq<char>) -> bool {
        exists|i: int| 0 <= i < self.names_view().len() && self.names_view()[i] == name
    }

    /// The registration position of `name`; meaningful only when registered.
    pub open spec fn spec_index_of(self, name: Seq<char>) -> int {
        choose|i: int| 0 <= i < self.names_view().len() && self.names_view()[i] == name
    }

    /// The identifier issued for `name`; meaningful only when registered.
    /// The identifier of the i-th registered name is `i + 1`, so the sentinel
    /// zero is never issued.
    pub open spec fn id_of(self, name: Seq<char>) -> TypeId {
        TypeId { raw: (self.spec_index_of(name) + 1) as u64 }
    }

    /// Registered names are pairwise distinct, and the registry has room for
    /// its identifiers.
    pub open spec fn wf(self) -> bool {
        &&& forall|i: int, j: int|
            0 <= i < j < self.names_view().len() ==> self.names_view()[i] != self.names_view()[j]
        &&& self.names_view().len() <= MAX_TYPES
    }

    /// An empty registry: no name is registered.
    pub fn new() -> (r: TypeRegistry)
        ensures
            r.wf(),
            r.count() == 0,
            forall|n: Seq<char>| !r.registered(n),
    {
        TypeRegistry { names: Vec::new() }
    }

    /// How many types are registered.
    pub fn len(&self) -> (r: usize)
        ensures
            r == self.count(),
    {
        self.names.len()
    }

    /// Looks a name up, as the foreign registrar does: the issued identifier
    /// if the name is registered, the invalid sentinel if not.
    pub fn type_from_name(&self, name: &String) -> (r: TypeId)
        requires
            self.wf(),
        ensures
            self.registered(name@) ==> r == self.id_of(name@) && r.spec_is_valid(),
            !self.registered(name@) ==> r.raw == 0,
    {
        let n = self.names.len();
        let mut i: usize = 0;
        while i < n
            invariant
                self.wf(),
                n == self.names_view().len(),
                0 <= i <= n,
                forall|j: int| 0 <= j < i ==> self.names_view()[j] != name@,
            decreases n - i,
        {
            if self.names[i].eq(name) {
                proof {
                    self.lemma_index_unique(name@, i as int);
                }
                return TypeId::from_raw(i as u64 + 1);
            }
            i += 1;
        }
        TypeId::from_raw(0)
    }

    /// A name found at one position is registered, and that position is the
    /// one its identifier was issued from: registered names are distinct, so
    /// the position is unique.
    proof fn lemma_index_unique(self, name: Seq<char>, i: int)
        requires
            self.wf(),
            0 <= i < self.names_view().len(),
            self.names_view()[i] == name,
        ensures
            self.registered(name),
            self.spec_index_of(name) == i,
    {
        assert(self.registered(name));
        let k = self.spec_index_of(name);
        assert(0 <= k < self.names_view().len() && self.names_view()[k] == name);
        if k != i {
            assert(self.names_view()[k] != self.names_view()[i]);
        }
    }

    /// The identifier issued for a registered name is valid and no larger
    /// than the number of registered types.
    pub proof fn lemma_id_of_bounds(self, name: Seq<char>)
        requires
            self.wf(),
            self.registered(name),
        ensures
            self.id_of(name).spec_is_valid(),
            1 <= self.id_of(name).raw <= self.count(),
    {
        let k = self.spec_index_of(name);
        assert(0 <= k < self.names_view().len() && self.names_view()[k] == name);
    }

    /// Type identity is never shared: two distinct registered names were
    /// issued two distinct identifiers.
    pub proof fn lemma_ids_injective(self, n1: Seq<char>, n2: Seq<char>)
        requires
            self.wf(),
            self.registered(n1),
            self.registered(n2),
            n1 != n2,
        ensures
            self.id_of(n1) != self.id_of(n2),
    {
        let k1 = self.spec_index_of(n1);
        let k2 = self.spec_index_of(n2);
        assert(0 <= k1 < self.names_view().len() && self.names_view()[k1] == n1);
        assert(0 <= k2 < self.names_view().len() && self.names_view()[k2] == n2);
        assert(k1 != k2);
    }
}

/// Registers a new interface type with the registry.
///
/// On a fresh name this issues a valid identifier, one never issued
/// before, records the name permanently, and returns the
/// calls the runtime owes the new type: the prerequisite attachments in
/// declaration order, then the `type_init` hook.  On a name collision it
/// fails deterministically and leaves the registry unchanged: two distinct
/// descriptors can never observe two identifiers for one name.
pub fn register_interface(registry: &mut TypeRegistry, desc: &InterfaceDescriptor) -> (r: Result<
    Registration,
    RegistrationError,
>)
    requires
        old(registry).wf(),
        !old(registry).registered(desc.name@) ==> old(registry).count() < MAX_TYPES,
    ensures
        final(registry).wf(),
        (r is Err <==> old(registry).registered(desc.name@)),
        r is Err ==> *final(registry) == *old(registry) && (r matches Err(
            RegistrationError::NameCollision,
        )),
        (r matches Ok(reg) ==> {
            &&& reg.id.spec_is_valid()
            &&& forall|n: Seq<char>|
                old(registry).registered(n) ==> old(registry).id_of(n) != reg.id
            &&& final(registry).registered(desc.name@)
            &&& final(registry).id_of(desc.name@) == reg.id
            &&& final(registry).count() == old(registry).count() + 1
            &&& forall|n: Seq<char>|
                n != desc.name@ ==> (final(registry).registered(n) <==> old(registry).registered(n))
            &&& forall|n: Seq<char>|
                old(registry).registered(n) ==> final(registry).registered(n)
                    && final(registry).id_of(n) == old(registry).id_of(n)
            &&& reg.actions@ == registration_trace(desc.prerequisites@, reg.id)
        }),
{
    let existing = registry.type_from_name(&desc.name);
    if existing.is_valid() {
        return Err(RegistrationError::NameCollision);
    }
    let ghost old_reg = *registry;
    let pos = registry.names.len();
    let raw = pos as u64 + 1;
    registry.names.push(desc.name.clone());
    let id = TypeId::from_raw(raw);
    proof {
        assert(registry.names_view() =~= old_reg.names_view().push(desc.name@));
        assert forall|i: int, j: int|
            0 <= i < j < registry.names_view().len() implies registry.names_view()[i]
            != registry.names_view()[j] by {
            if j == registry.names_view().len() - 1 {
                assert(old_reg.names_view()[i] != desc.name@);
            }
        }
        registry.lemma_index_unique(desc.name@, pos as int);
        assert forall|n: Seq<char>| old_reg.registered(n) implies registry.registered(n)
            && registry.id_of(n) == old_reg.id_of(n) && old_reg.id_of(n) != id by {
            let k = old_reg.spec_index_of(n);
            assert(0 <= k < old_reg.names_view().len() && old_reg.names_view()[k] == n);
            registry.lemma_index_unique(n, k);
            old_reg.lemma_id_of_bounds(n);
        }
        assert forall|n: Seq<char>| n != desc.name@ && registry.registered(n) implies old_reg
            .registered(n) by {
            let k = registry.spec_index_of(n);
            assert(0 <= k < registry.names_view().len() && registry.names_view()[k] == n);
            assert(k != pos as int);
        }
    }
    let mut actions: Vec<RuntimeAction> = Vec::new();
    let prereqs = desc.prerequisites.types();
    let n = prereqs.len();
    let mut i: usize = 0;
    while i < n
        invariant
            n == desc.prerequisites@.len(),
            prereqs@ == desc.prerequisites@,
            0 <= i <= n,
            actions@.len() == i,
            forall|j: int|
                0 <= j < i ==> actions@[j] == (RuntimeAction::AddPrerequisite {
                    iface: id,
                    prerequisite: desc.prerequisites@[j],
                }),
        decreases n - i,
    {
        actions.push(RuntimeAction::AddPrerequisite { iface: id, prerequisite: prereqs[i] });
        i += 1;
    }
    actions.push(RuntimeAction::CallTypeInit { iface: id });
    proof {
        assert(actions@ =~= registration_trace(desc.prerequisites@, id));
    }
    Ok(Registration { id, actions })
}

/// Produces the initialization calls the runtime owes a registered interface
/// before its first implementor exists: install every declared property, in
/// declaration order; register every declared signal, in declaration order;
/// invoke the `interface_init` hook last, so it can already refer to them.
pub fn interface_init(desc: &InterfaceDescriptor, iface: TypeId) -> (r: Vec<RuntimeAction>)
    ensures
        r@ == interface_init_trace(desc.properties@, desc.signals@, iface),
{
    let mut actions: Vec<RuntimeAction> = Vec::new();
    let np = desc.properties.len();
    let mut i: usize = 0;
    while i < np
        invariant
            np == desc.properties@.len(),
            0 <= i <= np,
            actions@.len() == i,
            forall|j: int|
                0 <= j < i ==> actions@[j] == (RuntimeAction::InstallProperty {
                    iface,
                    prop: desc.properties@[j],
                }),
        decreases np - i,
    {
        actions.push(RuntimeAction::InstallProperty { iface, prop: desc.properties[i].clone() });
        i += 1;
    }
    let ns = desc.signals.len();
    let mut k: usize = 0;
    while k < ns
        invariant
            np == desc.properties@.len(),
            ns == desc.signals@.len(),
            0 <= k <= ns,
            actions@.len() == np + k,
            forall|j: int|
                0 <= j < np ==> actions@[j] == (RuntimeAction::InstallProperty {
                    iface,
                    prop: desc.properties@[j],
                }),
            forall|j: int|
                0 <= j < k ==> actions@[np + j] == (RuntimeAction::RegisterSignal {
                    iface,
                    signal: desc.signals@[j],
                }),
        decreases ns - k,
    {
        actions.push(RuntimeAction::RegisterSignal { iface, signal: desc.signals[k].clone() });
        k += 1;
    }
    actions.push(RuntimeAction::CallInterfaceInit { iface });
    proof {
        assert(actions@ =~= interface_init_trace(desc.properties@, desc.signals@, iface));
    }
    actions
}

} // verus!
