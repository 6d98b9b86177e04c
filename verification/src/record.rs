use vstd::prelude::*;

use crate::descriptor::InterfaceDescriptor;
use crate::registry::{
    register_interface, registration_trace, Registration, RegistrationError, RuntimeAction,
    TypeRegistry, MAX_TYPES,
};
use crate::types::TypeId;

verus! {

/// The process-wide registration record of one interface descriptor: empty
/// until the first registration succeeds, then the issued identifier,
/// forever.  It is the cache behind the run-once gate: repeated registration
/// requests replay the stored identifier instead of re-executing anything.
pub struct RegistrationRecord {
    cached: Option<TypeId>,
}

impl RegistrationRecord {
    /// The stored identifier, if a registration already succeeded.
    pub closed spec fn cached(self) -> Option<TypeId> {
        self.cached
    }

    /// A record stores only what the registry actually issued for the
    /// descriptor's name.
    pub open spec fn consistent_with(self, registry: TypeRegistry, name: Seq<char>) -> bool {
        (self.cached() matches Some(t) ==> {
            &&& t.spec_is_valid()
            &&& registry.registered(name)
            &&& registry.id_of(name) == t
        })
    }

    /// A fresh record: no registration has happened yet.
    pub fn new() -> (r: RegistrationRecord)
        ensures
            r.cached() is None,
    {
        RegistrationRecord { cached: None }
    }

    /// The stored identifier, if any.
    pub fn cached_type(&self) -> (r: Option<TypeId>)
        ensures
            r == self.cached(),
    {
        self.cached
    }
}

/// The run-once registration gate, minus the lock: returns the cached
/// identifier if the descriptor was already registered, and performs the
/// registration exactly once otherwise.
///
/// On the replay path nothing is re-executed: the returned action trace is
/// empty, so neither hook nor any property or signal installation runs
/// again, and every caller observes the identical identifier.  The caller
/// that owns the process-wide state must serialize concurrent first-time
/// calls through a run-once primitive; under that serialization this
/// function makes the outcome independent of which caller arrives first.
pub fn get_or_register(
    record: &mut RegistrationRecord,
    registry: &mut TypeRegistry,
    desc: &InterfaceDescriptor,
) -> (r: Result<Registration, RegistrationError>)
    requires
        old(registry).wf(),
        old(record).cached() is None && !old(registry).registered(desc.name@)
            ==> old(registry).count() < MAX_TYPES,
        old(record).consistent_with(*old(registry), desc.name@),
    ensures
        final(registry).wf(),
        final(record).consistent_with(*final(registry), desc.name@),
        (old(record).cached() matches Some(t) ==> {
            &&& r matches Ok(reg) && reg.id == t && reg.actions@ == Seq::<RuntimeAction>::empty()
            &&& *final(registry) == *old(registry)
            &&& *final(record) == *old(record)
        }),
        (old(record).cached() is None ==> {
            &&& ((r is Err) <==> old(registry).registered(desc.name@))
            &&& (r is Err ==> *final(registry) == *old(registry) && *final(record) == *old(record)
                && (r matches Err(RegistrationError::NameCollision)))
            &&& (r matches Ok(reg) ==> {
                &&& reg.id.spec_is_valid()
                &&& final(record).cached() == Some(reg.id)
                &&& forall|n: Seq<char>|
                    old(registry).registered(n) ==> old(registry).id_of(n) != reg.id
                &&& final(registry).registered(desc.name@)
                &&& final(registry).id_of(desc.name@) == reg.id
                &&& final(registry).count() == old(registry).count() + 1
                &&& forall|n: Seq<char>|
                    old(registry).registered(n) ==> final(registry).registered(n)
                        && final(registry).id_of(n) == old(registry).id_of(n)
                &&& reg.actions@ == registration_trace(desc.prerequisites@, reg.id)
            })
        }),
{
    match record.cached {
        Some(t) => Ok(Registration { id: t, actions: Vec::new() }),
        None => {
            match register_interface(registry, desc) {
                Ok(reg) => {
                    record.cached = Some(reg.id);
                    Ok(reg)
                },
                Err(e) => Err(e),
            }
        },
    }
}

} // verus!
