use vstd::prelude::*;

use crate::prerequisite::PrerequisiteList;

verus! {

/// The value kind a property carries.
#[derive(Clone, Copy, PartialEq, Eq, Structural, Debug)]
pub enum PropertyKind {
    Str,
    Int64,
    UInt64,
    Boolean,
}

/// A property an interface declares; every implementor must provide it.
#[derive(Debug)]
pub struct PropertySpec {
    pub name: String,
    pub kind: PropertyKind,
}

impl Clone for PropertySpec {
    fn clone(&self) -> (r: Self)
        ensures
            r == *self,
    {
        PropertySpec { name: self.name.clone(), kind: self.kind }
    }
}

impl PropertySpec {
    /// A property specification under the given name.
    pub fn new(name: String, kind: PropertyKind) -> (r: PropertySpec)
        ensures
            r.name == name,
            r.kind == kind,
    {
        PropertySpec { name, kind }
    }
}

/// A signal an interface declares against its type identifier.
#[derive(Debug)]
pub struct SignalSpec {
    pub name: String,
}

impl Clone for SignalSpec {
    fn clone(&self) -> (r: Self)
        ensures
            r == *self,
    {
        SignalSpec { name: self.name.clone() }
    }
}

impl SignalSpec {
    /// A signal specification under the given name.
    pub fn new(name: String) -> (r: SignalSpec)
        ensures
            r.name == name,
    {
        SignalSpec { name }
    }
}

/// Everything a defining party supplies for a new interface: a process-wide
/// unique name, the prerequisite types, and the properties and signals to
/// install before the interface's own initialization hook runs.
///
/// The two lifecycle hooks (`type_init`, `interface_init`) are not stored
/// here as code: the registration functions emit them as explicit actions in
/// their traces, and the surrounding runtime dispatches each action to the
/// defining party's hook.
pub struct InterfaceDescriptor {
    pub name: String,
    pub prerequisites: PrerequisiteList,
    pub properties: Vec<PropertySpec>,
    pub signals: Vec<SignalSpec>,
}

impl InterfaceDescriptor {
    /// A descriptor with no prerequisites, properties or signals.
    pub fn new(name: String) -> (r: InterfaceDescriptor)
        ensures
            r.name == name,
            r.prerequisites@ == Seq::<crate::types::TypeId>::empty(),
            r.properties@ == Seq::<PropertySpec>::empty(),
            r.signals@ == Seq::<SignalSpec>::empty(),
    {
        InterfaceDescriptor {
            name,
            prerequisites: PrerequisiteList::new(),
            properties: Vec::new(),
            signals: Vec::new(),
        }
    }

    /// Replaces the prerequisite list.
    pub fn with_prerequisites(self, prerequisites: PrerequisiteList) -> (r: InterfaceDescriptor)
        ensures
            r.name == self.name,
            r.prerequisites == prerequisites,
            r.properties == self.properties,
            r.signals == self.signals,
    {
        InterfaceDescriptor { prerequisites, ..self }
    }

    /// Declares one more property, after those already declared.
    pub fn property(self, prop: PropertySpec) -> (r: InterfaceDescriptor)
        ensures
            r.name == self.name,
            r.prerequisites == self.prerequisites,
            r.properties@ == self.properties@.push(prop),
            r.signals == self.signals,
    {
        let mut properties = self.properties;
        properties.push(prop);
        InterfaceDescriptor { properties, ..self }
    }

    /// Declares one more signal, after those already declared.
    pub fn signal(self, signal: SignalSpec) -> (r: InterfaceDescriptor)
        ensures
            r.name == self.name,
            r.prerequisites == self.prerequisites,
            r.properties == self.properties,
            r.signals@ == self.signals@.push(signal),
    {
        let mut signals = self.signals;
        signals.push(signal);
        InterfaceDescriptor { signals, ..self }
    }
}

} // verus!
