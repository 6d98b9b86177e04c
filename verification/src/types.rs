use vstd::prelude::*;

verus! {

/// An opaque, process-wide handle naming a registered type in the object
/// system.  Once a raw value is issued for a name it never changes meaning;
/// the raw value zero is the distinguished `INVALID` sentinel, which no
/// registered type ever carries.
#[derive(Clone, Copy, PartialEq, Eq, Structural, Debug, Hash)]
pub struct TypeId {
    pub raw: u64,
}

impl TypeId {
    /// A valid identifier is any value other than the sentinel.
    pub open spec fn spec_is_valid(self) -> bool {
        self.raw != 0
    }

    /// Whether this identifier names a type at all.
    #[verifier::when_used_as_spec(spec_is_valid)]
    pub fn is_valid(self) -> (r: bool)
        ensures
            r == self.spec_is_valid(),
    {
        self.raw != 0
    }

    /// The distinguished sentinel that names no type.
    pub fn invalid() -> (r: TypeId)
        ensures
            !r.spec_is_valid(),
            r.raw == 0,
    {
        TypeId { raw: 0 }
    }

    /// Wraps a raw handle received from the surrounding runtime.
    pub fn from_raw(raw: u64) -> (r: TypeId)
        ensures
            r.raw == raw,
    {
        TypeId { raw }
    }
}

} // verus!
