//! Identifiers of backup configurations and the errors of looking one up.

use vstd::prelude::*;

verus! {

/// Opaque identifier of one backup configuration. Equality-comparable; the
/// rest of the system forwards it without inspecting it.
#[derive(Clone, Debug)]
pub struct ConfigId(pub String);

impl ConfigId {
    pub fn new(id: String) -> (r: ConfigId)
        ensures
            r.0@ == id@,
    {
        ConfigId(id)
    }

    pub fn as_str(&self) -> (r: &str)
        ensures
            r@ == self.0@,
    {
        self.0.as_str()
    }
}

impl PartialEq for ConfigId {
    fn eq(&self, other: &Self) -> bool {
        self.0 == other.0
    }
}

impl vstd::std_specs::cmp::PartialEqSpecImpl for ConfigId {
    open spec fn obeys_eq_spec() -> bool {
        true
    }

    open spec fn eq_spec(&self, other: &Self) -> bool {
        self.0@ == other.0@
    }
}

/// A configuration with this identifier already exists.
#[derive(Clone, Debug)]
pub struct BackupExists {
    pub id: ConfigId,
}

/// No configuration with this identifier exists.
#[derive(Clone, Debug)]
pub struct BackupNotFound {
    pub id: ConfigId,
}

} // verus!
