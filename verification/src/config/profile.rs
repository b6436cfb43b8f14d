//! Power profiles.

use vstd::prelude::*;

verus! {

/// The power profiles that the daemon ships with.
#[derive(Copy, Clone, Debug, PartialEq, Eq, Structural)]
pub enum ProfileKind {
    Battery,
    Balanced,
    Performance,
}

impl ProfileKind {
    /// The name of the profile.
    pub open spec fn spec_name(self) -> &'static str {
        match self {
            ProfileKind::Balanced => "balanced",
            ProfileKind::Battery => "battery",
            ProfileKind::Performance => "performance",
        }
    }

    /// The name of the profile.
    pub fn name(self) -> (name: &'static str)
        ensures
            name == self.spec_name(),
    {
        match self {
            ProfileKind::Balanced => "balanced",
            ProfileKind::Battery => "battery",
            ProfileKind::Performance => "performance",
        }
    }
}

impl From<ProfileKind> for &'static str {
    fn from(profile: ProfileKind) -> (name: Self) {
        profile.name()
    }
}

impl vstd::std_specs::convert::FromSpecImpl<ProfileKind> for &'static str {
    open spec fn obeys_from_spec() -> bool {
        true
    }

    open spec fn from_spec(profile: ProfileKind) -> Self {
        profile.spec_name()
    }
}

} // verus!
