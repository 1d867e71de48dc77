//! Identifiers of entity kinds.

use vstd::prelude::*;

verus! {

/// A kind of entity that can be spawned.
#[derive(Debug, PartialEq, Eq, Hash)]
pub enum EntityID {
    Player,
    SlimeSimple,
    SlimeCold,
    SlimeFire,
}

impl EntityID {
    /// The name under which the kind's textures are registered.
    pub open spec fn name(self) -> Seq<char> {
        match self {
            EntityID::Player => "Player"@,
            EntityID::SlimeSimple => "SlimeSimple"@,
            EntityID::SlimeCold => "SlimeCold"@,
            EntityID::SlimeFire => "SlimeFire"@,
        }
    }

    /// The name under which the kind's textures are registered.
    pub fn to_string(&self) -> (r: String)
        ensures
            r@ == self.name(),
    {
        match self {
            EntityID::Player => "Player".to_owned(),
            EntityID::SlimeSimple => "SlimeSimple".to_owned(),
            EntityID::SlimeCold => "SlimeCold".to_owned(),
            EntityID::SlimeFire => "SlimeFire".to_owned(),
        }
    }
}

} // verus!
