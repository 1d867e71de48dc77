//! Identifiers of backgrounds.

use vstd::prelude::*;

verus! {

/// A background that can be loaded.
#[derive(Debug, PartialEq, Eq, Hash)]
pub enum BackgroundID {
    Jungle,
}

impl BackgroundID {
    /// The name under which the background's textures are registered.
    pub open spec fn name(self) -> Seq<char> {
        match self {
            BackgroundID::Jungle => "Jungle"@,
        }
    }

    /// The name under which the background's textures are registered.
    pub fn to_string(&self) -> (r: String)
        ensures
            r@ == self.name(),
    {
        match self {
            BackgroundID::Jungle => "Jungle".to_owned(),
        }
    }
}

} // verus!
