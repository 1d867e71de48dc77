//! Plain components attached to entities.

use vstd::prelude::*;

verus! {

/// Handle of an entity.
#[derive(Clone, Copy, Debug, PartialEq, Eq, Hash)]
pub struct Entity(pub u32);

/// Remaining health of an entity.
#[derive(Clone, Debug)]
pub struct Health {
    pub current: i32,
}

/// Drawing layer, back to front.
#[derive(Clone, Copy, Debug, PartialEq, Eq, Hash)]
pub enum RenderLayer {
    /// Big background image or tile map behind everything.
    Background,
    /// Ground or floor surface.
    Surface,
    /// Objects that sit on top of the surface.
    SurfaceObject,
    /// Dynamic entities such as player, enemies, projectiles.
    Entity,
}

/// High-level state of an entity, which selects its sprite sheet.
#[derive(Clone, Copy, Debug, PartialEq, Eq, Hash)]
pub enum State {
    Idle,
    Attack,
    Walk,
    Run,
    Hurt,
    Death,
}

impl State {
    /// The key of the state in the texture maps.
    pub open spec fn key(self) -> Seq<char> {
        match self {
            State::Idle => "Idle"@,
            State::Attack => "Attack"@,
            State::Walk => "Walk"@,
            State::Run => "Run"@,
            State::Hurt => "Hurt"@,
            State::Death => "Die"@,
        }
    }

    /// The key of the state in the texture maps.
    pub fn as_str(&self) -> (r: &'static str)
        ensures
            r@ == self.key(),
    {
        match self {
            State::Idle => "Idle",
            State::Attack => "Attack",
            State::Walk => "Walk",
            State::Run => "Run",
            State::Hurt => "Hurt",
            State::Death => "Die",
        }
    }
}

/// Marker component of the controllable player.
#[derive(Clone, Debug)]
pub struct PlayerInput;

} // verus!
