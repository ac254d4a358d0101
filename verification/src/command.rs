//! Entities as the screen sees them, and what it asks of the host.

use vstd::prelude::*;
use crate::layout::{Blueprint, Visual};
use crate::tag::TagSet;

verus! {

/// An entity of the scene graph: the host's handle, the tags, the looks.
#[derive(Clone, Copy, Debug, PartialEq, Eq)]
pub struct Entity {
    /// The host's handle. No two entities of one scene share it.
    pub id: u64,
    pub tags: TagSet,
    pub visual: Visual,
}

/// A change of the scene graph that the host is to carry out.
#[derive(Clone, Copy, Debug, PartialEq, Eq)]
pub enum Command {
    /// Remove the entity with this handle. One that is gone already is left alone.
    Despawn(u64),
    /// Create an entity after this blueprint.
    Spawn(Blueprint),
}

/// The modes of the game that the help screen moves between.
#[derive(Clone, Copy, Debug, PartialEq, Eq, Structural)]
pub enum GameState {
    /// The start menu, from which the help screen is opened.
    Start,
    /// The help screen.
    Help,
}

/// The command that removes `entity`.
pub open spec fn despawn_of(entity: Entity) -> Command {
    Command::Despawn(entity.id)
}

/// The command that creates an entity after `blueprint`.
pub open spec fn spawn_of(blueprint: Blueprint) -> Command {
    Command::Spawn(blueprint)
}

/// One removal for each of `entities`, in their order.
pub open spec fn despawn_each(entities: Seq<Entity>) -> Seq<Command> {
    entities.map_values(|entity: Entity| despawn_of(entity))
}

/// One creation for each of `blueprints`, in their order.
pub open spec fn spawn_each(blueprints: Seq<Blueprint>) -> Seq<Command> {
    blueprints.map_values(|blueprint: Blueprint| spawn_of(blueprint))
}

} // verus!
