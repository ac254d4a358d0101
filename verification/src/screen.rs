//! The three hooks of the help screen: entering, the frame, leaving.

use vstd::prelude::*;
use bevy::input::keyboard::KeyCode;
use bevy::input::Input;
use crate::command::{despawn_each, spawn_each, Command, Entity, GameState};
use crate::input::{escape_down, escape_pressed};
use crate::layout::{blueprints, spawn_list};
use crate::seq_facts::filter_take_next;
use crate::tag::{is_help_owned, is_stray_camera};

verus! {

/// The test by which entering picks the cameras to remove.
pub open spec fn stray() -> spec_fn(Entity) -> bool {
    |entity: Entity| is_stray_camera(entity.tags@)
}

/// The test by which leaving picks the entities to remove.
pub open spec fn owned() -> spec_fn(Entity) -> bool {
    |entity: Entity| is_help_owned(entity.tags@)
}

/// What entering the screen asks of a scene that holds `entities`: the
/// removal of each stray camera, in the scene's order, then the creation of
/// the screen's own entities.
pub open spec fn enter_commands(entities: Seq<Entity>) -> Seq<Command> {
    despawn_each(entities.filter(stray())) + spawn_each(spawn_list())
}

/// What leaving the screen asks of a scene that holds `entities`: the removal
/// of each entity with one of the screen's tags, in the scene's order.
pub open spec fn exit_commands(entities: Seq<Entity>) -> Seq<Command> {
    despawn_each(entities.filter(owned()))
}

/// The mode that a frame asks for: the start menu while the exit key is
/// down, none otherwise.
pub open spec fn exit_request(exit_key_down: bool) -> Option<GameState> {
    if exit_key_down {
        Some(GameState::Start)
    } else {
        None
    }
}

/// Enters the help screen. `entities` is the scene as it stands. Cameras left
/// behind by the screen before are removed; the player's camera and the tile
/// map's stay. Then the camera, the background and the seven labels are
/// created.
pub fn setup_help(entities: &Vec<Entity>) -> (commands: Vec<Command>)
    ensures
        commands@ == enter_commands(entities@),
{
    let mut commands: Vec<Command> = Vec::new();
    let mut i: usize = 0;
    assert(entities@.take(0).filter(stray()) =~= Seq::<Entity>::empty()) by {
        reveal(Seq::filter);
    }
    assert(commands@ =~= despawn_each(entities@.take(0).filter(stray())));
    while i < entities.len()
        invariant
            i <= entities.len(),
            commands@ == despawn_each(entities@.take(i as int).filter(stray())),
        decreases entities.len() - i,
    {
        proof {
            filter_take_next(entities@, i as int, stray());
        }
        if entities[i].tags.is_stray_camera() {
            commands.push(Command::Despawn(entities[i].id));
        }
        i += 1;
        assert(commands@ =~= despawn_each(entities@.take(i as int).filter(stray())));
    }
    assert(entities@.take(i as int) =~= entities@);
    let ghost removals = commands@;
    let list = blueprints();
    let mut k: usize = 0;
    assert(commands@ =~= removals + spawn_each(list@.take(0)));
    while k < list.len()
        invariant
            k <= list.len(),
            commands@ == removals + spawn_each(list@.take(k as int)),
        decreases list.len() - k,
    {
        commands.push(Command::Spawn(list[k]));
        k += 1;
        assert(commands@ =~= removals + spawn_each(list@.take(k as int)));
    }
    assert(list@.take(k as int) =~= list@);
    commands
}

/// Leaves the help screen. `entities` is the scene as it stands. Every entity
/// that bears the help camera's tag, the help background's or the label tag
/// is removed, each once.
pub fn despawn_help(entities: &Vec<Entity>) -> (commands: Vec<Command>)
    ensures
        commands@ == exit_commands(entities@),
{
    let mut commands: Vec<Command> = Vec::new();
    let mut i: usize = 0;
    assert(entities@.take(0).filter(owned()) =~= Seq::<Entity>::empty()) by {
        reveal(Seq::filter);
    }
    assert(commands@ =~= despawn_each(entities@.take(0).filter(owned())));
    while i < entities.len()
        invariant
            i <= entities.len(),
            commands@ == despawn_each(entities@.take(i as int).filter(owned())),
        decreases entities.len() - i,
    {
        proof {
            filter_take_next(entities@, i as int, owned());
        }
        if entities[i].tags.is_help_owned() {
            commands.push(Command::Despawn(entities[i].id));
        }
        i += 1;
        assert(commands@ =~= despawn_each(entities@.take(i as int).filter(owned())));
    }
    assert(entities@.take(i as int) =~= entities@);
    commands
}

/// One frame of the help screen, decided from the state of the exit key.
/// While the key is down the frame asks for the start menu, once; a frame
/// with the key up asks for nothing. The answer depends on this frame's key
/// state alone, so a key that is held asks again in every frame.
pub fn tick(exit_key_down: bool) -> (request: Option<GameState>)
    ensures
        request == exit_request(exit_key_down),
{
    if exit_key_down {
        Some(GameState::Start)
    } else {
        None
    }
}

/// One frame of the help screen, read from the engine's keyboard record: the
/// exit key is Escape.
pub fn handle_exit_help(keys: &Input<KeyCode>) -> (request: Option<GameState>)
    ensures
        request == exit_request(escape_down(*keys)),
{
    tick(escape_pressed(keys))
}

} // verus!
