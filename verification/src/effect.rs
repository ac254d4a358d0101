//! What the screen's lists of commands do to a scene.

use vstd::prelude::*;
use crate::command::{despawn_each, despawn_of, spawn_each, spawn_of, Command, Entity};
use crate::layout::{spawn_list, Blueprint};
use crate::scene::{
    applied, built, creates, not_named, ran, spawn_count, spawned, valid, Scene, SceneView,
};
use crate::screen::{
    despawn_help, enter_commands, exit_commands, owned, setup_help, stray,
};
use crate::seq_facts::{all_pass, filter_agree, filter_members, filter_twice, none_pass};
use crate::tag::{is_help_owned, is_stray_camera};

verus! {

/// The test that an entity is no stray camera.
pub open spec fn not_stray() -> spec_fn(Entity) -> bool {
    |entity: Entity| !is_stray_camera(entity.tags@)
}

/// The test that an entity bears none of the screen's tags.
pub open spec fn not_owned() -> spec_fn(Entity) -> bool {
    |entity: Entity| !is_help_owned(entity.tags@)
}

/// The test that an entity shares its handle with none of `victims`.
pub open spec fn spared(victims: Seq<Entity>) -> spec_fn(Entity) -> bool {
    |entity: Entity|
        forall|j: int| 0 <= j < victims.len() ==> (#[trigger] victims[j]).id != entity.id
}

/// The entities that `blueprints` become when the first gets the handle
/// `base` and each one after it the next handle.
pub open spec fn fresh(blueprints: Seq<Blueprint>, base: nat) -> Seq<Entity> {
    Seq::new(blueprints.len(), |i: int| built(blueprints[i], (base + i) as u64))
}

/// The scene after the help screen was entered: the stray cameras are gone,
/// everything else stands as before, and the screen's entities follow, in the
/// order of `spawn_list`, under the next handles.
pub open spec fn entered(scene: SceneView) -> SceneView {
    SceneView {
        entities: scene.entities.filter(not_stray()) + fresh(spawn_list(), scene.next_id),
        next_id: scene.next_id + spawn_list().len(),
    }
}

/// The scene after the help screen was left: the entities with one of the
/// screen's tags are gone, everything else stands as before.
pub open spec fn exited(scene: SceneView) -> SceneView {
    SceneView { entities: scene.entities.filter(not_owned()), next_id: scene.next_id }
}

/// A list of commands that ends in `command` does what the list before it
/// does, and then `command`.
pub proof fn ran_push(scene: SceneView, commands: Seq<Command>, command: Command)
    ensures
        ran(scene, commands.push(command)) == applied(ran(scene, commands), command),
{
    assert(commands.push(command).drop_last() =~= commands);
}

/// Two lists of commands, one after the other, do what their concatenation does.
pub proof fn ran_concat(scene: SceneView, first: Seq<Command>, second: Seq<Command>)
    ensures
        ran(scene, first + second) == ran(ran(scene, first), second),
    decreases second.len(),
{
    if second.len() == 0 {
        assert(first + second =~= first);
    } else {
        ran_concat(scene, first, second.drop_last());
        assert((first + second).drop_last() =~= first + second.drop_last());
    }
}

/// Removing `victims` one by one leaves the entities that share a handle with
/// none of them.
pub proof fn ran_despawn_each(scene: SceneView, victims: Seq<Entity>)
    ensures
        ran(scene, despawn_each(victims)) == (SceneView {
            entities: scene.entities.filter(spared(victims)),
            next_id: scene.next_id,
        }),
    decreases victims.len(),
{
    let all = scene.entities;
    if victims.len() == 0 {
        assert(despawn_each(victims) =~= Seq::<Command>::empty());
        filter_agree(all, spared(victims), |entity: Entity| true);
        assert(all.filter(|entity: Entity| true) =~= all) by {
            all_pass(all, |entity: Entity| true);
        }
    } else {
        let rest = victims.drop_last();
        let last = victims.last();
        ran_despawn_each(scene, rest);
        assert(despawn_each(victims) =~= despawn_each(rest).push(despawn_of(last)));
        ran_push(scene, despawn_each(rest), despawn_of(last));
        filter_twice(all, spared(rest), not_named(last.id));
        let both = |entity: Entity| spared(rest)(entity) && not_named(last.id)(entity);
        assert forall|i: int| 0 <= i < all.len() implies both(#[trigger] all[i]) == spared(
            victims,
        )(all[i]) by {
            let entity = all[i];
            if both(entity) {
                assert forall|j: int| 0 <= j < victims.len() implies (#[trigger] victims[j]).id
                    != entity.id by {
                    if j < rest.len() {
                        assert(rest[j].id != entity.id);
                    }
                }
            }
            if spared(victims)(entity) {
                assert(victims[victims.len() - 1].id != entity.id);
                assert forall|j: int| 0 <= j < rest.len() implies (#[trigger] rest[j]).id
                    != entity.id by {
                    assert(victims[j].id != entity.id);
                }
            }
        }
        filter_agree(all, both, spared(victims));
    }
}

/// Creating entities after `blueprints` one by one appends them under the
/// scene's next handles.
pub proof fn ran_spawn_each(scene: SceneView, blueprints: Seq<Blueprint>)
    ensures
        ran(scene, spawn_each(blueprints)) == (SceneView {
            entities: scene.entities + fresh(blueprints, scene.next_id),
            next_id: scene.next_id + blueprints.len(),
        }),
    decreases blueprints.len(),
{
    if blueprints.len() == 0 {
        assert(spawn_each(blueprints) =~= Seq::<Command>::empty());
        assert(scene.entities + fresh(blueprints, scene.next_id) =~= scene.entities);
    } else {
        let rest = blueprints.drop_last();
        let last = blueprints.last();
        ran_spawn_each(scene, rest);
        assert(spawn_each(blueprints) =~= spawn_each(rest).push(spawn_of(last)));
        ran_push(scene, spawn_each(rest), spawn_of(last));
        let before = ran(scene, spawn_each(rest));
        assert(spawned(before, last).entities =~= scene.entities + fresh(
            blueprints,
            scene.next_id,
        ));
    }
}

/// In a valid scene, the entities that share a handle with none of those that
/// pass a test are the entities that fail it.
pub proof fn spared_by_test(scene: SceneView, test: spec_fn(Entity) -> bool)
    requires
        valid(scene),
    ensures
        scene.entities.filter(spared(scene.entities.filter(test))) == scene.entities.filter(
            |entity: Entity| !test(entity),
        ),
{
    let all = scene.entities;
    let victims = all.filter(test);
    let fails = |entity: Entity| !test(entity);
    filter_members(all, test);
    assert forall|i: int| 0 <= i < all.len() implies spared(victims)(#[trigger] all[i]) == fails(
        all[i],
    ) by {
        let entity = all[i];
        if test(entity) {
            assert(all.contains(entity));
            assert(victims.contains(entity));
            let j = choose|j: int| 0 <= j < victims.len() && victims[j] == entity;
            assert(victims[j].id == entity.id);
        } else {
            assert forall|j: int| 0 <= j < victims.len() implies (#[trigger] victims[j]).id
                != entity.id by {
                assert(victims.contains(victims[j]));
                assert(all.contains(victims[j]));
                let k = choose|k: int| 0 <= k < all.len() && all[k] == victims[j];
                assert(test(all[k]));
                if k < i {
                    assert(all[k].id != all[i].id);
                } else {
                    assert(all[i].id != all[k].id);
                }
            }
        }
    }
    filter_agree(all, spared(victims), fails);
}

/// Carrying out what `setup_help` returns for a valid scene enters the screen.
pub proof fn enter_commands_enter(scene: SceneView)
    requires
        valid(scene),
    ensures
        ran(scene, enter_commands(scene.entities)) == entered(scene),
{
    let strays = scene.entities.filter(stray());
    ran_concat(scene, despawn_each(strays), spawn_each(spawn_list()));
    ran_despawn_each(scene, strays);
    ran_spawn_each(ran(scene, despawn_each(strays)), spawn_list());
    spared_by_test(scene, stray());
    filter_agree(scene.entities, |entity: Entity| !stray()(entity), not_stray());
}

/// Carrying out what `despawn_help` returns for a valid scene leaves the screen.
pub proof fn exit_commands_exit(scene: SceneView)
    requires
        valid(scene),
    ensures
        ran(scene, exit_commands(scene.entities)) == exited(scene),
{
    ran_despawn_each(scene, scene.entities.filter(owned()));
    spared_by_test(scene, owned());
    filter_agree(scene.entities, |entity: Entity| !owned()(entity), not_owned());
}

/// Removals create nothing.
pub proof fn despawn_each_creates_nothing(victims: Seq<Entity>)
    ensures
        spawn_count(despawn_each(victims)) == 0,
{
    none_pass(despawn_each(victims), creates());
}

/// A list of creations creates one entity for each blueprint.
pub proof fn spawn_each_creates_all(blueprints: Seq<Blueprint>)
    ensures
        spawn_count(spawn_each(blueprints)) == blueprints.len(),
{
    all_pass(spawn_each(blueprints), creates());
}

/// Enters the help screen in `scene`: asks `setup_help` what is to be done
/// and does it.
pub fn enter(scene: &mut Scene)
    requires
        old(scene).wf(),
        old(scene)@.next_id + spawn_list().len() <= u64::MAX,
    ensures
        final(scene).wf(),
        final(scene)@ == entered(old(scene)@),
{
    let commands = setup_help(scene.entities());
    proof {
        let strays = scene@.entities.filter(stray());
        despawn_each_creates_nothing(strays);
        spawn_each_creates_all(spawn_list());
        Seq::filter_distributes_over_add(
            despawn_each(strays),
            spawn_each(spawn_list()),
            creates(),
        );
        enter_commands_enter(scene@);
    }
    scene.run(&commands);
}

/// Leaves the help screen in `scene`: asks `despawn_help` what is to be done
/// and does it.
pub fn exit(scene: &mut Scene)
    requires
        old(scene).wf(),
    ensures
        final(scene).wf(),
        final(scene)@ == exited(old(scene)@),
{
    let commands = despawn_help(scene.entities());
    proof {
        despawn_each_creates_nothing(scene@.entities.filter(owned()));
        exit_commands_exit(scene@);
    }
    scene.run(&commands);
}

} // verus!
