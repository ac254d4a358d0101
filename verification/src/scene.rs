//! A scene graph in memory: entities that are created, removed and queried
//! by tag, and the meaning of the screen's commands on it.

use vstd::prelude::*;
use crate::command::{Command, Entity};
use crate::layout::Blueprint;
use crate::seq_facts::{filter_members, filter_take_next};
use crate::tag::Tag;

verus! {

/// A scene as a value: its entities in the order of their creation, and the
/// handle that the next entity will get.
pub struct SceneView {
    pub entities: Seq<Entity>,
    pub next_id: nat,
}

/// No two entities share a handle.
pub open spec fn distinct_ids(entities: Seq<Entity>) -> bool {
    forall|i: int, j: int|
        0 <= i < j < entities.len() ==> (#[trigger] entities[i]).id != (#[trigger] entities[j]).id
}

/// The scene's handles are distinct, all of them were given out already, and
/// the next one is a handle still.
pub open spec fn valid(scene: SceneView) -> bool {
    &&& distinct_ids(scene.entities)
    &&& forall|i: int| 0 <= i < scene.entities.len() ==> (#[trigger] scene.entities[i]).id < scene.next_id
    &&& scene.next_id <= u64::MAX
}

/// The test that an entity bears `tag`.
pub open spec fn bears(tag: Tag) -> spec_fn(Entity) -> bool {
    |entity: Entity| entity.tags@.contains(tag)
}

/// The test that an entity's handle is not `id`.
pub open spec fn not_named(id: u64) -> spec_fn(Entity) -> bool {
    |entity: Entity| entity.id != id
}

/// The entities that bear `tag`, in the scene's order.
pub open spec fn tagged(entities: Seq<Entity>, tag: Tag) -> Seq<Entity> {
    entities.filter(bears(tag))
}

/// The entity that `blueprint` becomes under the handle `id`.
pub open spec fn built(blueprint: Blueprint, id: u64) -> Entity {
    Entity { id, tags: blueprint.tags, visual: blueprint.visual }
}

/// The scene after one creation: the new entity stands last and has the
/// scene's next handle.
pub open spec fn spawned(scene: SceneView, blueprint: Blueprint) -> SceneView {
    SceneView {
        entities: scene.entities.push(built(blueprint, scene.next_id as u64)),
        next_id: scene.next_id + 1,
    }
}

/// The scene after one removal: the entity with the handle `id` is gone, if
/// there was one, and the others stand as before.
pub open spec fn despawned(scene: SceneView, id: u64) -> SceneView {
    SceneView { entities: scene.entities.filter(not_named(id)), next_id: scene.next_id }
}

/// The scene after one command.
pub open spec fn applied(scene: SceneView, command: Command) -> SceneView {
    match command {
        Command::Despawn(id) => despawned(scene, id),
        Command::Spawn(blueprint) => spawned(scene, blueprint),
    }
}

/// The scene after a list of commands, carried out from the first to the last.
pub open spec fn ran(scene: SceneView, commands: Seq<Command>) -> SceneView
    decreases commands.len(),
{
    if commands.len() == 0 {
        scene
    } else {
        applied(ran(scene, commands.drop_last()), commands.last())
    }
}

/// The test that a command creates an entity.
pub open spec fn creates() -> spec_fn(Command) -> bool {
    |command: Command| command is Spawn
}

/// How many entities a list of commands creates.
pub open spec fn spawn_count(commands: Seq<Command>) -> nat {
    commands.filter(creates()).len()
}

/// Removing entities from a valid scene leaves a valid scene.
pub proof fn filter_keeps_valid(scene: SceneView, keep: spec_fn(Entity) -> bool)
    requires
        valid(scene),
    ensures
        valid(SceneView { entities: scene.entities.filter(keep), next_id: scene.next_id }),
    decreases scene.entities.len(),
{
    let all = scene.entities;
    if all.len() > 0 {
        let rest = all.drop_last();
        let last = all.last();
        let shorter = SceneView { entities: rest, next_id: scene.next_id };
        assert forall|i: int, j: int| 0 <= i < j < rest.len() implies (#[trigger] rest[i]).id != (
        #[trigger] rest[j]).id by {
            assert(all[i].id != all[j].id);
        }
        assert forall|i: int| 0 <= i < rest.len() implies (#[trigger] rest[i]).id
            < scene.next_id by {
            assert(all[i].id < scene.next_id);
        }
        filter_keeps_valid(shorter, keep);
        assert(all =~= rest.push(last));
        rest.lemma_filter_push(last, keep);
        filter_members(rest, keep);
        let kept = rest.filter(keep);
        if keep(last) {
            let out = kept.push(last);
            assert forall|i: int, j: int| 0 <= i < j < out.len() implies (#[trigger] out[i]).id != (
            #[trigger] out[j]).id by {
                if j == kept.len() {
                    assert(kept.contains(kept[i]));
                    assert(rest.contains(kept[i]));
                    let k = choose|k: int| 0 <= k < rest.len() && rest[k] == kept[i];
                    assert(all[k].id != all[all.len() - 1].id);
                } else {
                    assert(kept[i].id != kept[j].id);
                }
            }
            assert(all[all.len() - 1].id < scene.next_id);
        }
    } else {
        assert(all.filter(keep) =~= Seq::<Entity>::empty()) by {
            reveal(Seq::filter);
        }
    }
}

/// A scene graph in memory.
pub struct Scene {
    entities: Vec<Entity>,
    next_id: u64,
}

impl View for Scene {
    type V = SceneView;

    closed spec fn view(&self) -> SceneView {
        SceneView { entities: self.entities@, next_id: self.next_id as nat }
    }
}

impl Scene {
    /// The scene's handles are distinct and below the next handle.
    pub open spec fn wf(&self) -> bool {
        valid(self@)
    }

    /// The scene without entities. Its first handle is 0.
    pub fn new() -> (scene: Scene)
        ensures
            scene.wf(),
            scene@ == (SceneView { entities: Seq::empty(), next_id: 0 }),
    {
        Scene { entities: Vec::new(), next_id: 0 }
    }

    /// The entities, in the order of their creation.
    pub fn entities(&self) -> (entities: &Vec<Entity>)
        ensures
            entities@ == self@.entities,
    {
        &self.entities
    }

    /// The handle that the next entity will get.
    pub fn next_id(&self) -> (id: u64)
        ensures
            id == self@.next_id,
    {
        self.next_id
    }

    /// Creates an entity after `blueprint` and returns its handle.
    pub fn spawn(&mut self, blueprint: Blueprint) -> (id: u64)
        requires
            old(self).wf(),
            old(self)@.next_id < u64::MAX,
        ensures
            final(self).wf(),
            final(self)@ == spawned(old(self)@, blueprint),
            id == old(self)@.next_id,
    {
        let id: u64 = self.next_id;
        self.entities.push(Entity { id, tags: blueprint.tags, visual: blueprint.visual });
        self.next_id = id + 1;
        id
    }

    /// Removes the entity with the handle `id`, if there is one.
    pub fn despawn(&mut self, id: u64)
        requires
            old(self).wf(),
        ensures
            final(self).wf(),
            final(self)@ == despawned(old(self)@, id),
    {
        let mut kept: Vec<Entity> = Vec::new();
        let mut i: usize = 0;
        assert(self.entities@.take(0).filter(not_named(id)) =~= Seq::<Entity>::empty()) by {
            reveal(Seq::filter);
        }
        while i < self.entities.len()
            invariant
                i <= self.entities.len(),
                *self == *old(self),
                kept@ == self.entities@.take(i as int).filter(not_named(id)),
            decreases self.entities.len() - i,
        {
            proof {
                filter_take_next(self.entities@, i as int, not_named(id));
            }
            if self.entities[i].id != id {
                kept.push(self.entities[i]);
            }
            i += 1;
        }
        proof {
            assert(self.entities@.take(i as int) =~= self.entities@);
            filter_keeps_valid(self@, not_named(id));
        }
        self.entities = kept;
    }

    /// The entities that bear `tag`, in the order of their creation.
    pub fn query(&self, tag: Tag) -> (found: Vec<Entity>)
        ensures
            found@ == tagged(self@.entities, tag),
    {
        let mut found: Vec<Entity> = Vec::new();
        let mut i: usize = 0;
        assert(self.entities@.take(0).filter(bears(tag)) =~= Seq::<Entity>::empty()) by {
            reveal(Seq::filter);
        }
        while i < self.entities.len()
            invariant
                i <= self.entities.len(),
                found@ == self.entities@.take(i as int).filter(bears(tag)),
            decreases self.entities.len() - i,
        {
            proof {
                filter_take_next(self.entities@, i as int, bears(tag));
            }
            if self.entities[i].tags.has(tag) {
                found.push(self.entities[i]);
            }
            i += 1;
        }
        assert(self.entities@.take(i as int) =~= self.entities@);
        found
    }

    /// Carries out one command.
    pub fn apply(&mut self, command: Command)
        requires
            old(self).wf(),
            command is Spawn ==> old(self)@.next_id < u64::MAX,
        ensures
            final(self).wf(),
            final(self)@ == applied(old(self)@, command),
    {
        match command {
            Command::Despawn(id) => {
                self.despawn(id);
            },
            Command::Spawn(blueprint) => {
                let _ = self.spawn(blueprint);
            },
        }
    }

    /// Carries out `commands`, from the first to the last.
    pub fn run(&mut self, commands: &Vec<Command>)
        requires
            old(self).wf(),
            old(self)@.next_id + spawn_count(commands@) <= u64::MAX,
        ensures
            final(self).wf(),
            final(self)@ == ran(old(self)@, commands@),
    {
        let mut i: usize = 0;
        assert(commands@.take(0).filter(creates()) =~= Seq::<Command>::empty()) by {
            reveal(Seq::filter);
        }
        while i < commands.len()
            invariant
                i <= commands.len(),
                self.wf(),
                self@ == ran(old(self)@, commands@.take(i as int)),
                self@.next_id == old(self)@.next_id + spawn_count(commands@.take(i as int)),
                old(self)@.next_id + spawn_count(commands@) <= u64::MAX,
            decreases commands.len() - i,
        {
            proof {
                filter_take_next(commands@, i as int, creates());
                commands@.lemma_filter_take_len(creates(), i as int + 1);
                assert(commands@.take(i as int + 1).drop_last() =~= commands@.take(i as int));
            }
            self.apply(commands[i]);
            i += 1;
        }
        assert(commands@.take(i as int) =~= commands@);
    }
}

} // verus!
