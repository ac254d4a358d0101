//! What holds of entering and leaving the help screen, for every scene.

use vstd::prelude::*;
use crate::command::{despawn_each, Command, Entity};
use crate::effect::{entered, exited, fresh, not_owned, not_stray};
use crate::layout::{label_blueprint, label_table, spawn_list, Label, Visual};
use crate::scene::{bears, built, distinct_ids, tagged, SceneView};
use crate::screen::{enter_commands, stray};
use crate::seq_facts::{all_pass, filter_agree, filter_members, filter_twice, none_pass};
use crate::tag::{is_help_owned, Tag};

verus! {

/// The seven label entities that entering creates in a scene whose next
/// handle is `base`. They come after the camera and the background.
pub open spec fn label_entities(base: nat) -> Seq<Entity> {
    Seq::new(7, |i: int| built(label_blueprint(label_table()[i]), (base + 2 + i) as u64))
}

/// The looks of each of `entities`, in their order.
pub open spec fn visuals(entities: Seq<Entity>) -> Seq<Visual> {
    entities.map_values(|entity: Entity| entity.visual)
}

/// The entities of the screen, as entering creates them under the handles
/// from `base` on, that bear `tag`: the camera for the help camera's tag, the
/// background for the help background's, the seven labels for the label tag.
pub proof fn fresh_by_tag(base: nat)
    ensures
        tagged(fresh(spawn_list(), base), Tag::HelpCamera) == seq![
            built(spawn_list()[0], base as u64),
        ],
        tagged(fresh(spawn_list(), base), Tag::HelpBackground) == seq![
            built(spawn_list()[1], (base + 1) as u64),
        ],
        tagged(fresh(spawn_list(), base), Tag::Text) == label_entities(base),
        fresh(spawn_list(), base).filter(not_owned()) == Seq::<Entity>::empty(),
{
    let camera = seq![built(spawn_list()[0], base as u64)];
    let background = seq![built(spawn_list()[1], (base + 1) as u64)];
    let labels = label_entities(base);
    let all = fresh(spawn_list(), base);
    assert(all =~= camera + background + labels);
    assert forall|test: spec_fn(Entity) -> bool|
        all.filter(test) == camera.filter(test) + background.filter(test) + labels.filter(
            test,
        ) by {
        Seq::filter_distributes_over_add(camera, background, test);
        Seq::filter_distributes_over_add(camera + background, labels, test);
    }
    all_pass(camera, bears(Tag::HelpCamera));
    none_pass(background, bears(Tag::HelpCamera));
    none_pass(labels, bears(Tag::HelpCamera));
    assert(tagged(all, Tag::HelpCamera) =~= camera);
    none_pass(camera, bears(Tag::HelpBackground));
    all_pass(background, bears(Tag::HelpBackground));
    none_pass(labels, bears(Tag::HelpBackground));
    assert(tagged(all, Tag::HelpBackground) =~= background);
    none_pass(camera, bears(Tag::Text));
    none_pass(background, bears(Tag::Text));
    all_pass(labels, bears(Tag::Text));
    assert(tagged(all, Tag::Text) =~= labels);
    none_pass(all, not_owned());
}

/// Nothing that passes a filter bears a tag that nothing bore before.
pub proof fn tagged_of_filtered(entities: Seq<Entity>, keep: spec_fn(Entity) -> bool, tag: Tag)
    requires
        tagged(entities, tag).len() == 0,
    ensures
        tagged(entities.filter(keep), tag) == Seq::<Entity>::empty(),
{
    let kept = entities.filter(keep);
    filter_members(entities, keep);
    filter_members(entities, bears(tag));
    assert forall|i: int| 0 <= i < kept.len() implies !bears(tag)(#[trigger] kept[i]) by {
        if bears(tag)(kept[i]) {
            assert(kept.contains(kept[i]));
            assert(tagged(entities, tag).contains(kept[i]));
        }
    }
    none_pass(kept, bears(tag));
}

/// Entering adds, to what it keeps of the scene, exactly one entity with the
/// help camera's tag, one with the help background's and seven with the
/// label tag. No stray camera bears the help camera's tag, so of that tag
/// there is one more than before.
pub proof fn entering_adds_the_screen(scene: SceneView)
    ensures
        tagged(entered(scene).entities, Tag::HelpCamera).len() == tagged(
            scene.entities,
            Tag::HelpCamera,
        ).len() + 1,
        tagged(entered(scene).entities, Tag::HelpBackground).len() == tagged(
            scene.entities.filter(not_stray()),
            Tag::HelpBackground,
        ).len() + 1,
        tagged(entered(scene).entities, Tag::Text).len() == tagged(
            scene.entities.filter(not_stray()),
            Tag::Text,
        ).len() + 7,
{
    let kept = scene.entities.filter(not_stray());
    let made = fresh(spawn_list(), scene.next_id);
    fresh_by_tag(scene.next_id);
    Seq::filter_distributes_over_add(kept, made, bears(Tag::HelpCamera));
    Seq::filter_distributes_over_add(kept, made, bears(Tag::HelpBackground));
    Seq::filter_distributes_over_add(kept, made, bears(Tag::Text));
    filter_twice(scene.entities, not_stray(), bears(Tag::HelpCamera));
    filter_agree(
        scene.entities,
        |entity: Entity| not_stray()(entity) && bears(Tag::HelpCamera)(entity),
        bears(Tag::HelpCamera),
    );
}

/// Entering a scene that holds nothing with the help camera's tag, the help
/// background's or the label tag leaves exactly one entity with the first,
/// one with the second and seven with the third; the seven show the labels
/// of the table, in its order.
pub proof fn entering_creates_the_screen(scene: SceneView)
    requires
        tagged(scene.entities, Tag::HelpCamera).len() == 0,
        tagged(scene.entities, Tag::HelpBackground).len() == 0,
        tagged(scene.entities, Tag::Text).len() == 0,
    ensures
        tagged(entered(scene).entities, Tag::HelpCamera).len() == 1,
        tagged(entered(scene).entities, Tag::HelpBackground).len() == 1,
        tagged(entered(scene).entities, Tag::Text).len() == 7,
        visuals(tagged(entered(scene).entities, Tag::Text)) == label_table().map_values(
            |label: Label| Visual::Label(label),
        ),
{
    let kept = scene.entities.filter(not_stray());
    let made = fresh(spawn_list(), scene.next_id);
    fresh_by_tag(scene.next_id);
    tagged_of_filtered(scene.entities, not_stray(), Tag::HelpCamera);
    tagged_of_filtered(scene.entities, not_stray(), Tag::HelpBackground);
    tagged_of_filtered(scene.entities, not_stray(), Tag::Text);
    Seq::filter_distributes_over_add(kept, made, bears(Tag::HelpCamera));
    Seq::filter_distributes_over_add(kept, made, bears(Tag::HelpBackground));
    Seq::filter_distributes_over_add(kept, made, bears(Tag::Text));
    assert(tagged(entered(scene).entities, Tag::Text) =~= label_entities(scene.next_id));
    assert(visuals(label_entities(scene.next_id)) =~= label_table().map_values(
        |label: Label| Visual::Label(label),
    ));
}

/// Entering keeps every entity that is no stray camera. The player's camera
/// and the tile map's are none, so they stay.
pub proof fn entering_spares_other_cameras(scene: SceneView, entity: Entity)
    requires
        scene.entities.contains(entity),
    ensures
        !stray()(entity) ==> entered(scene).entities.contains(entity),
        entity.tags@.contains(Tag::PlayerCamera) ==> entered(scene).entities.contains(entity),
        entity.tags@.contains(Tag::WorldTileCamera) ==> entered(scene).entities.contains(entity),
{
    filter_members(scene.entities, not_stray());
    let kept = scene.entities.filter(not_stray());
    if !stray()(entity) {
        assert(kept.contains(entity));
        let i = choose|i: int| 0 <= i < kept.len() && kept[i] == entity;
        assert(entered(scene).entities[i] == entity);
    }
}

/// Where no two entities share a handle, the commands of entering name the
/// handle of no entity but a stray camera: none removes the player's camera
/// or the tile map's.
pub proof fn entering_names_stray_cameras_only(entities: Seq<Entity>, entity: Entity)
    requires
        distinct_ids(entities),
        entities.contains(entity),
        !stray()(entity),
    ensures
        !enter_commands(entities).contains(Command::Despawn(entity.id)),
{
    let strays = entities.filter(stray());
    let commands = enter_commands(entities);
    filter_members(entities, stray());
    if commands.contains(Command::Despawn(entity.id)) {
        let k = choose|k: int| 0 <= k < commands.len() && commands[k] == Command::Despawn(entity.id);
        if k < despawn_each(strays).len() {
            assert(strays.contains(strays[k]));
            let a = choose|a: int| 0 <= a < entities.len() && entities[a] == strays[k];
            let b = choose|b: int| 0 <= b < entities.len() && entities[b] == entity;
            if a < b {
                assert(entities[a].id != entities[b].id);
            } else if b < a {
                assert(entities[b].id != entities[a].id);
            }
        }
    }
}

/// Leaving removes every entity with the help camera's tag, the help
/// background's or the label tag, and leaves every other entity in the
/// scene.
pub proof fn leaving_removes_the_screen_only(scene: SceneView)
    ensures
        tagged(exited(scene).entities, Tag::HelpCamera).len() == 0,
        tagged(exited(scene).entities, Tag::HelpBackground).len() == 0,
        tagged(exited(scene).entities, Tag::Text).len() == 0,
        forall|entity: Entity| #[trigger]
            exited(scene).entities.contains(entity) <==> (scene.entities.contains(entity)
                && !is_help_owned(entity.tags@)),
{
    let left = scene.entities.filter(not_owned());
    filter_members(scene.entities, not_owned());
    assert forall|i: int| 0 <= i < left.len() implies !is_help_owned(
        (#[trigger] left[i]).tags@,
    ) by {
        assert(left.contains(left[i]));
    }
    none_pass(left, bears(Tag::HelpCamera));
    none_pass(left, bears(Tag::HelpBackground));
    none_pass(left, bears(Tag::Text));
}

/// Entering and then leaving leaves nothing with one of the screen's three
/// tags. What is left of the scene is what was neither a stray camera nor an
/// entity with one of the three tags.
pub proof fn entering_then_leaving_clears(scene: SceneView)
    ensures
        tagged(exited(entered(scene)).entities, Tag::HelpCamera).len() == 0,
        tagged(exited(entered(scene)).entities, Tag::HelpBackground).len() == 0,
        tagged(exited(entered(scene)).entities, Tag::Text).len() == 0,
        exited(entered(scene)).entities == scene.entities.filter(not_stray()).filter(not_owned()),
{
    leaving_removes_the_screen_only(entered(scene));
    fresh_by_tag(scene.next_id);
    Seq::filter_distributes_over_add(
        scene.entities.filter(not_stray()),
        fresh(spawn_list(), scene.next_id),
        not_owned(),
    );
}

/// Leaving a second time changes nothing.
pub proof fn leaving_twice_is_leaving_once(scene: SceneView)
    ensures
        exited(exited(scene)) == exited(scene),
{
    let left = scene.entities.filter(not_owned());
    filter_members(scene.entities, not_owned());
    assert forall|i: int| 0 <= i < left.len() implies not_owned()(#[trigger] left[i]) by {
        assert(left.contains(left[i]));
    }
    all_pass(left, not_owned());
}

} // verus!
