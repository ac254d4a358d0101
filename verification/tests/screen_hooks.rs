use bevy::input::keyboard::KeyCode;
use bevy::input::Input;
use help_screen::command::{Command, Entity, GameState};
use help_screen::layout::{
    blueprints, labels, Blueprint, Color, Label, Sprite, Visual, HELP_BACKGROUND, HELP_FONT,
};
use help_screen::screen::{despawn_help, handle_exit_help, setup_help, tick};
use help_screen::tag::{Tag, TagSet};

const MAIN_KEYS: &str = "W: move up, S: move down, A: move left, D: move right\nP: party size, G: game progress, I: inventory\nEsc: pause, Q: quit";
const BATTLE_KEYS: &str =
    "A: attack, E: elemental, D: defend, S: special\n1: heal item, 2: buff item";
const TRADE_KEYS: &str = "3: trade heal item, 4: trade buff item, M: trade monster";

fn tags(list: &[Tag]) -> TagSet {
    let mut set = TagSet::empty();
    for tag in list {
        set = set.with(*tag);
    }
    set
}

fn entity(id: u64, list: &[Tag]) -> Entity {
    Entity { id, tags: tags(list), visual: Visual::Hidden }
}

fn label(content: &'static str, size: u32, bottom: u32, left: u32) -> Label {
    Label { content, font: "buttons/joystix monospace.ttf", size, color: Color::Black, bottom, left }
}

fn expected_labels() -> Vec<Label> {
    vec![
        label("HELP", 40, 700, 600),
        label("MAIN CONTROLS", 35, 600, 500),
        label(MAIN_KEYS, 30, 500, 10),
        label("BATTLE CONTROLS", 35, 400, 500),
        label(BATTLE_KEYS, 30, 325, 10),
        label("TRADE CONTROLS", 35, 200, 500),
        label(TRADE_KEYS, 30, 150, 10),
    ]
}

#[test]
fn asset_paths_are_the_fixed_ones() {
    assert_eq!(HELP_BACKGROUND, "backgrounds/helpscreen.png");
    assert_eq!(HELP_FONT, "buttons/joystix monospace.ttf");
}

#[test]
fn label_table_has_the_seven_rows() {
    assert_eq!(labels(), expected_labels());
}

#[test]
fn label_sizes_are_forty_thirty_five_and_thirty() {
    let sizes: Vec<u32> = labels().iter().map(|l| l.size).collect();
    assert_eq!(sizes, vec![40, 35, 30, 35, 30, 35, 30]);
}

#[test]
fn label_positions_match_the_layout() {
    let places: Vec<(u32, u32)> = labels().iter().map(|l| (l.bottom, l.left)).collect();
    assert_eq!(
        places,
        vec![(700, 600), (600, 500), (500, 10), (400, 500), (325, 10), (200, 500), (150, 10)]
    );
}

#[test]
fn every_label_uses_the_one_font_and_black() {
    for l in labels() {
        assert_eq!(l.font, HELP_FONT);
        assert_eq!(l.color, Color::Black);
    }
}

#[test]
fn blueprints_are_camera_background_then_labels() {
    let list = blueprints();
    assert_eq!(list.len(), 9);
    assert_eq!(
        list[0],
        Blueprint { tags: tags(&[Tag::Camera2d, Tag::HelpCamera]), visual: Visual::Camera }
    );
    assert_eq!(
        list[1],
        Blueprint {
            tags: tags(&[Tag::HelpBackground]),
            visual: Visual::Sprite(Sprite {
                texture: "backgrounds/helpscreen.png",
                x: 0,
                y: 0,
                z: 0
            }),
        }
    );
    let want = expected_labels();
    for i in 0..7 {
        assert_eq!(
            list[2 + i],
            Blueprint { tags: tags(&[Tag::Text]), visual: Visual::Label(want[i]) }
        );
    }
}

#[test]
fn setup_on_an_empty_scene_only_creates() {
    let commands = setup_help(&Vec::new());
    let want: Vec<Command> = blueprints().into_iter().map(Command::Spawn).collect();
    assert_eq!(commands, want);
    assert_eq!(commands.len(), 9);
}

#[test]
fn setup_removes_stray_cameras_first_and_in_order() {
    let scene = vec![
        entity(4, &[Tag::Camera2d]),
        entity(9, &[Tag::Camera2d, Tag::PlayerCamera]),
        entity(2, &[Tag::Camera2d]),
        entity(7, &[]),
    ];
    let commands = setup_help(&scene);
    assert_eq!(commands.len(), 11);
    assert_eq!(commands[0], Command::Despawn(4));
    assert_eq!(commands[1], Command::Despawn(2));
    let want: Vec<Command> = blueprints().into_iter().map(Command::Spawn).collect();
    assert_eq!(commands[2..].to_vec(), want);
}

#[test]
fn setup_spares_player_tile_and_help_cameras() {
    let scene = vec![
        entity(1, &[Tag::Camera2d, Tag::PlayerCamera]),
        entity(2, &[Tag::Camera2d, Tag::WorldTileCamera]),
        entity(3, &[Tag::Camera2d, Tag::HelpCamera]),
        entity(4, &[Tag::Camera2d, Tag::PlayerCamera, Tag::WorldTileCamera]),
    ];
    let commands = setup_help(&scene);
    assert_eq!(commands.len(), 9);
    for command in commands {
        assert!(matches!(command, Command::Spawn(_)));
    }
}

#[test]
fn setup_leaves_what_is_no_camera() {
    let scene = vec![
        entity(1, &[Tag::Text]),
        entity(2, &[Tag::HelpBackground]),
        entity(3, &[]),
        entity(4, &[Tag::PlayerCamera]),
    ];
    let commands = setup_help(&scene);
    assert_eq!(commands.len(), 9);
    assert!(!commands.iter().any(|c| matches!(c, Command::Despawn(_))));
}

#[test]
fn setup_removes_a_stray_camera_whatever_else_it_bears() {
    let scene = vec![entity(5, &[Tag::Camera2d, Tag::Text, Tag::HelpBackground])];
    let commands = setup_help(&scene);
    assert_eq!(commands[0], Command::Despawn(5));
    assert_eq!(commands.len(), 10);
}

#[test]
fn despawn_on_an_empty_scene_asks_nothing() {
    assert_eq!(despawn_help(&Vec::new()), Vec::new());
}

#[test]
fn despawn_names_each_owned_entity_once() {
    let scene = vec![
        entity(10, &[Tag::Camera2d, Tag::HelpCamera]),
        entity(11, &[Tag::Camera2d, Tag::PlayerCamera]),
        entity(12, &[Tag::Text]),
        entity(13, &[]),
        entity(14, &[Tag::HelpBackground]),
        entity(15, &[Tag::Text, Tag::HelpBackground]),
        entity(16, &[Tag::Camera2d]),
    ];
    assert_eq!(
        despawn_help(&scene),
        vec![
            Command::Despawn(10),
            Command::Despawn(12),
            Command::Despawn(14),
            Command::Despawn(15)
        ]
    );
}

#[test]
fn tick_with_the_key_up_asks_nothing() {
    assert_eq!(tick(false), None);
}

#[test]
fn tick_with_the_key_down_asks_for_the_start_menu() {
    assert_eq!(tick(true), Some(GameState::Start));
}

#[test]
fn tick_asks_again_in_every_frame_the_key_is_held() {
    let mut requests = Vec::new();
    for _ in 0..5 {
        if let Some(state) = tick(true) {
            requests.push(state);
        }
    }
    assert_eq!(requests, vec![GameState::Start; 5]);
}

#[test]
fn escape_held_gives_one_request_for_start() {
    let mut keys: Input<KeyCode> = Input::default();
    keys.press(KeyCode::Escape);
    let mut recorded = Vec::new();
    if let Some(state) = handle_exit_help(&keys) {
        recorded.push(state);
    }
    assert_eq!(recorded, vec![GameState::Start]);
}

#[test]
fn no_key_gives_no_request() {
    let keys: Input<KeyCode> = Input::default();
    assert_eq!(handle_exit_help(&keys), None);
}

#[test]
fn another_key_gives_no_request() {
    let mut keys: Input<KeyCode> = Input::default();
    keys.press(KeyCode::Return);
    keys.press(KeyCode::Q);
    assert_eq!(handle_exit_help(&keys), None);
}

#[test]
fn escape_released_gives_no_request() {
    let mut keys: Input<KeyCode> = Input::default();
    keys.press(KeyCode::Escape);
    assert_eq!(handle_exit_help(&keys), Some(GameState::Start));
    keys.release(KeyCode::Escape);
    assert_eq!(handle_exit_help(&keys), None);
}

#[test]
fn escape_held_over_frames_asks_each_frame() {
    let mut keys: Input<KeyCode> = Input::default();
    keys.press(KeyCode::Escape);
    for _ in 0..3 {
        keys.clear();
        assert_eq!(handle_exit_help(&keys), Some(GameState::Start));
    }
}

#[test]
fn tag_set_holds_what_was_put_in() {
    let set = TagSet::empty().with(Tag::Text).with(Tag::Camera2d);
    assert!(set.has(Tag::Text));
    assert!(set.has(Tag::Camera2d));
    assert!(!set.has(Tag::HelpCamera));
    assert!(!set.has(Tag::PlayerCamera));
    assert!(!set.has(Tag::WorldTileCamera));
    assert!(!set.has(Tag::HelpBackground));
    assert_eq!(set.with(Tag::Text), set);
}

#[test]
fn empty_tag_set_holds_nothing() {
    let set = TagSet::empty();
    for tag in [
        Tag::Camera2d,
        Tag::HelpCamera,
        Tag::PlayerCamera,
        Tag::WorldTileCamera,
        Tag::HelpBackground,
        Tag::Text,
    ] {
        assert!(!set.has(tag));
    }
    assert!(!set.is_stray_camera());
    assert!(!set.is_help_owned());
}

#[test]
fn stray_camera_is_a_2d_camera_of_no_known_kind() {
    assert!(tags(&[Tag::Camera2d]).is_stray_camera());
    assert!(tags(&[Tag::Camera2d, Tag::Text]).is_stray_camera());
    assert!(!tags(&[Tag::Camera2d, Tag::HelpCamera]).is_stray_camera());
    assert!(!tags(&[Tag::Camera2d, Tag::PlayerCamera]).is_stray_camera());
    assert!(!tags(&[Tag::Camera2d, Tag::WorldTileCamera]).is_stray_camera());
    assert!(!tags(&[Tag::PlayerCamera]).is_stray_camera());
    assert!(!tags(&[Tag::Text]).is_stray_camera());
}

#[test]
fn help_owned_is_any_of_the_three_tags() {
    assert!(tags(&[Tag::HelpCamera]).is_help_owned());
    assert!(tags(&[Tag::HelpBackground]).is_help_owned());
    assert!(tags(&[Tag::Text]).is_help_owned());
    assert!(tags(&[Tag::Text, Tag::Camera2d]).is_help_owned());
    assert!(!tags(&[Tag::Camera2d]).is_help_owned());
    assert!(!tags(&[Tag::PlayerCamera, Tag::WorldTileCamera]).is_help_owned());
}
