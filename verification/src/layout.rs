//! What the help screen shows: one camera, one background and seven labels.

use vstd::prelude::*;
use crate::tag::TagSet;

verus! {

/// The asset path of the background's texture.
pub const HELP_BACKGROUND: &'static str = "backgrounds/helpscreen.png";

/// The asset path of the font that every label is set in.
pub const HELP_FONT: &'static str = "buttons/joystix monospace.ttf";

/// The colours that the screen draws text in.
#[derive(Clone, Copy, Debug, PartialEq, Eq, Structural)]
pub enum Color {
    Black,
}

/// A static block of text at an absolute place on the screen.
#[derive(Clone, Copy, Debug, PartialEq, Eq)]
pub struct Label {
    pub content: &'static str,
    /// The asset path of the font.
    pub font: &'static str,
    /// The font size, in points.
    pub size: u32,
    pub color: Color,
    /// The distance from the bottom edge, in layout units.
    pub bottom: u32,
    /// The distance from the left edge, in layout units.
    pub left: u32,
}

/// A textured rectangle at a place in the world.
#[derive(Clone, Copy, Debug, PartialEq, Eq)]
pub struct Sprite {
    /// The asset path of the texture.
    pub texture: &'static str,
    pub x: i32,
    pub y: i32,
    pub z: i32,
}

/// What an entity looks like.
#[derive(Clone, Copy, Debug, PartialEq, Eq)]
pub enum Visual {
    /// Nothing that this screen knows of.
    Hidden,
    /// A 2D camera with the host's default settings.
    Camera,
    Sprite(Sprite),
    Label(Label),
}

/// An entity that is yet to be created: its tags and its looks.
#[derive(Clone, Copy, Debug, PartialEq, Eq)]
pub struct Blueprint {
    pub tags: TagSet,
    pub visual: Visual,
}

/// The label with the screen's font and colour.
pub open spec fn help_label(content: &'static str, size: u32, bottom: u32, left: u32) -> Label {
    Label { content, font: HELP_FONT, size, color: Color::Black, bottom, left }
}

/// The seven labels of the screen, from the top of the screen down.
pub open spec fn label_table() -> Seq<Label> {
    seq![
        help_label("HELP", 40, 700, 600),
        help_label("MAIN CONTROLS", 35, 600, 500),
        help_label(
            "W: move up, S: move down, A: move left, D: move right\nP: party size, G: game progress, I: inventory\nEsc: pause, Q: quit",
            30,
            500,
            10,
        ),
        help_label("BATTLE CONTROLS", 35, 400, 500),
        help_label(
            "A: attack, E: elemental, D: defend, S: special\n1: heal item, 2: buff item",
            30,
            325,
            10,
        ),
        help_label("TRADE CONTROLS", 35, 200, 500),
        help_label("3: trade heal item, 4: trade buff item, M: trade monster", 30, 150, 10),
    ]
}

/// The tags of the screen's camera.
pub open spec fn camera_tags() -> TagSet {
    TagSet {
        camera_2d: true,
        help_camera: true,
        player_camera: false,
        world_tile_camera: false,
        help_background: false,
        text: false,
    }
}

/// The tags of the screen's background.
pub open spec fn background_tags() -> TagSet {
    TagSet {
        camera_2d: false,
        help_camera: false,
        player_camera: false,
        world_tile_camera: false,
        help_background: true,
        text: false,
    }
}

/// The tags of each of the screen's labels.
pub open spec fn label_tags() -> TagSet {
    TagSet {
        camera_2d: false,
        help_camera: false,
        player_camera: false,
        world_tile_camera: false,
        help_background: false,
        text: true,
    }
}

/// The screen's camera.
pub open spec fn camera_blueprint() -> Blueprint {
    Blueprint { tags: camera_tags(), visual: Visual::Camera }
}

/// The screen's background: the help texture at the origin.
pub open spec fn background_blueprint() -> Blueprint {
    Blueprint {
        tags: background_tags(),
        visual: Visual::Sprite(Sprite { texture: HELP_BACKGROUND, x: 0, y: 0, z: 0 }),
    }
}

/// The blueprint of a label.
pub open spec fn label_blueprint(label: Label) -> Blueprint {
    Blueprint { tags: label_tags(), visual: Visual::Label(label) }
}

/// Everything that entering the screen creates, in the order of creation:
/// the camera, the background, then the labels of `label_table`.
pub open spec fn spawn_list() -> Seq<Blueprint> {
    seq![camera_blueprint(), background_blueprint()] + label_table().map_values(
        |label: Label| label_blueprint(label),
    )
}

/// A label in the screen's font and colour.
fn make_label(content: &'static str, size: u32, bottom: u32, left: u32) -> (label: Label)
    ensures
        label == help_label(content, size, bottom, left),
{
    Label { content, font: HELP_FONT, size, color: Color::Black, bottom, left }
}

/// The seven labels of the screen.
pub fn labels() -> (table: Vec<Label>)
    ensures
        table@ == label_table(),
{
    let mut table: Vec<Label> = Vec::new();
    table.push(make_label("HELP", 40, 700, 600));
    table.push(make_label("MAIN CONTROLS", 35, 600, 500));
    table.push(
        make_label(
            "W: move up, S: move down, A: move left, D: move right\nP: party size, G: game progress, I: inventory\nEsc: pause, Q: quit",
            30,
            500,
            10,
        ),
    );
    table.push(make_label("BATTLE CONTROLS", 35, 400, 500));
    table.push(
        make_label(
            "A: attack, E: elemental, D: defend, S: special\n1: heal item, 2: buff item",
            30,
            325,
            10,
        ),
    );
    table.push(make_label("TRADE CONTROLS", 35, 200, 500));
    table.push(make_label("3: trade heal item, 4: trade buff item, M: trade monster", 30, 150, 10));
    assert(table@ =~= label_table());
    table
}

/// Everything that entering the screen creates, in the order of creation.
pub fn blueprints() -> (list: Vec<Blueprint>)
    ensures
        list@ == spawn_list(),
{
    let camera = TagSet {
        camera_2d: true,
        help_camera: true,
        player_camera: false,
        world_tile_camera: false,
        help_background: false,
        text: false,
    };
    let background = TagSet {
        camera_2d: false,
        help_camera: false,
        player_camera: false,
        world_tile_camera: false,
        help_background: true,
        text: false,
    };
    let text = TagSet {
        camera_2d: false,
        help_camera: false,
        player_camera: false,
        world_tile_camera: false,
        help_background: false,
        text: true,
    };
    let mut list: Vec<Blueprint> = Vec::new();
    list.push(Blueprint { tags: camera, visual: Visual::Camera });
    list.push(
        Blueprint {
            tags: background,
            visual: Visual::Sprite(Sprite { texture: HELP_BACKGROUND, x: 0, y: 0, z: 0 }),
        },
    );
    let table = labels();
    let ghost head = seq![camera_blueprint(), background_blueprint()];
    let ghost make = |label: Label| label_blueprint(label);
    assert(list@ =~= head + label_table().take(0).map_values(make));
    let mut i: usize = 0;
    while i < table.len()
        invariant
            i <= table.len(),
            table@ == label_table(),
            text == label_tags(),
            head == seq![camera_blueprint(), background_blueprint()],
            make == |label: Label| label_blueprint(label),
            list@ == head + label_table().take(i as int).map_values(make),
        decreases table.len() - i,
    {
        list.push(Blueprint { tags: text, visual: Visual::Label(table[i]) });
        i += 1;
        assert(list@ =~= head + label_table().take(i as int).map_values(make));
    }
    assert(label_table().take(i as int) =~= label_table());
    list
}

} // verus!
