//! Tags: the markers by which the scene graph is queried.

use vstd::prelude::*;

verus! {

/// A marker that an entity of the scene graph may bear.
#[derive(Clone, Copy, Debug, PartialEq, Eq, Structural)]
pub enum Tag {
    /// The entity renders a 2D view.
    Camera2d,
    /// The camera of the help screen.
    HelpCamera,
    /// The camera that follows the player.
    PlayerCamera,
    /// The camera of the world's tile map.
    WorldTileCamera,
    /// The background sprite of the help screen.
    HelpBackground,
    /// A text label. Other screens tag their labels with it too.
    Text,
}

/// The tags of one entity.
#[derive(Clone, Copy, Debug, PartialEq, Eq, Structural)]
pub struct TagSet {
    pub camera_2d: bool,
    pub help_camera: bool,
    pub player_camera: bool,
    pub world_tile_camera: bool,
    pub help_background: bool,
    pub text: bool,
}

/// A 2D camera that belongs to no screen that may stay alive beside the help
/// screen: it bears neither the help camera's tag, nor the player camera's,
/// nor the tile camera's.
pub open spec fn is_stray_camera(tags: Set<Tag>) -> bool {
    &&& tags.contains(Tag::Camera2d)
    &&& !tags.contains(Tag::HelpCamera)
    &&& !tags.contains(Tag::PlayerCamera)
    &&& !tags.contains(Tag::WorldTileCamera)
}

/// The entity bears one of the three tags that the help screen tears down.
pub open spec fn is_help_owned(tags: Set<Tag>) -> bool {
    ||| tags.contains(Tag::HelpCamera)
    ||| tags.contains(Tag::HelpBackground)
    ||| tags.contains(Tag::Text)
}

impl View for TagSet {
    type V = Set<Tag>;

    open spec fn view(&self) -> Set<Tag> {
        Set::new(|tag: Tag| self.holds(tag))
    }
}

impl TagSet {
    /// Whether the field that stands for `tag` is set.
    pub open spec fn holds(self, tag: Tag) -> bool {
        match tag {
            Tag::Camera2d => self.camera_2d,
            Tag::HelpCamera => self.help_camera,
            Tag::PlayerCamera => self.player_camera,
            Tag::WorldTileCamera => self.world_tile_camera,
            Tag::HelpBackground => self.help_background,
            Tag::Text => self.text,
        }
    }

    /// The set without any tag.
    pub fn empty() -> (tags: TagSet)
        ensures
            tags@ == Set::<Tag>::empty(),
    {
        let tags = TagSet {
            camera_2d: false,
            help_camera: false,
            player_camera: false,
            world_tile_camera: false,
            help_background: false,
            text: false,
        };
        assert(tags@ =~= Set::<Tag>::empty());
        tags
    }

    /// This set and `tag`.
    pub fn with(self, tag: Tag) -> (tags: TagSet)
        ensures
            tags@ == self@.insert(tag),
    {
        let mut tags = self;
        match tag {
            Tag::Camera2d => {
                tags.camera_2d = true;
            },
            Tag::HelpCamera => {
                tags.help_camera = true;
            },
            Tag::PlayerCamera => {
                tags.player_camera = true;
            },
            Tag::WorldTileCamera => {
                tags.world_tile_camera = true;
            },
            Tag::HelpBackground => {
                tags.help_background = true;
            },
            Tag::Text => {
                tags.text = true;
            },
        }
        assert(tags@ =~= self@.insert(tag));
        tags
    }

    /// Whether `tag` is in the set.
    pub fn has(&self, tag: Tag) -> (found: bool)
        ensures
            found == self@.contains(tag),
    {
        match tag {
            Tag::Camera2d => self.camera_2d,
            Tag::HelpCamera => self.help_camera,
            Tag::PlayerCamera => self.player_camera,
            Tag::WorldTileCamera => self.world_tile_camera,
            Tag::HelpBackground => self.help_background,
            Tag::Text => self.text,
        }
    }

    /// Whether entering the help screen removes an entity with these tags.
    pub fn is_stray_camera(&self) -> (stray: bool)
        ensures
            stray == is_stray_camera(self@),
    {
        self.camera_2d && !self.help_camera && !self.player_camera && !self.world_tile_camera
    }

    /// Whether leaving the help screen removes an entity with these tags.
    pub fn is_help_owned(&self) -> (owned: bool)
        ensures
            owned == is_help_owned(self@),
    {
        self.help_camera || self.help_background || self.text
    }
}

} // verus!
