//! The sprite sheets that tiles are cut from: which regions of each sheet
//! hold a picture, and the registry of the sheets that have been loaded.

use std::collections::HashMap;
use vstd::prelude::*;

verus! {

broadcast use vstd::std_specs::hash::group_hash_axioms;

/// The sprite sheets that tiles are cut from.
#[derive(Clone, Copy, Debug, PartialEq, Eq, Hash, Structural)]
pub enum SpriteSheetKind {
    TerrainAndFences,
    CityTerrain,
}

/// A rectangle of pixels inside a sheet, from its `min` corner up to but not
/// including its `max` corner.
#[derive(Clone, Copy, Debug, PartialEq, Eq, Structural)]
pub struct Region {
    pub min_x: u32,
    pub min_y: u32,
    pub max_x: u32,
    pub max_y: u32,
}

/// The declared layout of a sheet: its size in pixels and the regions that
/// hold a picture. A tile's `index` counts into `regions`.
#[derive(Debug)]
pub struct SheetLayout {
    pub width: u32,
    pub height: u32,
    pub regions: Vec<Region>,
}

impl Region {
    /// Whether the region is not empty and lies inside a sheet of the given
    /// size.
    pub open spec fn fits(self, width: u32, height: u32) -> bool {
        &&& self.min_x < self.max_x <= width
        &&& self.min_y < self.max_y <= height
    }
}

impl SpriteSheetKind {
    /// Width of the sheet's image, in pixels.
    pub open spec fn width(self) -> u32 {
        match self {
            SpriteSheetKind::TerrainAndFences => 512,
            SpriteSheetKind::CityTerrain => 944,
        }
    }

    /// Height of the sheet's image, in pixels.
    pub open spec fn height(self) -> u32 {
        match self {
            SpriteSheetKind::TerrainAndFences => 1184,
            SpriteSheetKind::CityTerrain => 1648,
        }
    }

    /// The regions of the sheet that hold a picture, in the order of their
    /// indices.
    pub open spec fn regions(self) -> Seq<Region> {
        match self {
            SpriteSheetKind::TerrainAndFences => seq![
                Region { min_x: 48, min_y: 128, max_x: 64, max_y: 144 },
                Region { min_x: 64, min_y: 128, max_x: 80, max_y: 144 },
            ],
            SpriteSheetKind::CityTerrain => seq![
                Region { min_x: 674, min_y: 464, max_x: 688, max_y: 480 },
            ],
        }
    }

    /// The declared layout of the sheet. Every region lies inside the image.
    pub fn layout(self) -> (layout: SheetLayout)
        ensures
            layout.width == self.width(),
            layout.height == self.height(),
            layout.regions@ == self.regions(),
            forall|i: int|
                0 <= i < layout.regions@.len() ==> (#[trigger] layout.regions@[i]).fits(
                    layout.width,
                    layout.height,
                ),
    {
        let mut regions: Vec<Region> = Vec::new();
        match self {
            SpriteSheetKind::TerrainAndFences => {
                regions.push(Region { min_x: 48, min_y: 128, max_x: 64, max_y: 144 });
                regions.push(Region { min_x: 64, min_y: 128, max_x: 80, max_y: 144 });
                assert(regions@ =~= self.regions());
                SheetLayout { width: 512, height: 1184, regions }
            },
            SpriteSheetKind::CityTerrain => {
                regions.push(Region { min_x: 674, min_y: 464, max_x: 688, max_y: 480 });
                assert(regions@ =~= self.regions());
                SheetLayout { width: 944, height: 1648, regions }
            },
        }
    }
}

/// The sheets that have been loaded, each with the handle it was loaded
/// under. `H` is whatever the program uses to refer to a loaded sheet.
pub struct SpriteSheetRegistry<H> {
    spritesheets: HashMap<u64, H>,
}

/// The number under which a sheet is registered.
spec fn number_of(kind: SpriteSheetKind) -> u64 {
    match kind {
        SpriteSheetKind::TerrainAndFences => 0,
        SpriteSheetKind::CityTerrain => 1,
    }
}

fn sheet_number(kind: SpriteSheetKind) -> (number: u64)
    ensures
        number == number_of(kind),
{
    match kind {
        SpriteSheetKind::TerrainAndFences => 0,
        SpriteSheetKind::CityTerrain => 1,
    }
}

impl<H> View for SpriteSheetRegistry<H> {
    type V = Map<SpriteSheetKind, H>;

    /// The handles by sheet.
    closed spec fn view(&self) -> Map<SpriteSheetKind, H> {
        Map::new(
            |kind: SpriteSheetKind| self.spritesheets@.contains_key(number_of(kind)),
            |kind: SpriteSheetKind| self.spritesheets@[number_of(kind)],
        )
    }
}

impl<H> SpriteSheetRegistry<H> {
    /// A registry with no sheet loaded.
    pub fn new() -> (registry: Self)
        ensures
            registry@ == Map::<SpriteSheetKind, H>::empty(),
    {
        let registry = SpriteSheetRegistry { spritesheets: HashMap::new() };
        assert(registry@ =~= Map::<SpriteSheetKind, H>::empty());
        registry
    }

    /// Registers `handle` for `kind` and returns the handle it replaces, if
    /// any.
    pub fn insert(&mut self, kind: SpriteSheetKind, handle: H) -> (previous: Option<H>)
        ensures
            final(self)@ == old(self)@.insert(kind, handle),
            previous == if old(self)@.contains_key(kind) {
                Some(old(self)@[kind])
            } else {
                None
            },
    {
        let previous = self.spritesheets.insert(sheet_number(kind), handle);
        assert(self@ =~= old(self)@.insert(kind, handle));
        previous
    }

    /// The handle registered for `kind`, if there is one.
    pub fn get(&self, kind: SpriteSheetKind) -> (found: Option<&H>)
        ensures
            found == if self@.contains_key(kind) {
                Some(&self@[kind])
            } else {
                None
            },
    {
        let number = sheet_number(kind);
        self.spritesheets.get(&number)
    }

    /// Whether a handle is registered for `kind`.
    pub fn contains(&self, kind: SpriteSheetKind) -> (found: bool)
        ensures
            found == self@.contains_key(kind),
    {
        let number = sheet_number(kind);
        self.spritesheets.contains_key(&number)
    }
}

} // verus!
