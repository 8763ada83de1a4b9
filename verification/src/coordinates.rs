//! Map and world coordinate systems and the conversions between them.
//!
//! A map addresses its tiles in map coordinates (tile column and row). The
//! world addresses points in world coordinates; each loaded map is anchored
//! at a reference point, the world position of its bottom-left corner. A
//! tile's world position is its map position scaled by the tile size, offset
//! to the tile's centre, relative to the reference point.

use vstd::prelude::*;

use crate::common::{Direction, get_direction_offset, spec_direction_offset};

verus! {

/// The side length of a square tile, in world units.
pub const TILE_SIZE: i64 = 32;

/// The position of a tile inside one map: column and row.
#[derive(Clone, Copy, Debug, PartialEq, Eq, Structural, Hash)]
pub struct MapCoordinates {
    pub x: u32,
    pub y: u32,
}

impl MapCoordinates {
    pub fn new(x: u32, y: u32) -> (r: MapCoordinates)
        ensures
            r == (MapCoordinates { x, y }),
    {
        MapCoordinates { x, y }
    }

    /// The world offset from a map's reference point to this tile's centre.
    pub fn to_world_offset(&self) -> (r: WorldOffset)
        ensures
            r.x == self.x * 32 + 16,
            r.y == self.y * 32 + 16,
    {
        WorldOffset { x: (self.x as i64) * TILE_SIZE + 16, y: (self.y as i64) * TILE_SIZE + 16 }
    }
}

/// A displacement between two world positions.
#[derive(Clone, Copy, Debug, PartialEq, Eq, Structural, Hash)]
pub struct WorldOffset {
    pub x: i64,
    pub y: i64,
}

impl WorldOffset {
    pub fn new(x: i64, y: i64) -> (r: WorldOffset)
        ensures
            r == (WorldOffset { x, y }),
    {
        WorldOffset { x, y }
    }

    /// The opposite displacement.
    pub fn invert(&self) -> (r: WorldOffset)
        requires
            self.x > i64::MIN,
            self.y > i64::MIN,
        ensures
            r.x == -self.x,
            r.y == -self.y,
    {
        WorldOffset { x: -self.x, y: -self.y }
    }
}

/// An absolute position in the world.
#[derive(Clone, Copy, Debug, PartialEq, Eq, Structural, Hash)]
pub struct WorldCoordinates {
    pub x: i64,
    pub y: i64,
}

impl WorldCoordinates {
    pub fn new(x: i64, y: i64) -> (r: WorldCoordinates)
        ensures
            r == (WorldCoordinates { x, y }),
    {
        WorldCoordinates { x, y }
    }

    /// This position displaced by the given offset.
    pub fn with_offset(&self, offset: &WorldOffset) -> (r: WorldCoordinates)
        requires
            i64::MIN <= self.x + offset.x <= i64::MAX,
            i64::MIN <= self.y + offset.y <= i64::MAX,
        ensures
            r.x == self.x + offset.x,
            r.y == self.y + offset.y,
    {
        WorldCoordinates { x: self.x + offset.x, y: self.y + offset.y }
    }

    /// This position read as a displacement from the origin.
    pub fn to_world_offset(&self) -> (r: WorldOffset)
        ensures
            r.x == self.x,
            r.y == self.y,
    {
        WorldOffset { x: self.x, y: self.y }
    }

    /// One tile-centre position moved down-left to the corner of its tile.
    pub fn corner(&self) -> (r: WorldCoordinates)
        requires
            self.x - 16 >= i64::MIN,
            self.y - 16 >= i64::MIN,
        ensures
            r.x == self.x - 16,
            r.y == self.y - 16,
    {
        WorldCoordinates { x: self.x - 16, y: self.y - 16 }
    }

    /// This position moved one tile in the given direction.
    pub fn offset_by_direction(&self, direction: &Direction) -> (r: WorldCoordinates)
        requires
            i64::MIN + 32 <= self.x <= i64::MAX - 32,
            i64::MIN + 32 <= self.y <= i64::MAX - 32,
        ensures
            r.x == self.x + spec_direction_offset(*direction).0 * 32,
            r.y == self.y + spec_direction_offset(*direction).1 * 32,
    {
        let (dx, dy): (i64, i64) = get_direction_offset(direction);
        WorldCoordinates { x: self.x + dx * TILE_SIZE, y: self.y + dy * TILE_SIZE }
    }
}

/// A link from a tile of one map to a tile of a neighbouring map: the
/// neighbour's name and, per direction, the tile of the neighbour that lies
/// one step that way.
#[derive(Clone, Debug)]
pub struct MapConnection {
    pub map: String,
    pub directions: Vec<(Direction, MapCoordinates)>,
}

/// Given the position of a tile in map coordinates and the reference point of
/// its map, calculates the position of the tile's centre in world
/// coordinates.
pub fn map_to_world_coordinates(tile: &MapCoordinates, reference_point: &WorldCoordinates) -> (r:
    WorldCoordinates)
    requires
        -0x1000_0000_0000 <= reference_point.x <= 0x1000_0000_0000,
        -0x1000_0000_0000 <= reference_point.y <= 0x1000_0000_0000,
    ensures
        r.x == reference_point.x + tile.x * 32 + 16,
        r.y == reference_point.y + tile.y * 32 + 16,
{
    let offset = tile.to_world_offset();
    reference_point.with_offset(&offset)
}

/// Given the position of a tile's centre in world coordinates and the
/// reference point of its map, calculates the position of the tile in map
/// coordinates.
pub fn world_to_map_coordinates(tile: &WorldCoordinates, reference_point: &WorldCoordinates) -> (r:
    MapCoordinates)
    requires
        -0x1000_0000_0000 <= tile.x <= 0x1000_0000_0000,
        -0x1000_0000_0000 <= tile.y <= 0x1000_0000_0000,
        -0x1000_0000_0000 <= reference_point.x <= 0x1000_0000_0000,
        -0x1000_0000_0000 <= reference_point.y <= 0x1000_0000_0000,
        tile.x - reference_point.x - 16 >= 0,
        tile.y - reference_point.y - 16 >= 0,
        (tile.x - reference_point.x - 16) / 32 <= u32::MAX,
        (tile.y - reference_point.y - 16) / 32 <= u32::MAX,
    ensures
        r.x == (tile.x - reference_point.x - 16) / 32,
        r.y == (tile.y - reference_point.y - 16) / 32,
{
    let anchor = reference_point.to_world_offset();
    let inverted = anchor.invert();
    let scaled = tile.with_offset(&inverted).corner();
    MapCoordinates { x: (scaled.x / TILE_SIZE) as u32, y: (scaled.y / TILE_SIZE) as u32 }
}

/// Given the position of a tile in both map and world coordinates,
/// calculates the reference point of its map.
pub fn get_reference_point_from_tile(
    tile_map_coordinates: &MapCoordinates,
    tile_world_coordinates: &WorldCoordinates,
) -> (r: WorldCoordinates)
    requires
        -0x2000_0000_0000 <= tile_world_coordinates.x <= 0x2000_0000_0000,
        -0x2000_0000_0000 <= tile_world_coordinates.y <= 0x2000_0000_0000,
    ensures
        r.x == tile_world_coordinates.x - (tile_map_coordinates.x * 32 + 16),
        r.y == tile_world_coordinates.y - (tile_map_coordinates.y * 32 + 16),
{
    let offset = tile_map_coordinates.to_world_offset();
    let inverted = offset.invert();
    tile_world_coordinates.with_offset(&inverted)
}

/// Calculates the reference point of a map reached through a connection: the
/// connected tile lies one step from the connecting tile, and anchoring the
/// new map is solving for the reference point that puts it there. The first
/// listed direction of the connection decides the step.
pub fn get_new_map_reference_point(
    tile: &MapCoordinates,
    connection: &MapConnection,
    current_map_reference_point: &WorldCoordinates,
) -> (r: Option<WorldCoordinates>)
    requires
        -0x1000_0000_0000 <= current_map_reference_point.x <= 0x1000_0000_0000,
        -0x1000_0000_0000 <= current_map_reference_point.y <= 0x1000_0000_0000,
    ensures
        connection.directions@.len() == 0 ==> (r is None),
        connection.directions@.len() > 0 ==> r == Some(
            spec_new_map_reference_point(*tile, *connection, *current_map_reference_point),
        ),
{
    if connection.directions.len() == 0 {
        return None;
    }
    let (direction, external_tile): &(Direction, MapCoordinates) = &connection.directions[0];
    let tile_world = map_to_world_coordinates(tile, current_map_reference_point);
    let external_world = tile_world.offset_by_direction(direction);
    Some(get_reference_point_from_tile(external_tile, &external_world))
}

/// Where a connected map's reference point lands, given the connecting tile,
/// the connection and the current map's reference point.
pub open spec fn spec_new_map_reference_point(
    tile: MapCoordinates,
    connection: MapConnection,
    reference: WorldCoordinates,
) -> WorldCoordinates {
    let (direction, external_tile) = connection.directions@[0];
    let world_x = reference.x + tile.x * 32 + 16 + spec_direction_offset(direction).0 * 32;
    let world_y = reference.y + tile.y * 32 + 16 + spec_direction_offset(direction).1 * 32;
    WorldCoordinates {
        x: (world_x - (external_tile.x * 32 + 16)) as i64,
        y: (world_y - (external_tile.y * 32 + 16)) as i64,
    }
}

/// Converting a tile to world coordinates and back returns the tile: the two
/// conversions are inverse over any reference point in range.
pub proof fn lemma_map_world_round_trip(tile: MapCoordinates, reference: WorldCoordinates)
    requires
        -0x1000_0000_0000 <= reference.x <= 0x1000_0000_0000,
        -0x1000_0000_0000 <= reference.y <= 0x1000_0000_0000,
    ensures
        ((reference.x + tile.x * 32 + 16) - reference.x - 16) / 32 == tile.x,
        ((reference.y + tile.y * 32 + 16) - reference.y - 16) / 32 == tile.y,
{
    assert(((reference.x + tile.x * 32 + 16) - reference.x - 16) == tile.x * 32);
    assert((tile.x * 32) / 32 == tile.x) by (nonlinear_arith);
    assert(((reference.y + tile.y * 32 + 16) - reference.y - 16) == tile.y * 32);
    assert((tile.y * 32) / 32 == tile.y) by (nonlinear_arith);
}

} // verus!
