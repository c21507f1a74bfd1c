use crate::angle::Angle;
use crate::position::Position;
use vstd::prelude::*;

verus! {

/// Side of a square tile, in pixels.
pub const TILE_WIDTH: i64 = 70;

/// Height of a square tile, in pixels.
pub const TILE_HEIGHT: i64 = TILE_WIDTH;

/// Gap between two neighbouring tiles, in pixels.
pub const TILE_SPACE: i64 = 5;

/// Half the width of an acceptance window, in degrees.
pub const TILE_RANGE: i64 = 25;

/// A compass direction that a tile demands.
#[derive(Clone, Copy, Debug, PartialEq, Eq, Structural)]
pub enum TileDirection {
    Up,
    Down,
    Left,
    Right,
}

/// One checkpoint of a level's path.
#[derive(Clone, Copy, Debug, PartialEq, Eq, Structural)]
pub struct Tile {
    pub next_dir: TileDirection,
}

impl TileDirection {
    /// The canonical angle of the direction, in degrees.
    pub open spec fn angle_spec(&self) -> int {
        match self {
            TileDirection::Up => 180,
            TileDirection::Down => 0,
            TileDirection::Left => 270,
            TileDirection::Right => 90,
        }
    }

    /// The acceptance window `(low, high)`: the canonical angle widened by
    /// `TILE_RANGE` on both sides, where `Down` wraps across 360.
    pub open spec fn range_spec(&self) -> (i64, i64) {
        match self {
            TileDirection::Up => (155, 205),
            TileDirection::Down => (335, 25),
            TileDirection::Left => (245, 295),
            TileDirection::Right => (65, 115),
        }
    }

    /// The path step from one tile to the next in this direction.
    pub open spec fn step_spec(&self) -> Position {
        match self {
            TileDirection::Up => Position { x: 0, y: -75i64 },
            TileDirection::Down => Position { x: 0, y: 75 },
            TileDirection::Left => Position { x: -75i64, y: 0 },
            TileDirection::Right => Position { x: 75, y: 0 },
        }
    }

    /// Whether a pointer facing `facing` degrees passes a tile of this direction.
    pub open spec fn accepts(&self, facing: int) -> bool {
        in_window(self.range_spec().0 as int, self.range_spec().1 as int, facing)
    }

    /// The canonical angle of the direction.
    pub fn get_angle(&self) -> (r: Angle)
        ensures
            r.0 == self.angle_spec(),
            r@ == self.angle_spec(),
    {
        match self {
            TileDirection::Up => Angle(180),
            TileDirection::Down => Angle(0),
            TileDirection::Left => Angle(270),
            TileDirection::Right => Angle(90),
        }
    }

    /// The acceptance window `(low, high)` in degrees; `low > high` means it wraps.
    pub fn get_range(&self) -> (r: (i64, i64))
        ensures
            r == self.range_spec(),
    {
        match self {
            TileDirection::Up => (180 - TILE_RANGE, 180 + TILE_RANGE),
            TileDirection::Down => (360 - TILE_RANGE, 0 + TILE_RANGE),
            TileDirection::Left => (270 - TILE_RANGE, 270 + TILE_RANGE),
            TileDirection::Right => (90 - TILE_RANGE, 90 + TILE_RANGE),
        }
    }

    /// The path step from a tile of this direction to the next one.
    pub fn get_move_pos(&self) -> (r: Position)
        ensures
            r == self.step_spec(),
    {
        match self {
            TileDirection::Right => Position { x: TILE_WIDTH + TILE_SPACE, y: 0 },
            TileDirection::Left => Position { x: -(TILE_WIDTH + TILE_SPACE), y: 0 },
            TileDirection::Up => Position { x: 0, y: -(TILE_HEIGHT + TILE_SPACE) },
            TileDirection::Down => Position { x: 0, y: TILE_HEIGHT + TILE_SPACE },
        }
    }

    /// The direction that a level record names by `tag`, if any.
    pub fn from_tag(tag: &str) -> (r: Option<TileDirection>)
        ensures
            r == dir_of_tag(tag@),
    {
        let t = tag.to_owned();
        let up = "Up".to_owned();
        let down = "Down".to_owned();
        let left = "Left".to_owned();
        let right = "Right".to_owned();
        proof {
            reveal_strlit("Up");
            reveal_strlit("Down");
            reveal_strlit("Left");
            reveal_strlit("Right");
            assert(up@ =~= seq!['U', 'p']);
            assert(down@ =~= seq!['D', 'o', 'w', 'n']);
            assert(left@ =~= seq!['L', 'e', 'f', 't']);
            assert(right@ =~= seq!['R', 'i', 'g', 'h', 't']);
        }
        if t == up {
            Some(TileDirection::Up)
        } else if t == down {
            Some(TileDirection::Down)
        } else if t == left {
            Some(TileDirection::Left)
        } else if t == right {
            Some(TileDirection::Right)
        } else {
            None
        }
    }
}

/// The direction named by a tag of the level format.
pub open spec fn dir_of_tag(tag: Seq<char>) -> Option<TileDirection> {
    if tag == seq!['U', 'p'] {
        Some(TileDirection::Up)
    } else if tag == seq!['D', 'o', 'w', 'n'] {
        Some(TileDirection::Down)
    } else if tag == seq!['L', 'e', 'f', 't'] {
        Some(TileDirection::Left)
    } else if tag == seq!['R', 'i', 'g', 'h', 't'] {
        Some(TileDirection::Right)
    } else {
        None
    }
}

/// Whether `a` lies in the window `(low, high)`, both ends included. A window
/// with `low > high` wraps: it is `[low, 360]` together with `[0, high]`.
pub open spec fn in_window(low: int, high: int, a: int) -> bool {
    if low > high {
        (low <= a && a <= 360) || (0 <= a && a <= high)
    } else {
        low <= a && a <= high
    }
}

/// Whether `facing` lies in the acceptance window `range`.
pub fn did_hit(facing: &Angle, range: &(i64, i64)) -> (r: bool)
    ensures
        r == in_window(range.0 as int, range.1 as int, facing@),
{
    let a = facing.get();
    if range.0 > range.1 {
        if a >= range.0 && a <= 360 {
            return true;
        } else if a >= 0 && a <= range.1 {
            return true;
        }
    }
    a >= range.0 && a <= range.1
}

/// Turns the direction tags of one level record into its tiles. On an
/// unknown tag, returns the index of the first one.
pub fn parse_level(tags: &Vec<String>) -> (r: Result<Vec<Tile>, usize>)
    ensures
        match r {
            Ok(tiles) => {
                &&& tiles@.len() == tags@.len()
                &&& forall|i: int|
                    0 <= i < tags@.len() ==> dir_of_tag(#[trigger] tags@[i]@) == Some(
                        tiles@[i].next_dir,
                    )
            },
            Err(k) => {
                &&& k < tags@.len()
                &&& dir_of_tag(tags@[k as int]@) is None
                &&& forall|i: int| 0 <= i < k ==> dir_of_tag(#[trigger] tags@[i]@) is Some
            },
        },
{
    let mut tiles: Vec<Tile> = Vec::new();
    let mut i: usize = 0;
    while i < tags.len()
        invariant
            i <= tags@.len(),
            tiles@.len() == i,
            forall|j: int|
                0 <= j < i ==> dir_of_tag(#[trigger] tags@[j]@) == Some(tiles@[j].next_dir),
        decreases tags@.len() - i,
    {
        match TileDirection::from_tag(tags[i].as_str()) {
            Some(d) => tiles.push(Tile { next_dir: d }),
            None => {
                return Err(i);
            },
        }
        i = i + 1;
    }
    Ok(tiles)
}

} // verus!
