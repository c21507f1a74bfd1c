use crate::angle::Angle;
use crate::direction::{did_hit, dir_of_tag, parse_level, Tile, TileDirection};
use crate::position::{fits_i64, Position};
use vstd::math::max;
use vstd::prelude::*;

verus! {

/// Degrees that the pointer turns per tick at the start of a game.
pub const DEFAULT_SPEED: i64 = 5;

/// Why a set of level records could not be loaded.
#[derive(Clone, Copy, Debug, PartialEq, Eq, Structural)]
pub enum LoadError {
    /// The record of level `level` names no direction in its tile `tile`.
    UnknownDirection { level: usize, tile: usize },
}

/// The levels of a game, each an ordered sequence of tiles, and the index of
/// the active one.
pub struct LevelMap {
    tiles: Vec<Vec<Tile>>,
    current_level: usize,
}

/// What a successful hit means for the hub.
#[derive(Clone, Copy, Debug, PartialEq, Eq, Structural)]
pub enum MoveNextReturn {
    /// Move the hub one step in the direction of the tile just passed.
    Move(TileDirection),
    /// The level is complete: put the hub back at the start.
    Reset,
}

/// The abstract state of a game: the levels, the active level and tile, and
/// the pointer's speed.
pub struct GameModel {
    pub levels: Seq<Seq<Tile>>,
    pub level: nat,
    pub tile: nat,
    pub speed: int,
}

/// The speed, the levels and the player's place among them.
pub struct GameState {
    speed: i64,
    map: LevelMap,
    current_tile: usize,
}

/// Whether the model's active level exists and its active tile is in it.
pub open spec fn ready(m: GameModel) -> bool {
    m.level < m.levels.len() && m.tile < m.levels[m.level as int].len()
}

/// The direction that the active tile demands.
pub open spec fn active_dir(m: GameModel) -> TileDirection {
    m.levels[m.level as int][m.tile as int].next_dir
}

/// One trigger with the pointer facing `facing` degrees: the next state and
/// the outcome. A miss changes nothing; a hit moves to the next tile, or, on
/// the last tile, to the first tile of the next level.
pub open spec fn step(m: GameModel, facing: int) -> (GameModel, Option<MoveNextReturn>) {
    let d = active_dir(m);
    if !d.accepts(facing) {
        (m, None)
    } else if m.tile + 1 < m.levels[m.level as int].len() {
        (
            GameModel { levels: m.levels, level: m.level, tile: m.tile + 1, speed: m.speed },
            Some(MoveNextReturn::Move(d)),
        )
    } else {
        (
            GameModel { levels: m.levels, level: m.level + 1, tile: 0, speed: m.speed },
            Some(MoveNextReturn::Reset),
        )
    }
}

/// The state after a trigger at each of `facings` in turn.
pub open spec fn run(m: GameModel, facings: Seq<int>) -> GameModel
    decreases facings.len(),
{
    if facings.len() == 0 {
        m
    } else {
        run(step(m, facings[0]).0, facings.drop_first())
    }
}

/// The tiles of a level record, as its tags name them.
pub open spec fn dirs_of_tags(tags: Seq<String>) -> Seq<TileDirection> {
    tags.map_values(|t: String| dir_of_tag(t@).unwrap())
}

/// The directions of a sequence of tiles.
pub open spec fn dirs_of_tiles(tiles: Seq<Tile>) -> Seq<TileDirection> {
    tiles.map_values(|t: Tile| t.next_dir)
}

/// Whether every tag of every record names a direction.
pub open spec fn records_valid(records: Seq<Vec<String>>) -> bool {
    forall|i: int, j: int|
        0 <= i < records.len() && 0 <= j < records[i]@.len() ==> dir_of_tag(
            #[trigger] records[i]@[j]@,
        ) is Some
}

/// Whether the first unknown tag of `records` stands in tile `tile` of level `level`.
pub open spec fn first_unknown(records: Seq<Vec<String>>, level: int, tile: int) -> bool {
    &&& 0 <= level < records.len()
    &&& 0 <= tile < records[level]@.len()
    &&& dir_of_tag(records[level]@[tile]@) is None
    &&& forall|j: int| 0 <= j < tile ==> dir_of_tag(#[trigger] records[level]@[j]@) is Some
    &&& forall|i: int, j: int|
        0 <= i < level && 0 <= j < records[i]@.len() ==> dir_of_tag(
            #[trigger] records[i]@[j]@,
        ) is Some
}

/// Whether `new` holds the levels of `records[0..k]` in front and the levels
/// of `old` after them.
pub open spec fn loaded_prefix(
    old: Seq<Seq<Tile>>,
    new: Seq<Seq<Tile>>,
    records: Seq<Vec<String>>,
    k: int,
) -> bool {
    &&& new.len() == max(old.len() as int, k)
    &&& forall|i: int| 0 <= i < k ==> dirs_of_tiles(#[trigger] new[i]) == dirs_of_tags(records[i]@)
    &&& forall|i: int| k <= i < old.len() ==> #[trigger] new[i] == old[i]
}

/// The positions of a path of `tiles` laid out from `anchor`.
pub open spec fn layout(anchor: Position, tiles: Seq<Tile>) -> Seq<Position>
    decreases tiles.len(),
{
    if tiles.len() == 0 {
        seq![anchor]
    } else {
        layout(anchor, tiles.drop_last()).push(
            layout(anchor, tiles.drop_last()).last().plus(tiles.last().next_dir.step_spec()),
        )
    }
}

impl LevelMap {
    /// The tiles of each level.
    pub closed spec fn levels(&self) -> Seq<Seq<Tile>> {
        Seq::new(self.tiles@.len(), |i: int| self.tiles@[i]@)
    }

    /// The index of the active level.
    pub closed spec fn level(&self) -> nat {
        self.current_level as nat
    }

    /// A map with no levels yet, on level 0.
    pub fn new() -> (r: LevelMap)
        ensures
            r.levels().len() == 0,
            r.level() == 0,
    {
        LevelMap { tiles: Vec::new(), current_level: 0 }
    }

    /// Whether a path of the active level laid out from `anchor` stays
    /// within `i64`.
    pub open spec fn fits_layout(&self, anchor: Position) -> bool {
        &&& self.level() < self.levels().len()
        &&& fits_i64(anchor.x - 75 * self.levels()[self.level() as int].len())
        &&& fits_i64(anchor.x + 75 * self.levels()[self.level() as int].len())
        &&& fits_i64(anchor.y - 75 * self.levels()[self.level() as int].len())
        &&& fits_i64(anchor.y + 75 * self.levels()[self.level() as int].len())
    }

    /// Loads level `index` from its record of direction tags: it replaces
    /// that level, or follows the last one when `index` is the level count.
    /// On the first tag that names no direction, fails and changes nothing.
    pub fn load_level(&mut self, index: usize, tags: &Vec<String>) -> (r: Result<(), LoadError>)
        requires
            index <= old(self).levels().len(),
        ensures
            final(self).level() == old(self).level(),
            r is Ok <==> forall|j: int|
                0 <= j < tags@.len() ==> dir_of_tag(#[trigger] tags@[j]@) is Some,
            r is Ok ==> {
                &&& final(self).levels().len() == max(old(self).levels().len() as int, index + 1)
                &&& dirs_of_tiles(final(self).levels()[index as int]) == dirs_of_tags(tags@)
                &&& forall|j: int|
                    0 <= j < old(self).levels().len() && j != index ==> #[trigger] final(self).levels()[j]
                        == old(self).levels()[j]
            },
            r matches Err(LoadError::UnknownDirection { level, tile }) ==> {
                &&& level == index
                &&& tile < tags@.len()
                &&& dir_of_tag(tags@[tile as int]@) is None
                &&& forall|j: int| 0 <= j < tile ==> dir_of_tag(#[trigger] tags@[j]@) is Some
                &&& final(self).levels() == old(self).levels()
            },
    {
        match parse_level(tags) {
            Ok(tiles) => {
                proof {
                    assert(dirs_of_tiles(tiles@) =~= dirs_of_tags(tags@));
                }
                if index < self.tiles.len() {
                    self.tiles.set(index, tiles);
                } else {
                    self.tiles.push(tiles);
                }
                proof {
                    assert(self.levels()[index as int] == tiles@);
                    assert forall|j: int|
                        0 <= j < old(self).levels().len() && j != index implies #[trigger] self.levels()[j]
                            == old(self).levels()[j] by {
                        assert(self.tiles@[j] == old(self).tiles@[j]);
                    }
                }
                Ok(())
            },
            Err(k) => Err(LoadError::UnknownDirection { level: index, tile: k }),
        }
    }

    /// Loads level `i` from `records[i]` for each `i` in turn, as `load_level`
    /// does. On the first tag that names no direction it stops: the levels
    /// before that record are loaded, the others are as they were.
    pub fn load_levels(&mut self, records: &Vec<Vec<String>>) -> (r: Result<(), LoadError>)
        ensures
            final(self).level() == old(self).level(),
            r is Ok <==> records_valid(records@),
            r is Ok ==> loaded_prefix(
                old(self).levels(),
                final(self).levels(),
                records@,
                records@.len() as int,
            ),
            r matches Err(LoadError::UnknownDirection { level, tile }) ==> {
                &&& first_unknown(records@, level as int, tile as int)
                &&& loaded_prefix(old(self).levels(), final(self).levels(), records@, level as int)
            },
    {
        let mut i: usize = 0;
        while i < records.len()
            invariant
                i <= records@.len(),
                self.level() == old(self).level(),
                forall|k: int, j: int|
                    0 <= k < i && 0 <= j < records@[k]@.len() ==> dir_of_tag(
                        #[trigger] records@[k]@[j]@,
                    ) is Some,
                loaded_prefix(old(self).levels(), self.levels(), records@, i as int),
            decreases records@.len() - i,
        {
            let ghost before = self.levels();
            match self.load_level(i, &records[i]) {
                Ok(()) => {},
                Err(e) => {
                    proof {
                        assert(first_unknown(records@, i as int, e->tile as int));
                    }
                    return Err(e);
                },
            }
            proof {
                assert forall|k: int|
                    0 <= k < i + 1 implies dirs_of_tiles(#[trigger] self.levels()[k])
                        == dirs_of_tags(records@[k]@) by {
                    if k < i {
                        assert(self.levels()[k] == before[k]);
                    }
                }
            }
            i = i + 1;
        }
        Ok(())
    }

    /// The number of levels.
    pub fn level_count(&self) -> (r: usize)
        ensures
            r == self.levels().len(),
    {
        self.tiles.len()
    }

    /// The tiles of the active level.
    pub fn get_tiles(&self) -> (r: &Vec<Tile>)
        requires
            self.level() < self.levels().len(),
        ensures
            r@ == self.levels()[self.level() as int],
    {
        &self.tiles[self.current_level]
    }

    /// The index of the active level.
    pub fn get_current_level(&self) -> (r: usize)
        ensures
            r == self.level(),
    {
        self.current_level
    }

    /// Moves on to the next level; the caller keeps the index in bounds.
    pub fn next_level(&mut self)
        requires
            old(self).level() < old(self).levels().len(),
        ensures
            final(self).level() == old(self).level() + 1,
            final(self).levels() == old(self).levels(),
    {
        proof {
            assert(self.current_level < self.tiles.len());
        }
        self.current_level = self.current_level + 1;
    }

    /// Whether `tile_positions` can lay out the active level from `anchor`.
    pub fn can_lay_out(&self, anchor: &Position) -> (r: bool)
        ensures
            r == self.fits_layout(*anchor),
    {
        if self.current_level >= self.tiles.len() {
            return false;
        }
        let span = 75 * (self.tiles[self.current_level].len() as i128);
        let lo = i64::MIN as i128;
        let hi = i64::MAX as i128;
        lo <= anchor.x as i128 - span && anchor.x as i128 + span <= hi && lo <= anchor.y as i128
            - span && anchor.y as i128 + span <= hi
    }

    /// Where each tile of the active level stands when the path starts at
    /// `anchor`, followed by one more place for the end marker: each place is
    /// the previous one moved by the previous tile's step.
    pub fn tile_positions(&self, anchor: &Position) -> (r: Vec<Position>)
        requires
            self.fits_layout(*anchor),
        ensures
            r@ == layout(*anchor, self.levels()[self.level() as int]),
            r@.len() == self.levels()[self.level() as int].len() + 1,
    {
        let tiles = &self.tiles[self.current_level];
        let mut r: Vec<Position> = Vec::new();
        let mut last = *anchor;
        r.push(last);
        let mut i: usize = 0;
        proof {
            assert(tiles@.subrange(0, 0) =~= Seq::<Tile>::empty());
        }
        while i < tiles.len()
            invariant
                tiles@ == self.levels()[self.level() as int],
                i <= tiles@.len(),
                r@ == layout(*anchor, tiles@.subrange(0, i as int)),
                last == r@.last(),
                anchor.x - 75 * i <= last.x <= anchor.x + 75 * i,
                anchor.y - 75 * i <= last.y <= anchor.y + 75 * i,
                fits_i64(anchor.x - 75 * tiles@.len()),
                fits_i64(anchor.x + 75 * tiles@.len()),
                fits_i64(anchor.y - 75 * tiles@.len()),
                fits_i64(anchor.y + 75 * tiles@.len()),
            decreases tiles@.len() - i,
        {
            let step = tiles[i].next_dir.get_move_pos();
            last = last.add(&step);
            r.push(last);
            proof {
                let s = tiles@.subrange(0, i + 1);
                assert(s.drop_last() =~= tiles@.subrange(0, i as int));
            }
            i = i + 1;
        }
        proof {
            assert(tiles@.subrange(0, tiles@.len() as int) =~= tiles@);
            lemma_layout_len(*anchor, tiles@);
        }
        r
    }
}

impl View for GameState {
    type V = GameModel;

    closed spec fn view(&self) -> GameModel {
        GameModel {
            levels: self.map.levels(),
            level: self.map.level(),
            tile: self.current_tile as nat,
            speed: self.speed as int,
        }
    }
}

impl GameState {
    /// A game at the default speed, with no levels yet, on the first tile.
    pub fn new() -> (r: GameState)
        ensures
            r@.levels.len() == 0,
            r@.level == 0,
            r@.tile == 0,
            r@.speed == DEFAULT_SPEED,
    {
        GameState { speed: DEFAULT_SPEED, map: LevelMap::new(), current_tile: 0 }
    }

    /// A trigger with the pointer facing `facing`. On a miss nothing changes
    /// and the result is `None`. On a hit the player moves to the next tile and
    /// the direction of the tile just passed comes back, or, on the last tile
    /// of the level, returns to the first tile of the next level with `Reset`.
    pub fn move_next(&mut self, facing: &Angle) -> (r: Option<MoveNextReturn>)
        requires
            ready(old(self)@),
        ensures
            (final(self)@, r) == step(old(self)@, facing@),
    {
        let angle_range = self.map.get_tiles()[self.current_tile].next_dir.get_range();
        if did_hit(facing, &angle_range) {
            let n = self.map.get_tiles().len();
            self.current_tile = self.current_tile + 1;
            if self.current_tile < n {
                Some(MoveNextReturn::Move(self.map.get_tiles()[self.current_tile - 1].next_dir))
            } else {
                self.current_tile = 0;
                self.map.next_level();
                Some(MoveNextReturn::Reset)
            }
        } else {
            None
        }
    }

    /// The levels and the active level.
    pub fn get_map(&self) -> (r: &LevelMap)
        ensures
            r.levels() == self@.levels,
            r.level() == self@.level,
    {
        &self.map
    }

    /// The map, to be changed in place; the rest of the state stays.
    pub fn get_map_mut(&mut self) -> (r: &mut LevelMap)
        ensures
            r.levels() == old(self)@.levels,
            r.level() == old(self)@.level,
            final(self)@.levels == final(r).levels(),
            final(self)@.level == final(r).level(),
            final(self)@.tile == old(self)@.tile,
            final(self)@.speed == old(self)@.speed,
    {
        &mut self.map
    }

    /// The index of the active tile in the active level.
    /// Whether the active level exists and holds the active tile, so that
    /// `move_next` can be called.
    pub fn is_ready(&self) -> (r: bool)
        ensures
            r == ready(self@),
    {
        self.map.current_level < self.map.tiles.len() && self.current_tile
            < self.map.tiles[self.map.current_level].len()
    }

    pub fn get_current_tile(&self) -> (r: usize)
        ensures
            r == self@.tile,
    {
        self.current_tile
    }

    /// Degrees that the pointer turns per tick.
    pub fn get_speed(&self) -> (r: i64)
        ensures
            r == self@.speed,
    {
        self.speed
    }
}

/// A trigger outside the active tile's window changes nothing, however often
/// it is repeated.
pub proof fn lemma_misses_change_nothing(m: GameModel, facings: Seq<int>)
    requires
        ready(m),
        forall|i: int| 0 <= i < facings.len() ==> !active_dir(m).accepts(#[trigger] facings[i]),
    ensures
        run(m, facings) == m,
        forall|i: int| 0 <= i < facings.len() ==> step(m, #[trigger] facings[i]) == (m, None::<MoveNextReturn>),
    decreases facings.len(),
{
    if facings.len() > 0 {
        let rest = facings.drop_first();
        assert forall|i: int| 0 <= i < rest.len() implies !active_dir(m).accepts(
            #[trigger] rest[i],
        ) by {
            assert(rest[i] == facings[i + 1]);
        }
        lemma_misses_change_nothing(m, rest);
    }
}

/// Each trigger either changes nothing and reports nothing, or moves one tile
/// on in the same level and reports `Move`, or goes back to tile 0 of the next
/// level and reports `Reset`. The levels and the speed never change.
pub proof fn lemma_progression(m: GameModel, facing: int)
    requires
        ready(m),
    ensures
        ({
            let (n, r) = step(m, facing);
            &&& n.levels == m.levels
            &&& n.speed == m.speed
            &&& r is None <==> n == m
            &&& r is None <==> !active_dir(m).accepts(facing)
            &&& r matches Some(MoveNextReturn::Move(d)) ==> n.tile == m.tile + 1 && n.level
                == m.level && d == active_dir(m)
            &&& r matches Some(MoveNextReturn::Reset) ==> n.tile == 0 && n.level == m.level + 1
                && m.tile + 1 == m.levels[m.level as int].len()
        }),
{
}

proof fn lemma_layout_len(anchor: Position, tiles: Seq<Tile>)
    ensures
        layout(anchor, tiles).len() == tiles.len() + 1,
    decreases tiles.len(),
{
    if tiles.len() > 0 {
        lemma_layout_len(anchor, tiles.drop_last());
    }
}

} // verus!
