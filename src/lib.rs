//! Timing and progression engine of a single-input rhythm game.
//!
//! A pointer orbits a hub and must be released while facing the direction
//! that the current tile of the level demands. A correct release moves the
//! player one tile along the path; the last tile of a level starts the next.
//! Angles are whole degrees and positions whole pixels.
mod angle;
mod direction;
mod game;
mod head;
mod position;

pub use angle::{Angle, DEFAULT_FACING};
pub use direction::{
    did_hit, dir_of_tag, in_window, parse_level, Tile, TileDirection, TILE_HEIGHT, TILE_RANGE,
    TILE_SPACE, TILE_WIDTH,
};
pub use game::{
    active_dir, dirs_of_tags, dirs_of_tiles, first_unknown, layout, lemma_misses_change_nothing,
    lemma_progression, loaded_prefix, ready, records_valid, run, step, GameModel, GameState, LevelMap,
    LoadError, MoveNextReturn, DEFAULT_SPEED,
};
pub use head::{Ball, Camera, Head, BALL_DISTANCE};
pub use position::{fits_i64, Position};
