use crate::angle::{Angle, DEFAULT_FACING};
use crate::direction::TileDirection;
use crate::game::{active_dir, ready, GameState};
use crate::position::{fits_i64, Position};
use vstd::prelude::*;

verus! {

/// Distance of the pointer from the hub, in pixels.
pub const BALL_DISTANCE: i64 = 75;

/// The view's offset from the world.
#[derive(Clone, Copy, Debug)]
pub struct Camera {
    pub pos: Position,
}

impl Camera {
    /// A camera at the origin.
    pub fn new() -> (r: Camera)
        ensures
            r.pos == (Position { x: 0, y: 0 }),
    {
        Camera { pos: Position::default() }
    }

    /// The camera's offset.
    pub fn get_pos(&self) -> (r: &Position)
        ensures
            *r == self.pos,
    {
        &self.pos
    }
}

/// The pointer that orbits the hub. Where it stands follows from its angle.
#[derive(Clone, Copy, Debug)]
pub struct Ball {
    pub angle: Angle,
}

impl Default for Ball {
    fn default() -> (r: Ball)
        ensures
            r.angle.0 == DEFAULT_FACING,
    {
        Ball { angle: Angle::default() }
    }
}

impl Ball {
    /// One tick: the pointer turns back by the game's speed.
    pub fn update(&mut self, game_state: &GameState)
        requires
            fits_i64(old(self).angle.0 - game_state@.speed),
        ensures
            final(self).angle.0 == old(self).angle.0 - game_state@.speed,
            final(self).angle@ == (old(self).angle@ - game_state@.speed) % 360,
    {
        self.angle.sub_assign(Angle(game_state.get_speed()));
    }

    /// The pointer's facing.
    pub fn get_angle(&self) -> (r: &Angle)
        ensures
            *r == self.angle,
    {
        &self.angle
    }

    /// The pointer's facing, to be set in place.
    pub fn get_angle_mut(&mut self) -> (r: &mut Angle)
        ensures
            *r == old(self).angle,
            final(self).angle == *final(r),
    {
        &mut self.angle
    }
}

/// The hub at `pos` and the pointer orbiting it.
#[derive(Clone, Copy, Debug)]
pub struct Head {
    pub pos: Position,
    pub ball: Ball,
}

impl Head {
    /// A hub at `center` with the pointer at its default facing.
    pub fn new(center: Position) -> (r: Head)
        ensures
            r.pos == center,
            r.ball.angle.0 == DEFAULT_FACING,
    {
        let mut head = Head { pos: Position::default(), ball: Ball::default() };
        head.reset(center);
        head
    }

    /// One tick: the pointer turns.
    pub fn update(&mut self, game_state: &GameState)
        requires
            fits_i64(old(self).ball.angle.0 - game_state@.speed),
        ensures
            final(self).pos == old(self).pos,
            final(self).ball.angle.0 == old(self).ball.angle.0 - game_state@.speed,
            final(self).ball.angle@ == (old(self).ball.angle@ - game_state@.speed) % 360,
    {
        self.ball.update(game_state);
    }

    /// The pointer's facing.
    pub fn get_facing_angle(&self) -> (r: &Angle)
        ensures
            *r == self.ball.angle,
    {
        self.ball.get_angle()
    }

    /// After a hit that reported `Move(dir)`: the hub steps in `dir` and the
    /// pointer is turned half a turn away from the tile now to be passed.
    pub fn move_pos(&mut self, game_state: &GameState, dir: TileDirection)
        requires
            ready(game_state@),
            old(self).pos.can_add(dir.step_spec()),
        ensures
            final(self).pos == old(self).pos.plus(dir.step_spec()),
            final(self).ball.angle.0 == active_dir(game_state@).angle_spec() + 180,
    {
        self.pos.add_assign(&dir.get_move_pos());
        let tiles = game_state.get_map().get_tiles();
        let next = tiles[game_state.get_current_tile()].next_dir.get_angle();
        self.ball.get_angle_mut().0 = next.0 + 180;
    }

    /// Puts the hub at `center` and the pointer back to its default facing.
    pub fn reset(&mut self, center: Position)
        ensures
            final(self).pos == center,
            final(self).ball.angle.0 == DEFAULT_FACING,
    {
        self.pos = center;
        self.ball = Ball::default();
    }
}

} // verus!
