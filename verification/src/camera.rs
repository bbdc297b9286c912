//! Directional input and the free camera.
//!
//! Four keys each hold one direction flag. The camera derives an exact unit
//! movement vector from the flags (opposing keys cancel, a diagonal is
//! normalized to length one, never `sqrt(2)`) and integrates it into its
//! position; its facing offset is fixed at construction, so it translates
//! as a dolly without rotating.

use vstd::prelude::*;
use crate::scalar::{Scalar, Vec3, ONE, sc, v3, fits_i64, is_unit, norm_sq_double_rat, norm_sq_irr};

verus! {

/// One of the four logical movement directions. `Up` is forward motion
/// (toward the scene), `Down` backward, `Left` and `Right` strafe.
#[derive(Clone, Copy, Debug, PartialEq, Eq, Structural)]
pub enum Direction {
    Up,
    Down,
    Left,
    Right,
}

/// Which directional keys are currently held, one flag per direction.
#[derive(Clone, Copy, Debug, PartialEq, Eq, Structural)]
pub struct InputState {
    pub up: bool,
    pub down: bool,
    pub left: bool,
    pub right: bool,
}

/// `step` taken toward `sign`: `step` for `1`, `-step` for `-1`, nothing
/// for `0`.
pub open spec fn step_toward(sign: int, step: int) -> int {
    if sign == 1 {
        step
    } else if sign == -1 {
        -step
    } else {
        0
    }
}

impl InputState {
    /// The state with no key held.
    pub open spec fn none_spec() -> InputState {
        InputState { up: false, down: false, left: false, right: false }
    }

    /// The flag that belongs to direction `dir`.
    pub open spec fn flag(self, dir: Direction) -> bool {
        match dir {
            Direction::Up => self.up,
            Direction::Down => self.down,
            Direction::Left => self.left,
            Direction::Right => self.right,
        }
    }

    /// `self` with the flag of `dir` set to `held` and every other flag kept.
    pub open spec fn set_spec(self, dir: Direction, held: bool) -> InputState {
        match dir {
            Direction::Up => InputState { up: held, ..self },
            Direction::Down => InputState { down: held, ..self },
            Direction::Left => InputState { left: held, ..self },
            Direction::Right => InputState { right: held, ..self },
        }
    }

    /// Net strafe component of the held keys: right minus left.
    pub open spec fn dx(self) -> int {
        (if self.right { 1int } else { 0int }) - (if self.left { 1int } else { 0int })
    }

    /// Net forward component of the held keys: up minus down.
    pub open spec fn dy(self) -> int {
        (if self.up { 1int } else { 0int }) - (if self.down { 1int } else { 0int })
    }

    /// No key held.
    pub fn new() -> (s: InputState)
        ensures
            s == InputState::none_spec(),
    {
        InputState { up: false, down: false, left: false, right: false }
    }

    /// Record the physical state of one direction key; the other three
    /// flags are untouched.
    pub fn set(&mut self, dir: Direction, held: bool)
        ensures
            *final(self) == (*old(self)).set_spec(dir, held),
    {
        match dir {
            Direction::Up => self.up = held,
            Direction::Down => self.down = held,
            Direction::Left => self.left = held,
            Direction::Right => self.right = held,
        }
    }
}

/// Law: setting a flag to the state it already has leaves the input
/// unchanged; in particular, releasing a key that was never pressed is a
/// no-op.
pub proof fn lemma_set_same_state_noop(s: InputState, dir: Direction, held: bool)
    requires
        s.flag(dir) == held,
    ensures
        s.set_spec(dir, held) == s,
{
}

/// Law: setting the same flag twice to the same state equals setting it
/// once; in particular, pressing a held key again is idempotent.
pub proof fn lemma_set_idempotent(s: InputState, dir: Direction, held: bool)
    ensures
        s.set_spec(dir, held).set_spec(dir, held) == s.set_spec(dir, held),
{
}

/// A free camera: a world position, a fixed offset from the position to
/// the look-at target, and the currently held direction keys.
#[derive(Clone, Copy, Debug, PartialEq, Eq, Structural)]
pub struct Camera {
    /// World position; mutated only by `move_at`.
    pub pos: Vec3,
    /// Vector from `pos` to the look-at target, fixed at construction.
    pub front: Vec3,
    /// Currently held direction keys.
    pub movement: InputState,
}

impl Camera {
    /// The camera `new` returns: it stands at `pos`, faces `to`, and holds
    /// no key.
    pub open spec fn new_spec(pos: Vec3, to: Vec3) -> Camera {
        Camera { pos: pos, front: Vec3::sub_spec(to, pos), movement: InputState::none_spec() }
    }

    /// A camera at `pos` looking at `to`; the facing offset `to - pos` is
    /// fixed from here on.
    pub fn new(pos: Vec3, to: Vec3) -> (c: Camera)
        requires
            Vec3::sub_fits(to, pos),
        ensures
            c == Camera::new_spec(pos, to),
    {
        Camera {
            pos: pos,
            front: to.sub(pos),
            movement: InputState { up: false, down: false, left: false, right: false },
        }
    }

    /// The exact unit vector toward `(dx, dy, 0)` for `dx, dy` in
    /// `{-1, 0, 1}`, not both zero: along an axis the nonzero component is
    /// one; along a diagonal each component is `sqrt(2)/2`.
    pub open spec fn unit_dir(dx: int, dy: int) -> Vec3 {
        if dx != 0 && dy != 0 {
            v3(sc(0, step_toward(dx, ONE as int)), sc(0, step_toward(dy, ONE as int)), sc(0, 0))
        } else {
            v3(sc(step_toward(dx, ONE as int), 0), sc(step_toward(dy, ONE as int), 0), sc(0, 0))
        }
    }

    /// The unit direction the held keys ask for, or `None` when they
    /// cancel: exactly when forward equals backward and left equals right.
    pub fn movement_vector(&self) -> (v: Option<Vec3>)
        ensures
            v is None <==> (self.movement.up == self.movement.down && self.movement.left
                == self.movement.right),
            v is None <==> (self.movement.dx() == 0 && self.movement.dy() == 0),
            v matches Some(d) ==> d == Camera::unit_dir(self.movement.dx(), self.movement.dy()),
            v matches Some(d) ==> is_unit(d),
    {
        let dx: i64 = (if self.movement.right { 1 } else { 0 }) - (if self.movement.left { 1 } else { 0 });
        let dy: i64 = (if self.movement.up { 1 } else { 0 }) - (if self.movement.down { 1 } else { 0 });
        proof {
            lemma_unit_dir_is_unit(self.movement.dx(), self.movement.dy());
        }
        if dx == 0 && dy == 0 {
            None
        } else if dx != 0 && dy != 0 {
            let qx: i64 = if dx == 1 { ONE } else { -ONE };
            let qy: i64 = if dy == 1 { ONE } else { -ONE };
            Some(Vec3 { x: Scalar { r: 0, q: qx }, y: Scalar { r: 0, q: qy }, z: Scalar { r: 0, q: 0 } })
        } else {
            let rx: i64 = if dx == 1 { ONE } else if dx == -1 { -ONE } else { 0 };
            let ry: i64 = if dy == 1 { ONE } else if dy == -1 { -ONE } else { 0 };
            Some(Vec3 { x: Scalar { r: rx, q: 0 }, y: Scalar { r: ry, q: 0 }, z: Scalar { r: 0, q: 0 } })
        }
    }

    /// `self` with the flag of `dir` set to `held`; position and facing
    /// are untouched.
    pub open spec fn prep_spec(self, dir: Direction, held: bool) -> Camera {
        Camera { movement: self.movement.set_spec(dir, held), ..self }
    }

    /// Record a key edge for one direction; position and facing are
    /// untouched.
    pub fn prep_move(&mut self, dir: Direction, held: bool)
        ensures
            *final(self) == (*old(self)).prep_spec(dir, held),
    {
        self.movement.set(dir, held);
    }

    /// Whether one motion step of length `speed` stays inside the machine
    /// word on every coordinate it touches.
    pub open spec fn move_fits(self, speed: int) -> bool {
        let dx = self.movement.dx();
        let dy = self.movement.dy();
        if dx == 0 && dy == 0 {
            true
        } else if dx != 0 && dy != 0 {
            fits_i64(self.pos.x.q + step_toward(dx, speed)) && fits_i64(
                self.pos.y.q + step_toward(dy, speed),
            )
        } else {
            fits_i64(self.pos.x.r + step_toward(dx, speed)) && fits_i64(
                self.pos.y.r + step_toward(dy, speed),
            )
        }
    }

    /// `self` after one motion step of length `speed` along the unit
    /// direction of the held keys; unchanged when the keys cancel. A step
    /// of `speed` along an axis adds `speed` to that coordinate's rational
    /// part; along a diagonal it adds `speed` to the `sqrt(2)/(2*ONE)`
    /// coefficient of both coordinates, which is exactly
    /// `speed * sqrt(2)/2` on each.
    pub open spec fn moved_spec(self, speed: int) -> Camera {
        let dx = self.movement.dx();
        let dy = self.movement.dy();
        if dx == 0 && dy == 0 {
            self
        } else if dx != 0 && dy != 0 {
            Camera {
                pos: v3(
                    sc(self.pos.x.r as int, self.pos.x.q + step_toward(dx, speed)),
                    sc(self.pos.y.r as int, self.pos.y.q + step_toward(dy, speed)),
                    self.pos.z,
                ),
                ..self
            }
        } else {
            Camera {
                pos: v3(
                    sc(self.pos.x.r + step_toward(dx, speed), self.pos.x.q as int),
                    sc(self.pos.y.r + step_toward(dy, speed), self.pos.y.q as int),
                    self.pos.z,
                ),
                ..self
            }
        }
    }

    /// Advance the position by `speed` fixed-point steps along the current
    /// unit movement direction; a cancelled or empty key set moves
    /// nothing. Facing and key flags are untouched.
    pub fn move_at(&mut self, speed: i64)
        requires
            (*old(self)).move_fits(speed as int),
        ensures
            *final(self) == (*old(self)).moved_spec(speed as int),
    {
        let dx: i64 = (if self.movement.right { 1 } else { 0 }) - (if self.movement.left { 1 } else { 0 });
        let dy: i64 = (if self.movement.up { 1 } else { 0 }) - (if self.movement.down { 1 } else { 0 });
        if dx == 0 && dy == 0 {
        } else if dx != 0 && dy != 0 {
            self.pos.x.q = if dx == 1 { self.pos.x.q + speed } else { self.pos.x.q - speed };
            self.pos.y.q = if dy == 1 { self.pos.y.q + speed } else { self.pos.y.q - speed };
        } else if dx != 0 {
            self.pos.x.r = if dx == 1 { self.pos.x.r + speed } else { self.pos.x.r - speed };
        } else {
            self.pos.y.r = if dy == 1 { self.pos.y.r + speed } else { self.pos.y.r - speed };
        }
    }

    /// Current world position.
    pub fn pos(&self) -> (p: Vec3)
        ensures
            p == self.pos,
    {
        self.pos
    }

    /// Current look-at target: the position plus the fixed facing offset.
    pub fn looking_at(&self) -> (p: Vec3)
        requires
            Vec3::add_fits(self.pos, self.front),
        ensures
            p == Vec3::add_spec(self.pos, self.front),
    {
        self.pos.add(self.front)
    }
}

/// Law: for every reachable key combination the derived direction is a
/// unit vector — a diagonal has length one, not `sqrt(2)`.
pub proof fn lemma_unit_dir_is_unit(dx: int, dy: int)
    requires
        -1 <= dx <= 1,
        -1 <= dy <= 1,
    ensures
        !(dx == 0 && dy == 0) ==> is_unit(Camera::unit_dir(dx, dy)),
{
    if !(dx == 0 && dy == 0) {
        let d = Camera::unit_dir(dx, dy);
        assert(d.x.r == 0 || d.x.q == 0);
        assert(d.y.r == 0 || d.y.q == 0);
        assert(d.x.r * d.x.q + d.y.r * d.y.q + d.z.r * d.z.q == 0) by (nonlinear_arith)
            requires
                (d.x.r == 0 || d.x.q == 0) && (d.y.r == 0 || d.y.q == 0) && d.z.r == 0,
        ;
        assert(norm_sq_irr(d) == 0);
        if dx != 0 && dy != 0 {
            assert(
                2 * d.x.r * d.x.r + d.x.q * d.x.q + 2 * d.y.r * d.y.r + d.y.q * d.y.q + 2 * d.z.r
                    * d.z.r + d.z.q * d.z.q == 2 * ONE * ONE
            ) by (nonlinear_arith)
                requires
                    d.x.r == 0 && d.y.r == 0 && d.z.r == 0 && d.z.q == 0,
                    d.x.q == ONE || d.x.q == -ONE,
                    d.y.q == ONE || d.y.q == -ONE,
            ;
        } else if dx != 0 {
            assert(
                2 * d.x.r * d.x.r + d.x.q * d.x.q + 2 * d.y.r * d.y.r + d.y.q * d.y.q + 2 * d.z.r
                    * d.z.r + d.z.q * d.z.q == 2 * ONE * ONE
            ) by (nonlinear_arith)
                requires
                    d.x.q == 0 && d.y.r == 0 && d.y.q == 0 && d.z.r == 0 && d.z.q == 0,
                    d.x.r == ONE || d.x.r == -ONE,
            ;
        } else {
            assert(
                2 * d.x.r * d.x.r + d.x.q * d.x.q + 2 * d.y.r * d.y.r + d.y.q * d.y.q + 2 * d.z.r
                    * d.z.r + d.z.q * d.z.q == 2 * ONE * ONE
            ) by (nonlinear_arith)
                requires
                    d.x.r == 0 && d.x.q == 0 && d.y.q == 0 && d.z.r == 0 && d.z.q == 0,
                    d.y.r == ONE || d.y.r == -ONE,
            ;
        }
        assert(norm_sq_double_rat(d) == 2 * ONE * ONE);
    }
}

/// Law: when keys cancel (forward equals backward and left equals right),
/// a motion step changes nothing, whatever the speed.
pub proof fn lemma_cancelled_keys_no_motion(c: Camera, speed: int)
    requires
        c.movement.dx() == 0 && c.movement.dy() == 0,
    ensures
        c.moved_spec(speed) == c,
{
}

/// Law: motion only translates — a step never changes the facing offset or
/// the key flags, so the look-at target stays the position plus the offset
/// fixed at construction.
pub proof fn lemma_motion_keeps_facing(c: Camera, speed: int)
    ensures
        c.moved_spec(speed).front == c.front,
        c.moved_spec(speed).movement == c.movement,
        c.moved_spec(speed).pos.z == c.pos.z,
{
}

/// Law: a motion step adds exactly `speed` times the unit direction of the
/// held keys: scaled by `ONE`, the change of every coordinate coefficient
/// equals the matching coefficient of `unit_dir` times `speed`.
pub proof fn lemma_move_scales_direction(c: Camera, speed: int)
    requires
        c.move_fits(speed),
        !(c.movement.dx() == 0 && c.movement.dy() == 0),
    ensures
        ({
            let m = c.moved_spec(speed);
            let d = Camera::unit_dir(c.movement.dx(), c.movement.dy());
            &&& ONE * (m.pos.x.r - c.pos.x.r) == d.x.r * speed
            &&& ONE * (m.pos.x.q - c.pos.x.q) == d.x.q * speed
            &&& ONE * (m.pos.y.r - c.pos.y.r) == d.y.r * speed
            &&& ONE * (m.pos.y.q - c.pos.y.q) == d.y.q * speed
            &&& m.pos.z == c.pos.z
            &&& m.front == c.front
            &&& m.movement == c.movement
        }),
{
    let dx = c.movement.dx();
    let dy = c.movement.dy();
    let m = c.moved_spec(speed);
    let d = Camera::unit_dir(dx, dy);
    lemma_scale_pair(d.x.r as int, m.pos.x.r - c.pos.x.r, speed);
    lemma_scale_pair(d.x.q as int, m.pos.x.q - c.pos.x.q, speed);
    lemma_scale_pair(d.y.r as int, m.pos.y.r - c.pos.y.r, speed);
    lemma_scale_pair(d.y.q as int, m.pos.y.q - c.pos.y.q, speed);
}

/// One coordinate coefficient of a motion step: a direction coefficient of
/// `0`, `ONE` or `-ONE` goes with a coordinate change of `0`, `speed` or
/// `-speed`, and then `ONE` times the change is the coefficient times
/// `speed`.
proof fn lemma_scale_pair(coef: int, delta: int, speed: int)
    by (nonlinear_arith)
    requires
        (coef == 0 && delta == 0) || (coef == ONE && delta == speed) || (coef == -ONE && delta
            == -speed),
    ensures
        ONE * delta == coef * speed,
{
}

} // verus!
