use vstd::prelude::*;

verus! {

/// Three components in thousandths: of a unit of length for a position, of a
/// radian for the Euler angles about x, y and z.
#[derive(Clone, Copy, Debug, PartialEq, Eq, Structural)]
pub struct Vec3i {
    pub x: i64,
    pub y: i64,
    pub z: i64,
}

/// The keys that steer the craft; `Other` stands for every key that does not.
#[derive(Clone, Copy, Debug, PartialEq, Eq, Structural)]
pub enum Key {
    W,
    A,
    S,
    D,
    Space,
    LShift,
    Left,
    Right,
    Up,
    Down,
    Other,
}

/// One discrete steering command, applied once per key press.
#[derive(Clone, Copy, Debug, PartialEq, Eq, Structural)]
pub enum CraftInput {
    Forward,
    Backward,
    Left,
    Right,
    Up,
    Down,
    RotateLeft,
    RotateRight,
    PitchUp,
    PitchDown,
}

/// The free-flying craft: position and Euler rotation, each accumulated from
/// key presses without bound or wraparound, and the fixed amounts of one press.
#[derive(Clone, Copy, Debug, PartialEq, Eq, Structural)]
pub struct Craft {
    /// Position, in thousandths of a unit.
    pub position: Vec3i,
    /// Rotation about x, y and z, in thousandths of a radian.
    pub rotation: Vec3i,
    /// Distance of one movement press, in thousandths of a unit.
    pub move_speed: u32,
    /// Angle of one rotation press, in thousandths of a radian.
    pub rotate_speed: u32,
    /// Uniform scale of the craft's mesh, in thousandths.
    pub scale: u32,
}

/// Which command a key gives: W, S, A, D move forward (towards negative z),
/// backward, left and right; Space and LShift move up and down; the arrow keys
/// turn left and right about y and pitch up and down about x.
pub open spec fn key_binding(key: Key) -> Option<CraftInput> {
    match key {
        Key::W => Some(CraftInput::Forward),
        Key::S => Some(CraftInput::Backward),
        Key::A => Some(CraftInput::Left),
        Key::D => Some(CraftInput::Right),
        Key::Space => Some(CraftInput::Up),
        Key::LShift => Some(CraftInput::Down),
        Key::Left => Some(CraftInput::RotateLeft),
        Key::Right => Some(CraftInput::RotateRight),
        Key::Up => Some(CraftInput::PitchUp),
        Key::Down => Some(CraftInput::PitchDown),
        Key::Other => None,
    }
}

/// The command bound to `key`, if any.
pub fn input_for_key(key: Key) -> (r: Option<CraftInput>)
    ensures
        r == key_binding(key),
{
    match key {
        Key::W => Some(CraftInput::Forward),
        Key::S => Some(CraftInput::Backward),
        Key::A => Some(CraftInput::Left),
        Key::D => Some(CraftInput::Right),
        Key::Space => Some(CraftInput::Up),
        Key::LShift => Some(CraftInput::Down),
        Key::Left => Some(CraftInput::RotateLeft),
        Key::Right => Some(CraftInput::RotateRight),
        Key::Up => Some(CraftInput::PitchUp),
        Key::Down => Some(CraftInput::PitchDown),
        Key::Other => None,
    }
}

/// A value fits in an `i64`.
pub open spec fn fits_i64(v: int) -> bool {
    i64::MIN <= v <= i64::MAX
}

impl Vec3i {
    /// The components as mathematical integers.
    pub open spec fn as_ints(self) -> (int, int, int) {
        (self.x as int, self.y as int, self.z as int)
    }
}

/// All three components fit in an `i64`.
pub open spec fn fits_vec3(v: (int, int, int)) -> bool {
    fits_i64(v.0) && fits_i64(v.1) && fits_i64(v.2)
}

impl Craft {
    /// A craft at rest at the origin, unrotated.
    pub open spec fn at_rest(move_speed: u32, rotate_speed: u32, scale: u32) -> Craft {
        Craft {
            position: Vec3i { x: 0, y: 0, z: 0 },
            rotation: Vec3i { x: 0, y: 0, z: 0 },
            move_speed,
            rotate_speed,
            scale,
        }
    }

    /// The craft at rest at the origin, unrotated.
    pub fn new(move_speed: u32, rotate_speed: u32, scale: u32) -> (r: Craft)
        ensures
            r == Craft::at_rest(move_speed, rotate_speed, scale),
    {
        Craft {
            position: Vec3i { x: 0, y: 0, z: 0 },
            rotation: Vec3i { x: 0, y: 0, z: 0 },
            move_speed,
            rotate_speed,
            scale,
        }
    }

    /// Position after `input`, over the integers.
    pub open spec fn position_after(self, input: CraftInput) -> (int, int, int) {
        let (x, y, z) = self.position.as_ints();
        let m = self.move_speed as int;
        match input {
            CraftInput::Forward => (x, y, z - m),
            CraftInput::Backward => (x, y, z + m),
            CraftInput::Left => (x - m, y, z),
            CraftInput::Right => (x + m, y, z),
            CraftInput::Up => (x, y + m, z),
            CraftInput::Down => (x, y - m, z),
            _ => (x, y, z),
        }
    }

    /// Rotation after `input`, over the integers.
    pub open spec fn rotation_after(self, input: CraftInput) -> (int, int, int) {
        let (x, y, z) = self.rotation.as_ints();
        let r = self.rotate_speed as int;
        match input {
            CraftInput::RotateLeft => (x, y - r, z),
            CraftInput::RotateRight => (x, y + r, z),
            CraftInput::PitchUp => (x - r, y, z),
            CraftInput::PitchDown => (x + r, y, z),
            _ => (x, y, z),
        }
    }

    /// `next` is this craft after one press of `input`.
    pub open spec fn steps_to(self, input: CraftInput, next: Craft) -> bool {
        &&& next.position.as_ints() == self.position_after(input)
        &&& next.rotation.as_ints() == self.rotation_after(input)
        &&& next.move_speed == self.move_speed
        &&& next.rotate_speed == self.rotate_speed
        &&& next.scale == self.scale
    }

    /// `input` can be applied without leaving the range of an `i64`.
    pub open spec fn can_apply(self, input: CraftInput) -> bool {
        fits_vec3(self.position_after(input)) && fits_vec3(self.rotation_after(input))
    }

    /// Applies one press of `input`: exactly one component of position or
    /// rotation moves by one speed. Returns false, and changes nothing, only
    /// where the component would leave the range of an `i64`.
    pub fn apply_input(&mut self, input: CraftInput) -> (ok: bool)
        ensures
            ok == old(self).can_apply(input),
            ok ==> old(self).steps_to(input, *final(self)),
            !ok ==> *final(self) == *old(self),
    {
        let m = self.move_speed as i64;
        let r = self.rotate_speed as i64;
        let (target, delta) = match input {
            CraftInput::Forward => (self.position.z, -m),
            CraftInput::Backward => (self.position.z, m),
            CraftInput::Left => (self.position.x, -m),
            CraftInput::Right => (self.position.x, m),
            CraftInput::Up => (self.position.y, m),
            CraftInput::Down => (self.position.y, -m),
            CraftInput::RotateLeft => (self.rotation.y, -r),
            CraftInput::RotateRight => (self.rotation.y, r),
            CraftInput::PitchUp => (self.rotation.x, -r),
            CraftInput::PitchDown => (self.rotation.x, r),
        };
        let moved = match target.checked_add(delta) {
            Some(v) => v,
            None => {
                return false;
            },
        };
        match input {
            CraftInput::Forward | CraftInput::Backward => {
                self.position.z = moved;
            },
            CraftInput::Left | CraftInput::Right => {
                self.position.x = moved;
            },
            CraftInput::Up | CraftInput::Down => {
                self.position.y = moved;
            },
            CraftInput::RotateLeft | CraftInput::RotateRight => {
                self.rotation.y = moved;
            },
            CraftInput::PitchUp | CraftInput::PitchDown => {
                self.rotation.x = moved;
            },
        }
        true
    }
}

} // verus!
