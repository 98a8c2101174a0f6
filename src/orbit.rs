use vstd::prelude::*;

verus! {

/// Fixed-step simulation time: `ticks` steps of `1 / ticks_per_second` seconds
/// each. It moves only when told to, never with the wall clock, so that a run
/// can be replayed exactly.
#[derive(Clone, Copy, Debug, PartialEq, Eq, Structural)]
pub struct SimulationClock {
    pub ticks: u64,
    pub ticks_per_second: u32,
}

impl SimulationClock {
    /// A step has a length: there is at least one tick per second.
    pub open spec fn wf(self) -> bool {
        self.ticks_per_second > 0
    }

    /// A clock at time zero.
    pub fn new(ticks_per_second: u32) -> (r: SimulationClock)
        requires
            ticks_per_second > 0,
        ensures
            r.wf(),
            r.ticks == 0,
            r.ticks_per_second == ticks_per_second,
    {
        SimulationClock { ticks: 0, ticks_per_second }
    }

    /// Advances by one step. Returns false, and changes nothing, only when the
    /// tick count cannot grow further.
    pub fn tick(&mut self) -> (ok: bool)
        ensures
            ok == (old(self).ticks < u64::MAX),
            ok ==> final(self).ticks == old(self).ticks + 1,
            final(self).ticks_per_second == old(self).ticks_per_second,
            !ok ==> *final(self) == *old(self),
    {
        if self.ticks < u64::MAX {
            self.ticks = self.ticks + 1;
            true
        } else {
            false
        }
    }
}

/// An angle of `numer / denom` radians.
#[derive(Clone, Copy, Debug, PartialEq, Eq, Structural)]
pub struct Angle {
    pub numer: u128,
    pub denom: u64,
}

/// Where a body stands. `Still`: at the origin, its transform a pure scale.
/// `Orbit(a)`: translated to `(r cos a, 0, r sin a)` for its orbital radius `r`
/// and turned by `a` about the y axis, so that its transform is
/// `translation * rotation_y(a) * scale`.
#[derive(Clone, Copy, Debug, PartialEq, Eq, Structural)]
pub enum BodyPose {
    Still,
    Orbit(Angle),
}

/// A colour: red, green, blue and alpha, in thousandths.
#[derive(Clone, Copy, Debug, PartialEq, Eq, Structural)]
pub struct Rgba {
    pub r: u32,
    pub g: u32,
    pub b: u32,
    pub a: u32,
}

/// The fixed parameters of a body.
#[derive(Clone, Copy, Debug, PartialEq, Eq, Structural)]
pub struct BodyParams {
    /// Index of the shading program the body is drawn with.
    pub program: usize,
    /// Uniform scale of the unit sphere, in thousandths.
    pub base_scale: u32,
    pub base_color: Rgba,
    /// Radius of the circular orbit about the origin, in thousandths of a unit.
    pub orbital_radius: u32,
    /// Angular speed along the orbit, in thousandths of a radian per second;
    /// zero for a body that stays at the origin.
    pub orbital_speed: u32,
}

/// A body's animation state: its parameters and what is derived from them at
/// the time of the last update, the pose and the time mirrored for shading.
#[derive(Clone, Copy, Debug, PartialEq, Eq, Structural)]
pub struct OrbitingBody {
    pub params: BodyParams,
    pub pose: BodyPose,
    /// Ticks of the clock at the last update.
    pub time_ticks: u64,
}

/// Pose of a body of angular speed `orbital_speed` at the clock's time: still
/// for speed zero, else on its orbit at angle `elapsed_seconds * speed`, that
/// is `(ticks / ticks_per_second) * (orbital_speed / 1000)` radians.
pub open spec fn pose_at(orbital_speed: u32, clock: SimulationClock) -> BodyPose {
    if orbital_speed == 0 {
        BodyPose::Still
    } else {
        BodyPose::Orbit(
            Angle {
                numer: (clock.ticks * orbital_speed) as u128,
                denom: (clock.ticks_per_second * 1000) as u64,
            },
        )
    }
}

/// The products that make an angle fit their fields.
proof fn lemma_angle_terms_fit(ticks: u64, speed: u32, ticks_per_second: u32)
    ensures
        ticks * speed <= u128::MAX,
        ticks_per_second * 1000 <= u64::MAX,
{
    assert(ticks * speed <= u64::MAX * u32::MAX) by (nonlinear_arith);
}

impl OrbitingBody {
    /// The state of a body with `params` at the clock's time: a function of
    /// parameters and time alone.
    pub open spec fn at(params: BodyParams, clock: SimulationClock) -> OrbitingBody {
        OrbitingBody {
            params,
            pose: pose_at(params.orbital_speed, clock),
            time_ticks: clock.ticks,
        }
    }

    /// A body with `params`, brought to the clock's time.
    pub fn new(params: BodyParams, clock: &SimulationClock) -> (r: OrbitingBody)
        ensures
            r == OrbitingBody::at(params, *clock),
    {
        OrbitingBody { params, pose: body_pose(params.orbital_speed, clock), time_ticks: clock.ticks }
    }

    /// Recomputes pose and mirrored time for the clock's time; whatever the
    /// body held before does not matter.
    pub fn update(&mut self, clock: &SimulationClock)
        ensures
            *final(self) == OrbitingBody::at(old(self).params, *clock),
    {
        self.pose = body_pose(self.params.orbital_speed, clock);
        self.time_ticks = clock.ticks;
    }
}

/// The pose of `pose_at`, computed.
pub fn body_pose(orbital_speed: u32, clock: &SimulationClock) -> (r: BodyPose)
    ensures
        r == pose_at(orbital_speed, *clock),
{
    if orbital_speed == 0 {
        BodyPose::Still
    } else {
        proof {
            lemma_angle_terms_fit(clock.ticks, orbital_speed, clock.ticks_per_second);
        }
        BodyPose::Orbit(
            Angle {
                numer: clock.ticks as u128 * orbital_speed as u128,
                denom: clock.ticks_per_second as u64 * 1000,
            },
        )
    }
}

/// A body of orbital speed zero is in the same pose, a pure scale at the
/// origin, at any two times.
pub proof fn lemma_still_body_is_time_invariant(
    params: BodyParams,
    c1: SimulationClock,
    c2: SimulationClock,
)
    requires
        params.orbital_speed == 0,
    ensures
        OrbitingBody::at(params, c1).pose == OrbitingBody::at(params, c2).pose,
        OrbitingBody::at(params, c1).pose == BodyPose::Still,
{
}

/// A moving body is on its orbit at angle `elapsed_time * orbital_speed`:
/// `numer / denom == (ticks / ticks_per_second) * (orbital_speed / 1000)`.
pub proof fn lemma_orbit_angle(params: BodyParams, clock: SimulationClock)
    requires
        params.orbital_speed > 0,
        clock.wf(),
    ensures
        OrbitingBody::at(params, clock).pose matches BodyPose::Orbit(a) && a.numer == clock.ticks
            * params.orbital_speed && a.denom == clock.ticks_per_second * 1000,
{
    lemma_angle_terms_fit(clock.ticks, params.orbital_speed, clock.ticks_per_second);
}

/// Deriving a body's state twice from the same time and parameters gives the
/// same state as deriving it once, whatever the body held before.
pub proof fn lemma_update_is_idempotent(
    body: OrbitingBody,
    other: OrbitingBody,
    clock: SimulationClock,
)
    requires
        body.params == other.params,
    ensures
        OrbitingBody::at(OrbitingBody::at(body.params, clock).params, clock)
            == OrbitingBody::at(body.params, clock),
        OrbitingBody::at(body.params, clock) == OrbitingBody::at(other.params, clock),
{
}

} // verus!
