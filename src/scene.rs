use vstd::prelude::*;
use crate::craft::{input_for_key, key_binding, Craft, Key};
use crate::orbit::{lemma_orbit_angle, Angle, BodyParams, BodyPose, OrbitingBody, Rgba, SimulationClock};
use crate::order::{depth_rank, depth_rank_of, draw_order, is_draw_order};

verus! {

/// One draw of a frame.
#[derive(Clone, Copy, Debug, PartialEq, Eq, Structural)]
pub enum DrawStep {
    /// The star field, in the first pass: colour cleared, no depth buffer.
    StarField,
    /// The body of this index, in the second pass: colour kept, depth cleared.
    Body(usize),
    /// The craft, last in the second pass.
    Craft,
}

/// Which shading program a draw uses.
#[derive(Clone, Copy, Debug, PartialEq, Eq, Structural)]
pub enum Shading {
    /// The plain white points of the star field.
    Stars,
    /// The body program of this index.
    Program(usize),
}

#[derive(Clone, Copy, Debug, PartialEq, Eq, Structural)]
pub enum BlendMode {
    /// The fragment replaces what is drawn.
    Replace,
    /// The fragment is blended by its alpha.
    Alpha,
}

#[derive(Clone, Copy, Debug, PartialEq, Eq, Structural)]
pub enum DepthMode {
    /// No depth test or write.
    Off,
    /// Nearer fragments pass and write their depth.
    TestAndWrite,
}

#[derive(Clone, Copy, Debug, PartialEq, Eq, Structural)]
pub enum Primitive {
    Points,
    /// Triangles, counter-clockwise in front, back faces culled.
    Triangles,
}

/// How a draw is set up: the one description behind every pipeline.
#[derive(Clone, Copy, Debug, PartialEq, Eq, Structural)]
pub struct RenderConfig {
    pub shading: Shading,
    pub blend: BlendMode,
    pub depth: DepthMode,
    pub primitive: Primitive,
}

/// The shading program the craft is drawn with.
pub const CRAFT_PROGRAM: usize = 7;

/// How `step` is drawn: stars as alpha-blended points without depth; a body
/// with its own program, replacing, depth-tested; the craft with its program,
/// alpha-blended, depth-tested.
pub open spec fn render_config_of(step: DrawStep, bodies: Seq<OrbitingBody>) -> RenderConfig {
    match step {
        DrawStep::StarField => RenderConfig {
            shading: Shading::Stars,
            blend: BlendMode::Alpha,
            depth: DepthMode::Off,
            primitive: Primitive::Points,
        },
        DrawStep::Body(i) => RenderConfig {
            shading: Shading::Program(bodies[i as int].params.program),
            blend: BlendMode::Replace,
            depth: DepthMode::TestAndWrite,
            primitive: Primitive::Triangles,
        },
        DrawStep::Craft => RenderConfig {
            shading: Shading::Program(CRAFT_PROGRAM),
            blend: BlendMode::Alpha,
            depth: DepthMode::TestAndWrite,
            primitive: Primitive::Triangles,
        },
    }
}

/// The depth ranks of bit patterns, one for one.
pub open spec fn ranks_of(depth_bits: Seq<u32>) -> Seq<i64> {
    depth_bits.map_values(|b: u32| depth_rank_of(b) as i64)
}

/// The body indices that a frame plan draws, in its order.
pub open spec fn bodies_drawn(plan: Seq<DrawStep>) -> Seq<usize> {
    plan.subrange(1, plan.len() - 1).map_values(|s: DrawStep| s->Body_0)
}

/// The body at `i` has the fastest orbit, and no earlier body is as fast.
pub open spec fn is_first_fastest(bodies: Seq<OrbitingBody>, i: int) -> bool {
    &&& 0 <= i < bodies.len()
    &&& forall|j: int|
        0 <= j < bodies.len() ==> #[trigger] bodies[j].params.orbital_speed
            <= bodies[i].params.orbital_speed
    &&& forall|j: int|
        0 <= j < i ==> #[trigger] bodies[j].params.orbital_speed < bodies[i].params.orbital_speed
}

/// Frame state: the clock, the bodies and the craft. Each tick advances the
/// clock and brings every body to the new time; key presses steer the craft;
/// each frame draws the star field, then the bodies back to front, then the craft.
pub struct FrameComposer {
    pub clock: SimulationClock,
    pub bodies: Vec<OrbitingBody>,
    pub craft: Craft,
}

/// The bodies of the solar system, by index: the sun at the origin, then seven
/// planets on orbits from 7 to 19 units, slower the farther out.
pub open spec fn solar_body(i: int) -> BodyParams {
    let (scale, color, speed, radius): (u32, Rgba, u32, u32) = if i == 0 {
        (4500, Rgba { r: 1000, g: 900, b: 0, a: 1000 }, 0, 0)
    } else if i == 1 {
        (600, Rgba { r: 500, g: 500, b: 1000, a: 1000 }, 1600, 7000)
    } else if i == 2 {
        (900, Rgba { r: 800, g: 500, b: 200, a: 1000 }, 1200, 9000)
    } else if i == 3 {
        (1050, Rgba { r: 0, g: 500, b: 1000, a: 1000 }, 1000, 11000)
    } else if i == 4 {
        (750, Rgba { r: 1000, g: 300, b: 300, a: 1000 }, 800, 13000)
    } else if i == 5 {
        (1500, Rgba { r: 300, g: 1000, b: 300, a: 1000 }, 400, 15000)
    } else if i == 6 {
        (1200, Rgba { r: 500, g: 200, b: 700, a: 1000 }, 300, 17000)
    } else {
        (1050, Rgba { r: 700, g: 700, b: 700, a: 1000 }, 200, 19000)
    };
    BodyParams {
        program: i as usize,
        base_scale: scale,
        base_color: color,
        orbital_radius: radius,
        orbital_speed: speed,
    }
}

/// Number of bodies of the solar system.
pub const SOLAR_BODY_COUNT: usize = 8;

/// The parameters of `solar_body`, computed.
fn solar_body_params(i: usize) -> (r: BodyParams)
    requires
        i < SOLAR_BODY_COUNT,
    ensures
        r == solar_body(i as int),
{
    let (scale, color, speed, radius): (u32, Rgba, u32, u32) = if i == 0 {
        (4500, Rgba { r: 1000, g: 900, b: 0, a: 1000 }, 0, 0)
    } else if i == 1 {
        (600, Rgba { r: 500, g: 500, b: 1000, a: 1000 }, 1600, 7000)
    } else if i == 2 {
        (900, Rgba { r: 800, g: 500, b: 200, a: 1000 }, 1200, 9000)
    } else if i == 3 {
        (1050, Rgba { r: 0, g: 500, b: 1000, a: 1000 }, 1000, 11000)
    } else if i == 4 {
        (750, Rgba { r: 1000, g: 300, b: 300, a: 1000 }, 800, 13000)
    } else if i == 5 {
        (1500, Rgba { r: 300, g: 1000, b: 300, a: 1000 }, 400, 15000)
    } else if i == 6 {
        (1200, Rgba { r: 500, g: 200, b: 700, a: 1000 }, 300, 17000)
    } else {
        (1050, Rgba { r: 700, g: 700, b: 700, a: 1000 }, 200, 19000)
    };
    BodyParams {
        program: i,
        base_scale: scale,
        base_color: color,
        orbital_radius: radius,
        orbital_speed: speed,
    }
}

impl FrameComposer {
    /// The clock steps, and every body is in sync with the clock.
    pub open spec fn wf(&self) -> bool {
        &&& self.clock.wf()
        &&& forall|i: int|
            0 <= i < self.bodies@.len() ==> #[trigger] self.bodies@[i] == OrbitingBody::at(
                self.bodies@[i].params,
                self.clock,
            )
    }

    /// A scene at time zero with bodies of the given parameters, in that order.
    pub fn new(ticks_per_second: u32, params: &Vec<BodyParams>, craft: Craft) -> (r: FrameComposer)
        requires
            ticks_per_second > 0,
        ensures
            r.wf(),
            r.clock == (SimulationClock { ticks: 0, ticks_per_second }),
            r.bodies@.len() == params@.len(),
            forall|i: int| 0 <= i < params@.len() ==> #[trigger] r.bodies@[i].params == params@[i],
            r.craft == craft,
    {
        let clock = SimulationClock::new(ticks_per_second);
        let mut bodies: Vec<OrbitingBody> = Vec::new();
        let mut i: usize = 0;
        while i < params.len()
            invariant
                i <= params@.len(),
                bodies@.len() == i,
                forall|j: int| 0 <= j < i ==> #[trigger] bodies@[j] == OrbitingBody::at(params@[j], clock),
            decreases params@.len() - i,
        {
            bodies.push(OrbitingBody::new(params[i], &clock));
            i = i + 1;
        }
        FrameComposer { clock, bodies, craft }
    }

    /// The solar system: the eight bodies of `solar_body` and a craft that
    /// moves 0.2 units and turns 0.05 radians per press, drawn at scale 0.2.
    pub fn solar_system(ticks_per_second: u32) -> (r: FrameComposer)
        requires
            ticks_per_second > 0,
        ensures
            r.wf(),
            r.clock == (SimulationClock { ticks: 0, ticks_per_second }),
            r.bodies@.len() == SOLAR_BODY_COUNT,
            forall|i: int| 0 <= i < SOLAR_BODY_COUNT ==> #[trigger] r.bodies@[i].params == solar_body(i),
            r.craft == Craft::at_rest(200, 50, 200),
    {
        let mut params: Vec<BodyParams> = Vec::new();
        let mut i: usize = 0;
        while i < SOLAR_BODY_COUNT
            invariant
                i <= SOLAR_BODY_COUNT,
                params@.len() == i,
                forall|j: int| 0 <= j < i ==> #[trigger] params@[j] == solar_body(j),
            decreases SOLAR_BODY_COUNT - i,
        {
            params.push(solar_body_params(i));
            i = i + 1;
        }
        FrameComposer::new(ticks_per_second, &params, Craft::new(200, 50, 200))
    }

    /// Advances the clock by one step and brings every body to the new time;
    /// the craft does not depend on time. Returns false, and changes nothing,
    /// only when the tick count cannot grow further.
    pub fn advance(&mut self) -> (ok: bool)
        requires
            old(self).wf(),
        ensures
            final(self).wf(),
            ok == (old(self).clock.ticks < u64::MAX),
            ok ==> final(self).clock.ticks == old(self).clock.ticks + 1,
            final(self).clock.ticks_per_second == old(self).clock.ticks_per_second,
            final(self).bodies@.len() == old(self).bodies@.len(),
            forall|i: int|
                0 <= i < old(self).bodies@.len() ==> #[trigger] final(self).bodies@[i].params
                    == old(self).bodies@[i].params,
            final(self).craft == old(self).craft,
            !ok ==> final(self).clock == old(self).clock && final(self).bodies@ == old(self).bodies@,
    {
        if !self.clock.tick() {
            return false;
        }
        let clock = self.clock;
        let n = self.bodies.len();
        let mut i: usize = 0;
        while i < n
            invariant
                clock == self.clock,
                clock.wf(),
                n == self.bodies@.len(),
                n == old(self).bodies@.len(),
                i <= n,
                self.craft == old(self).craft,
                forall|j: int| 0 <= j < n ==> #[trigger] self.bodies@[j].params == old(self).bodies@[j].params,
                forall|j: int| 0 <= j < i ==> #[trigger] self.bodies@[j] == OrbitingBody::at(
                    self.bodies@[j].params,
                    clock,
                ),
            decreases n - i,
        {
            let mut body = self.bodies[i];
            body.update(&clock);
            self.bodies.set(i, body);
            i = i + 1;
        }
        true
    }

    /// Handles one key press: a bound key applies its command to the craft
    /// (see `Craft::apply_input`), any other key does nothing. Returns whether
    /// the craft changed. Clock and bodies stay as they are.
    pub fn handle_key(&mut self, key: Key) -> (moved: bool)
        ensures
            final(self).clock == old(self).clock,
            final(self).bodies@ == old(self).bodies@,
            key_binding(key) is None ==> !moved && final(self).craft == old(self).craft,
            key_binding(key) matches Some(input) ==> moved == old(self).craft.can_apply(input) && (
            moved ==> old(self).craft.steps_to(input, final(self).craft)) && (!moved
                ==> final(self).craft == old(self).craft),
    {
        match input_for_key(key) {
            Some(input) => self.craft.apply_input(input),
            None => false,
        }
    }

    /// The draws of one frame: the star field, then every body back to front
    /// by the depth of its world-space position (`depth_bits[i]`, the bit
    /// pattern of body `i`'s z translation, ranked by `depth_rank_of`), bodies
    /// of equal depth in list order, then the craft.
    pub fn frame_plan(&self, depth_bits: &Vec<u32>) -> (plan: Vec<DrawStep>)
        requires
            depth_bits@.len() == self.bodies@.len(),
        ensures
            plan@.len() == self.bodies@.len() + 2,
            plan@[0] == DrawStep::StarField,
            plan@[plan@.len() - 1] == DrawStep::Craft,
            forall|k: int| 1 <= k < plan@.len() - 1 ==> #[trigger] plan@[k] is Body,
            is_draw_order(ranks_of(depth_bits@), bodies_drawn(plan@)),
    {
        let mut ranks: Vec<i64> = Vec::new();
        let mut i: usize = 0;
        while i < depth_bits.len()
            invariant
                i <= depth_bits@.len(),
                ranks@ == ranks_of(depth_bits@.subrange(0, i as int)),
            decreases depth_bits@.len() - i,
        {
            ranks.push(depth_rank(depth_bits[i]));
            proof {
                assert(ranks_of(depth_bits@.subrange(0, i + 1)) =~= ranks_of(
                    depth_bits@.subrange(0, i as int),
                ).push(depth_rank_of(depth_bits@[i as int]) as i64));
            }
            i = i + 1;
        }
        proof {
            assert(depth_bits@.subrange(0, depth_bits@.len() as int) =~= depth_bits@);
        }
        let order = draw_order(&ranks);
        let mut plan: Vec<DrawStep> = Vec::new();
        plan.push(DrawStep::StarField);
        let mut k: usize = 0;
        while k < order.len()
            invariant
                k <= order@.len(),
                plan@.len() == k + 1,
                plan@[0] == DrawStep::StarField,
                forall|j: int| 0 <= j < k ==> #[trigger] plan@[j + 1] == DrawStep::Body(order@[j]),
            decreases order@.len() - k,
        {
            plan.push(DrawStep::Body(order[k]));
            k = k + 1;
        }
        let ghost bodies_part = plan@;
        plan.push(DrawStep::Craft);
        proof {
            assert forall|k: int| 1 <= k < plan@.len() - 1 implies #[trigger] plan@[k] is Body by {
                assert(plan@[k] == bodies_part[(k - 1) + 1]);
            }
            assert(bodies_drawn(plan@) =~= order@);
        }
        plan
    }

    /// How `step` is drawn, per `render_config_of`.
    pub fn render_config(&self, step: DrawStep) -> (r: RenderConfig)
        requires
            step matches DrawStep::Body(i) ==> i < self.bodies@.len(),
        ensures
            r == render_config_of(step, self.bodies@),
    {
        match step {
            DrawStep::StarField => RenderConfig {
                shading: Shading::Stars,
                blend: BlendMode::Alpha,
                depth: DepthMode::Off,
                primitive: Primitive::Points,
            },
            DrawStep::Body(i) => RenderConfig {
                shading: Shading::Program(self.bodies[i].params.program),
                blend: BlendMode::Replace,
                depth: DepthMode::TestAndWrite,
                primitive: Primitive::Triangles,
            },
            DrawStep::Craft => RenderConfig {
                shading: Shading::Program(CRAFT_PROGRAM),
                blend: BlendMode::Alpha,
                depth: DepthMode::TestAndWrite,
                primitive: Primitive::Triangles,
            },
        }
    }

    /// The body with the fastest orbit, the first of them on a tie; none
    /// when there are no bodies.
    pub fn fastest_body(&self) -> (r: Option<usize>)
        ensures
            r is None <==> self.bodies@.len() == 0,
            r matches Some(i) ==> is_first_fastest(self.bodies@, i as int),
    {
        if self.bodies.len() == 0 {
            return None;
        }
        let mut best: usize = 0;
        let mut i: usize = 1;
        while i < self.bodies.len()
            invariant
                1 <= i <= self.bodies@.len(),
                best < i,
                forall|j: int|
                    0 <= j < i ==> #[trigger] self.bodies@[j].params.orbital_speed
                        <= self.bodies@[best as int].params.orbital_speed,
                forall|j: int|
                    0 <= j < best ==> #[trigger] self.bodies@[j].params.orbital_speed
                        < self.bodies@[best as int].params.orbital_speed,
            decreases self.bodies@.len() - i,
        {
            if self.bodies[i].params.orbital_speed > self.bodies[best].params.orbital_speed {
                best = i;
            }
            i = i + 1;
        }
        Some(best)
    }
}

/// In a scene in sync with its clock, every moving body stands on its orbit
/// at angle `elapsed_time * orbital_speed`, however many steps brought the
/// clock there: `ticks * orbital_speed / (ticks_per_second * 1000)` radians.
pub proof fn lemma_body_angle_follows_clock(scene: &FrameComposer, i: int)
    requires
        scene.wf(),
        0 <= i < scene.bodies@.len(),
        scene.bodies@[i].params.orbital_speed > 0,
    ensures
        scene.bodies@[i].pose == BodyPose::Orbit(
            Angle {
                numer: (scene.clock.ticks * scene.bodies@[i].params.orbital_speed) as u128,
                denom: (scene.clock.ticks_per_second * 1000) as u64,
            },
        ),
        scene.bodies@[i].pose matches BodyPose::Orbit(a) && a.numer == scene.clock.ticks
            * scene.bodies@[i].params.orbital_speed && a.denom == scene.clock.ticks_per_second
            * 1000,
{
    assert(scene.bodies@[i] == OrbitingBody::at(scene.bodies@[i].params, scene.clock));
    lemma_orbit_angle(scene.bodies@[i].params, scene.clock);
}

} // verus!
