//! The per-frame driver: uniform refresh, parameter animation, and
//! draw submission.
//!
//! Each frame refreshes the camera-dependent uniforms — one write per
//! shared shader suffices for every material bound to it — optionally
//! animates a scalar parameter by a fixed clamped step, and submits
//! the scene's draw calls in a fixed order. Failures below this layer
//! are fatal misconfiguration and are not masked here.

use vstd::prelude::*;

use crate::material::{material_locs_resolve, Material};
use crate::scalar::{UnitScalar, UNIT_ONE};
use crate::uniforms::{loc_resolves, Rgba, ShaderProgram, UniformName, UniformValue, VecI3, VecI4};

verus! {

/// Thousandths the fog density moves per tick while a key is held.
pub const FOG_STEP: u32 = 1;

/// The fog density the demo scene starts at, in thousandths.
pub const INITIAL_FOG_DENSITY: u32 = 150;

/// The per-frame animation input, read from the keyboard.
#[derive(Clone, Copy, Debug, PartialEq, Eq, Structural)]
pub enum FogInput {
    /// Raise the fog density one step.
    Up,
    /// Lower the fog density one step.
    Down,
    /// Leave the fog density alone.
    Neutral,
}

/// What one frame needs from the outside: the camera position and the
/// animation input.
#[derive(Clone, Copy, Debug, PartialEq, Eq, Structural)]
pub struct FrameInput {
    /// The camera position, components in thousandths.
    pub view_position: VecI3,
    /// The fog animation input.
    pub fog: FogInput,
}

/// The models of the fog demo scene.
#[derive(Clone, Copy, Debug, PartialEq, Eq, Structural)]
pub enum SceneModel {
    /// The spinning torus.
    Torus,
    /// The cube on the left.
    Cube,
    /// The sphere on the right.
    Sphere,
    /// The externally loaded showcase model.
    Loaded,
}

/// One draw submission: which model, where, how large, and the tint.
#[derive(Clone, Copy, Debug, PartialEq, Eq, Structural)]
pub struct DrawCommand {
    /// The model to draw.
    pub model: SceneModel,
    /// World position, components in thousandths.
    pub position: VecI3,
    /// Uniform scale in thousandths.
    pub scale: u32,
    /// The tint color.
    pub tint: Rgba,
}

/// The fog density after one tick: stepped up or down by [`FOG_STEP`],
/// clamped to the unit interval, so it never leaves `[0, 1]`.
pub open spec fn spec_fog_tick(density: UnitScalar, input: FogInput) -> UnitScalar {
    match input {
        FogInput::Up => UnitScalar {
            raw: if density.raw + FOG_STEP > UNIT_ONE {
                UNIT_ONE as u32
            } else {
                (density.raw + FOG_STEP) as u32
            },
        },
        FogInput::Down => UnitScalar {
            raw: if density.raw >= FOG_STEP {
                (density.raw - FOG_STEP) as u32
            } else {
                0u32
            },
        },
        FogInput::Neutral => density,
    }
}

/// However the fog density is animated, it never leaves the unit
/// interval: each tick clamps at one going up and at zero going down.
pub proof fn lemma_fog_density_stays_in_range(density: UnitScalar, input: FogInput)
    requires
        density.wf(),
    ensures
        spec_fog_tick(density, input).wf(),
        input == FogInput::Up ==> spec_fog_tick(density, input).raw >= density.raw,
        input == FogInput::Down ==> spec_fog_tick(density, input).raw <= density.raw,
{
}

/// The fog density after one tick.
pub fn fog_tick(density: UnitScalar, input: FogInput) -> (r: UnitScalar)
    requires
        density.wf(),
    ensures
        r == spec_fog_tick(density, input),
        r.wf(),
{
    match input {
        FogInput::Up => density.step_up(FOG_STEP),
        FogInput::Down => density.step_down(FOG_STEP),
        FogInput::Neutral => density,
    }
}

/// The fog demo's frame state: the animated density and the uniform
/// locations the driver resolved once at setup.
#[derive(Clone, Copy, Debug, PartialEq, Eq, Structural)]
pub struct FogState {
    /// The current fog density.
    pub density: UnitScalar,
    /// Location of `fogDensity`, cached at setup.
    pub fog_loc: Option<usize>,
    /// Location of `viewPos`, cached at setup.
    pub view_loc: Option<usize>,
}

impl FogState {
    /// The density is in range.
    pub open spec fn wf(self) -> bool {
        self.density.wf()
    }

    /// True when both cached locations still resolve against `shader`.
    /// Uniform writes keep names in place, so this survives every
    /// frame.
    pub open spec fn wf_for(self, shader: ShaderProgram) -> bool {
        &&& loc_resolves(shader.slots@, UniformName::FogDensity, self.fog_loc)
        &&& loc_resolves(shader.slots@, UniformName::ViewPos, self.view_loc)
    }

    /// Sets the fog demo up: resolves the two per-frame locations once,
    /// writes the ambient light level, and writes the starting density.
    /// Every other uniform keeps its value.
    pub fn new(shader: &mut ShaderProgram, initial: UnitScalar, ambient: VecI4) -> (r: FogState)
        requires
            old(shader).wf(),
            initial.wf(),
        ensures
            r.wf(),
            r.density == initial,
            r.wf_for(*final(shader)),
            final(shader).wf(),
            final(shader).slots@.len() == old(shader).slots@.len(),
            forall|j: int|
                0 <= j < old(shader).slots@.len() ==> final(shader).slots@[j].name == old(
                    shader,
                ).slots@[j].name,
            forall|j: int|
                0 <= j < old(shader).slots@.len() ==> final(shader).slots@[j].value == (if old(
                    shader,
                ).slots@[j].name == UniformName::Ambient {
                    UniformValue::Vec4(ambient)
                } else if old(shader).slots@[j].name == UniformName::FogDensity {
                    UniformValue::Scalar(initial)
                } else {
                    old(shader).slots@[j].value
                }),
    {
        let fog_loc = shader.get_location(UniformName::FogDensity);
        let view_loc = shader.get_location(UniformName::ViewPos);
        shader.set_by_name(UniformName::Ambient, UniformValue::Vec4(ambient));
        shader.set_uniform(fog_loc, UniformValue::Scalar(initial));
        FogState { density: initial, fog_loc, view_loc }
    }
}

/// The draw command submitted in slot `i` of the fog demo's frame: the
/// three showcase models, then a row of tori marching across the back.
pub open spec fn spec_fog_scene_command(i: int) -> DrawCommand {
    let white = Rgba { r: 255, g: 255, b: 255, a: 255 };
    if i == 0 {
        DrawCommand {
            model: SceneModel::Torus,
            position: VecI3 { x: 0, y: 0, z: 0 },
            scale: 1000,
            tint: white,
        }
    } else if i == 1 {
        DrawCommand {
            model: SceneModel::Cube,
            position: VecI3 { x: -2600i32, y: 0, z: 0 },
            scale: 1000,
            tint: white,
        }
    } else if i == 2 {
        DrawCommand {
            model: SceneModel::Sphere,
            position: VecI3 { x: 2600, y: 0, z: 0 },
            scale: 1000,
            tint: white,
        }
    } else {
        DrawCommand {
            model: SceneModel::Torus,
            position: VecI3 { x: ((2 * (i - 3) - 20) * 1000) as i32, y: 0, z: 2000 },
            scale: 1000,
            tint: white,
        }
    }
}

/// How many draw commands the fog demo submits per frame.
pub const FOG_SCENE_COMMANDS: usize = 23;

/// Builds the fog demo's draw list: the torus, the cube and the
/// sphere, then twenty tori two units apart across the back row.
pub fn fog_scene_commands() -> (r: Vec<DrawCommand>)
    ensures
        r@.len() == FOG_SCENE_COMMANDS,
        forall|i: int| 0 <= i < r@.len() ==> #[trigger] r@[i] == spec_fog_scene_command(i),
{
    let white = Rgba { r: 255, g: 255, b: 255, a: 255 };
    let mut commands: Vec<DrawCommand> = Vec::new();
    commands.push(
        DrawCommand {
            model: SceneModel::Torus,
            position: VecI3 { x: 0, y: 0, z: 0 },
            scale: 1000,
            tint: white,
        },
    );
    commands.push(
        DrawCommand {
            model: SceneModel::Cube,
            position: VecI3 { x: -2600i32, y: 0, z: 0 },
            scale: 1000,
            tint: white,
        },
    );
    commands.push(
        DrawCommand {
            model: SceneModel::Sphere,
            position: VecI3 { x: 2600, y: 0, z: 0 },
            scale: 1000,
            tint: white,
        },
    );
    let mut k: i32 = 0;
    while k < 20
        invariant
            0 <= k <= 20,
            commands@.len() == k + 3,
            forall|i: int| 0 <= i < commands@.len() ==> #[trigger] commands@[i]
                == spec_fog_scene_command(i),
        decreases 20 - k,
    {
        commands.push(
            DrawCommand {
                model: SceneModel::Torus,
                position: VecI3 { x: (2 * k - 20) * 1000, y: 0, z: 2000 },
                scale: 1000,
                tint: Rgba { r: 255, g: 255, b: 255, a: 255 },
            },
        );
        proof {
            assert(-20 <= 2 * (k as int) - 20 <= 18);
            assert(-20000 <= (2 * (k as int) - 20) * 1000 <= 18000);
            assert(((2 * ((k as int + 3) - 3) - 20) * 1000) as i32 == (2 * (k as int) - 20)
                * 1000);
            assert(commands@[k as int + 3] == spec_fog_scene_command(k as int + 3));
        }
        k += 1;
    }
    commands
}

/// Runs one frame of the fog demo: animates the density by the input,
/// pushes the density and the camera position through the locations
/// cached at setup, and submits the scene's draw list. Every other
/// uniform keeps its value.
pub fn fog_frame(state: &mut FogState, shader: &mut ShaderProgram, input: FrameInput) -> (commands:
    Vec<DrawCommand>)
    requires
        old(state).wf(),
        old(shader).wf(),
        old(state).wf_for(*old(shader)),
    ensures
        final(state).wf(),
        final(state).density == spec_fog_tick(old(state).density, input.fog),
        final(state).fog_loc == old(state).fog_loc,
        final(state).view_loc == old(state).view_loc,
        final(state).wf_for(*final(shader)),
        final(shader).wf(),
        final(shader).slots@.len() == old(shader).slots@.len(),
        forall|j: int|
            0 <= j < old(shader).slots@.len() ==> final(shader).slots@[j].name == old(
                shader,
            ).slots@[j].name,
        forall|j: int|
            0 <= j < old(shader).slots@.len() ==> final(shader).slots@[j].value == (if old(
                shader,
            ).slots@[j].name == UniformName::FogDensity {
                UniformValue::Scalar(spec_fog_tick(old(state).density, input.fog))
            } else if old(shader).slots@[j].name == UniformName::ViewPos {
                UniformValue::Vec3(input.view_position)
            } else {
                old(shader).slots@[j].value
            }),
        commands@.len() == FOG_SCENE_COMMANDS,
        forall|i: int| 0 <= i < commands@.len() ==> #[trigger] commands@[i]
            == spec_fog_scene_command(i),
{
    let density = fog_tick(state.density, input.fog);
    state.density = density;
    shader.set_uniform(state.fog_loc, UniformValue::Scalar(density));
    shader.set_uniform(state.view_loc, UniformValue::Vec3(input.view_position));
    fog_scene_commands()
}

/// Runs one frame of the material showcase: pushes the camera position
/// through the location the material cached at assembly — the shader
/// is shared, so the one write serves every material bound to it — and
/// submits the model at the origin. Every other uniform keeps its
/// value.
pub fn pbr_frame(shader: &mut ShaderProgram, material: &Material, view_position: VecI3) -> (
    commands: Vec<DrawCommand>)
    requires
        old(shader).wf(),
        material_locs_resolve(*old(shader), material.locations),
    ensures
        final(shader).wf(),
        final(shader).slots@.len() == old(shader).slots@.len(),
        forall|j: int|
            0 <= j < old(shader).slots@.len() ==> final(shader).slots@[j].name == old(
                shader,
            ).slots@[j].name,
        forall|j: int|
            0 <= j < old(shader).slots@.len() ==> final(shader).slots@[j].value == (if old(
                shader,
            ).slots@[j].name == UniformName::ViewPos {
                UniformValue::Vec3(view_position)
            } else {
                old(shader).slots@[j].value
            }),
        material_locs_resolve(*final(shader), material.locations),
        commands@.len() == 1,
        commands@[0] == (DrawCommand {
            model: SceneModel::Loaded,
            position: VecI3 { x: 0, y: 0, z: 0 },
            scale: 1000,
            tint: Rgba { r: 255, g: 255, b: 255, a: 255 },
        }),
{
    shader.set_uniform(material.locations.view_pos, UniformValue::Vec3(view_position));
    let mut commands: Vec<DrawCommand> = Vec::new();
    commands.push(
        DrawCommand {
            model: SceneModel::Loaded,
            position: VecI3 { x: 0, y: 0, z: 0 },
            scale: 1000,
            tint: Rgba { r: 255, g: 255, b: 255, a: 255 },
        },
    );
    commands
}

} // verus!
