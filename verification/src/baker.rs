//! The environment-map baker: offscreen pass plans for image-based
//! lighting.
//!
//! Each bake is planned here as data — which face or mip level is the
//! target, which proxy geometry is drawn, which view orientation and
//! roughness feed the shader — and an application layer executes the
//! passes against the graphics runtime. The plan pins down iteration
//! order and every parameter, so two bakes from the same inputs are the
//! same bake.

use vstd::prelude::*;

use crate::texture::{
    spec_mip_chain_len, spec_mip_dimension, mip_chain_len, mip_dimension, PixelFormat,
    TextureFilter, TextureHandle,
};
use crate::uniforms::VecI3;

verus! {

/// Default side length of the baked environment cubemap.
pub const CUBEMAP_SIZE: u32 = 512;

/// Default side length of the irradiance cubemap; small, since diffuse
/// irradiance varies slowly.
pub const IRRADIANCE_SIZE: u32 = 32;

/// Default side length of the prefiltered specular cubemap.
pub const PREFILTERED_SIZE: u32 = 256;

/// Default side length of the split-sum lookup table.
pub const BRDF_SIZE: u32 = 512;

/// Step, in thousandths of a radian, of the discretized hemisphere
/// sampling the irradiance convolution uses.
pub const IRRADIANCE_SAMPLE_STEP: u32 = 25;

/// The six faces of a cubemap render target, in render order.
#[derive(Clone, Copy, Debug, PartialEq, Eq, Structural)]
pub enum CubeFace {
    /// The `+X` face.
    PositiveX,
    /// The `-X` face.
    NegativeX,
    /// The `+Y` face.
    PositiveY,
    /// The `-Y` face.
    NegativeY,
    /// The `+Z` face.
    PositiveZ,
    /// The `-Z` face.
    NegativeZ,
}

/// The proxy geometry a pass rasterizes to cover its target.
#[derive(Clone, Copy, Debug, PartialEq, Eq, Structural)]
pub enum ProxyGeometry {
    /// A unit cube viewed from inside, for cubemap faces.
    UnitCube,
    /// A full-screen quad, for flat targets.
    ScreenQuad,
}

/// The camera orientation that captures one cube face: where the camera
/// looks and which way is up, components in thousandths.
#[derive(Clone, Copy, Debug, PartialEq, Eq, Structural)]
pub struct FaceView {
    /// The view direction, a unit axis.
    pub forward: VecI3,
    /// The up direction, a unit axis.
    pub up: VecI3,
}

/// The face rendered in slot `i` of the six-pass iteration.
pub open spec fn spec_face_of_index(i: int) -> CubeFace {
    if i == 0 {
        CubeFace::PositiveX
    } else if i == 1 {
        CubeFace::NegativeX
    } else if i == 2 {
        CubeFace::PositiveY
    } else if i == 3 {
        CubeFace::NegativeY
    } else if i == 4 {
        CubeFace::PositiveZ
    } else {
        CubeFace::NegativeZ
    }
}

/// The face rendered in slot `i` of the six-pass iteration.
pub fn face_of_index(i: u32) -> (f: CubeFace)
    requires
        i < 6,
    ensures
        f == spec_face_of_index(i as int),
{
    if i == 0 {
        CubeFace::PositiveX
    } else if i == 1 {
        CubeFace::NegativeX
    } else if i == 2 {
        CubeFace::PositiveY
    } else if i == 3 {
        CubeFace::NegativeY
    } else if i == 4 {
        CubeFace::PositiveZ
    } else {
        CubeFace::NegativeZ
    }
}

/// The capture orientation of each face, with the vertical flip the
/// cubemap convention asks for on the horizontal faces.
pub open spec fn spec_face_view(face: CubeFace) -> FaceView {
    match face {
        CubeFace::PositiveX => FaceView {
            forward: VecI3 { x: 1000, y: 0, z: 0 },
            up: VecI3 { x: 0, y: -1000i32, z: 0 },
        },
        CubeFace::NegativeX => FaceView {
            forward: VecI3 { x: -1000i32, y: 0, z: 0 },
            up: VecI3 { x: 0, y: -1000i32, z: 0 },
        },
        CubeFace::PositiveY => FaceView {
            forward: VecI3 { x: 0, y: 1000, z: 0 },
            up: VecI3 { x: 0, y: 0, z: 1000 },
        },
        CubeFace::NegativeY => FaceView {
            forward: VecI3 { x: 0, y: -1000i32, z: 0 },
            up: VecI3 { x: 0, y: 0, z: -1000i32 },
        },
        CubeFace::PositiveZ => FaceView {
            forward: VecI3 { x: 0, y: 0, z: 1000 },
            up: VecI3 { x: 0, y: -1000i32, z: 0 },
        },
        CubeFace::NegativeZ => FaceView {
            forward: VecI3 { x: 0, y: 0, z: -1000i32 },
            up: VecI3 { x: 0, y: -1000i32, z: 0 },
        },
    }
}

/// The capture orientation of each face.
pub fn face_view(face: CubeFace) -> (v: FaceView)
    ensures
        v == spec_face_view(face),
{
    match face {
        CubeFace::PositiveX => FaceView {
            forward: VecI3 { x: 1000, y: 0, z: 0 },
            up: VecI3 { x: 0, y: -1000i32, z: 0 },
        },
        CubeFace::NegativeX => FaceView {
            forward: VecI3 { x: -1000i32, y: 0, z: 0 },
            up: VecI3 { x: 0, y: -1000i32, z: 0 },
        },
        CubeFace::PositiveY => FaceView {
            forward: VecI3 { x: 0, y: 1000, z: 0 },
            up: VecI3 { x: 0, y: 0, z: 1000 },
        },
        CubeFace::NegativeY => FaceView {
            forward: VecI3 { x: 0, y: -1000i32, z: 0 },
            up: VecI3 { x: 0, y: 0, z: -1000i32 },
        },
        CubeFace::PositiveZ => FaceView {
            forward: VecI3 { x: 0, y: 0, z: 1000 },
            up: VecI3 { x: 0, y: -1000i32, z: 0 },
        },
        CubeFace::NegativeZ => FaceView {
            forward: VecI3 { x: 0, y: 0, z: -1000i32 },
            up: VecI3 { x: 0, y: -1000i32, z: 0 },
        },
    }
}

/// One offscreen pass into one cubemap face: the face, the capture
/// orientation, the square viewport, and the rasterizer flags. Depth
/// testing is off: the proxy cube is viewed from its interior.
#[derive(Clone, Copy, Debug, PartialEq, Eq, Structural)]
pub struct FacePass {
    /// The target face.
    pub face: CubeFace,
    /// The capture orientation for this face.
    pub view: FaceView,
    /// Side length of the square viewport.
    pub viewport: u32,
    /// Whether depth testing and writing stay enabled.
    pub depth_test: bool,
    /// The geometry rasterized to cover the face.
    pub proxy: ProxyGeometry,
}

/// The pass rendered in slot `i` of a six-face iteration at `viewport`.
pub open spec fn spec_face_pass(i: int, viewport: u32) -> FacePass {
    FacePass {
        face: spec_face_of_index(i),
        view: spec_face_view(spec_face_of_index(i)),
        viewport,
        depth_test: false,
        proxy: ProxyGeometry::UnitCube,
    }
}

/// True when `s` is the full six-face iteration at `viewport`, in face
/// order.
pub open spec fn is_face_pass_seq(s: Seq<FacePass>, viewport: u32) -> bool {
    &&& s.len() == 6
    &&& forall|i: int| 0 <= i < 6 ==> s[i] == spec_face_pass(i, viewport)
}

/// Builds the six-face pass iteration at `viewport`.
pub fn face_passes(viewport: u32) -> (r: Vec<FacePass>)
    ensures
        is_face_pass_seq(r@, viewport),
{
    let mut passes: Vec<FacePass> = Vec::new();
    let mut i: u32 = 0;
    while i < 6
        invariant
            i <= 6,
            passes@.len() == i,
            forall|k: int| 0 <= k < i ==> passes@[k] == spec_face_pass(k, viewport),
        decreases 6 - i,
    {
        let face = face_of_index(i);
        passes.push(
            FacePass {
                face,
                view: face_view(face),
                viewport,
                depth_test: false,
                proxy: ProxyGeometry::UnitCube,
            },
        );
        i += 1;
    }
    passes
}

/// The planned conversion of an equirectangular panorama into a cubemap.
#[derive(Debug)]
pub struct CubemapBake {
    /// The panorama every face pass samples.
    pub source: TextureHandle,
    /// The cubemap the six passes fill.
    pub cubemap: TextureHandle,
    /// The six face passes, in face order.
    pub passes: Vec<FacePass>,
}

/// True when `r` is the bake that turns `source` into a cubemap of side
/// `size`.
pub open spec fn is_cubemap_bake(source: TextureHandle, size: u32, r: CubemapBake) -> bool {
    &&& r.source == source
    &&& r.cubemap == (TextureHandle {
        width: size,
        height: size,
        format: PixelFormat::HdrColor,
        is_cubemap: true,
        mip_count: 1,
        filter: TextureFilter::Point,
    })
    &&& is_face_pass_seq(r.passes@, size)
}

/// Plans the conversion of the equirectangular panorama `equirect` into
/// a `size` by `size` cubemap: one pass per face, in face order, each
/// drawing the unit-cube proxy from inside with depth testing off.
pub fn equirect_to_cubemap(equirect: &TextureHandle, size: u32) -> (r: CubemapBake)
    requires
        equirect.wf(),
        !equirect.is_cubemap,
        size >= 1,
    ensures
        is_cubemap_bake(*equirect, size, r),
        r.cubemap.wf(),
{
    proof {
        crate::texture::lemma_mip_chain_len_le_size(size as nat);
    }
    CubemapBake {
        source: *equirect,
        cubemap: TextureHandle {
            width: size,
            height: size,
            format: PixelFormat::HdrColor,
            is_cubemap: true,
            mip_count: 1,
            filter: TextureFilter::Point,
        },
        passes: face_passes(size),
    }
}

/// Planning the same conversion twice yields the same cubemap handle
/// and the same passes with the same parameters, so a deterministic
/// execution of the plans fills the two cubemaps identically.
pub proof fn lemma_cubemap_bake_deterministic(
    source: TextureHandle,
    size: u32,
    a: CubemapBake,
    b: CubemapBake,
)
    requires
        is_cubemap_bake(source, size, a),
        is_cubemap_bake(source, size, b),
    ensures
        a.cubemap == b.cubemap,
        a.passes@ == b.passes@,
{
    assert(a.passes@ =~= b.passes@);
}

/// The planned convolution of a cubemap into a diffuse irradiance
/// cubemap.
#[derive(Debug)]
pub struct IrradianceBake {
    /// The environment cubemap every face pass integrates over.
    pub source: TextureHandle,
    /// The irradiance cubemap the six passes fill.
    pub irradiance: TextureHandle,
    /// The six face passes, in face order.
    pub passes: Vec<FacePass>,
    /// Step, in thousandths of a radian, of the hemisphere sampling.
    pub sample_step: u32,
}

/// True when `r` is the irradiance bake of `source` at side `size`.
pub open spec fn is_irradiance_bake(source: TextureHandle, size: u32, r: IrradianceBake) -> bool {
    &&& r.source == source
    &&& r.irradiance == (TextureHandle {
        width: size,
        height: size,
        format: PixelFormat::HdrColor,
        is_cubemap: true,
        mip_count: 1,
        filter: TextureFilter::Point,
    })
    &&& is_face_pass_seq(r.passes@, size)
    &&& r.sample_step == IRRADIANCE_SAMPLE_STEP
}

/// Plans the hemisphere convolution of `cubemap` into a `size` by
/// `size` irradiance cubemap, six face passes in face order.
pub fn cubemap_to_irradiance(cubemap: &TextureHandle, size: u32) -> (r: IrradianceBake)
    requires
        cubemap.wf(),
        cubemap.is_cubemap,
        size >= 1,
    ensures
        is_irradiance_bake(*cubemap, size, r),
        r.irradiance.wf(),
{
    proof {
        crate::texture::lemma_mip_chain_len_le_size(size as nat);
    }
    IrradianceBake {
        source: *cubemap,
        irradiance: TextureHandle {
            width: size,
            height: size,
            format: PixelFormat::HdrColor,
            is_cubemap: true,
            mip_count: 1,
            filter: TextureFilter::Point,
        },
        passes: face_passes(size),
        sample_step: IRRADIANCE_SAMPLE_STEP,
    }
}

/// The passes that fill one mip level of the prefiltered cubemap: six
/// faces at the level's size, with the level's roughness fed to the
/// importance-sampling shader as the exact fraction
/// `roughness_num / roughness_den`.
#[derive(Debug)]
pub struct MipLevelPlan {
    /// The mip level these passes fill.
    pub level: u32,
    /// Side length of this level.
    pub size: u32,
    /// Numerator of the level's roughness: the level index.
    pub roughness_num: u32,
    /// Denominator of the level's roughness: the last level index.
    pub roughness_den: u32,
    /// The six face passes at this level's size, in face order.
    pub faces: Vec<FacePass>,
}

/// True when `p` is the plan of mip level `level` for a chain of `mips`
/// levels over a base of side `base_size`.
pub open spec fn is_mip_level_plan(base_size: u32, mips: nat, level: int, p: MipLevelPlan) -> bool {
    &&& p.level == level
    &&& p.size == spec_mip_dimension(base_size as nat, level as nat)
    &&& p.roughness_num == level
    &&& p.roughness_den == if mips <= 1 {
        1nat
    } else {
        (mips - 1) as nat
    }
    &&& is_face_pass_seq(p.faces@, p.size)
}

/// The planned GGX prefiltering of a cubemap into a mip-chained
/// specular cubemap.
#[derive(Debug)]
pub struct PrefilterBake {
    /// The environment cubemap every pass importance-samples.
    pub source: TextureHandle,
    /// The mip-chained cubemap the passes fill.
    pub prefiltered: TextureHandle,
    /// One plan per mip level, in level order.
    pub levels: Vec<MipLevelPlan>,
}

/// True when `r` is the prefilter bake of `source` at base side `size`.
pub open spec fn is_prefilter_bake(source: TextureHandle, size: u32, r: PrefilterBake) -> bool {
    &&& r.source == source
    &&& r.prefiltered == (TextureHandle {
        width: size,
        height: size,
        format: PixelFormat::HdrColor,
        is_cubemap: true,
        mip_count: spec_mip_chain_len(size as nat) as u32,
        filter: TextureFilter::Point,
    })
    &&& r.levels@.len() == spec_mip_chain_len(size as nat)
    &&& forall|l: int|
        0 <= l < r.levels@.len() ==> is_mip_level_plan(
            size,
            spec_mip_chain_len(size as nat),
            l,
            #[trigger] r.levels@[l],
        )
}

/// Plans the prefiltering of `cubemap` into a `size` by `size` cubemap
/// with a full mip chain: level `l` of `n` is rendered at the level's
/// own size with roughness `l / (n - 1)`, so level `0` is mirror-sharp
/// and the last level is maximally rough.
pub fn cubemap_to_prefiltered(cubemap: &TextureHandle, size: u32) -> (r: PrefilterBake)
    requires
        cubemap.wf(),
        cubemap.is_cubemap,
        size >= 1,
    ensures
        is_prefilter_bake(*cubemap, size, r),
        r.prefiltered.wf(),
        r.prefiltered.mip_count == spec_mip_chain_len(size as nat),
{
    proof {
        crate::texture::lemma_mip_chain_len_le_size(size as nat);
    }
    let mips = mip_chain_len(size);
    let den = if mips <= 1 {
        1
    } else {
        mips - 1
    };
    let mut levels: Vec<MipLevelPlan> = Vec::new();
    let mut level: u32 = 0;
    while level < mips
        invariant
            mips == spec_mip_chain_len(size as nat),
            size >= 1,
            den == if mips <= 1 {
                1nat
            } else {
                (mips - 1) as nat
            },
            level <= mips,
            levels@.len() == level,
            forall|l: int|
                0 <= l < level ==> is_mip_level_plan(
                    size,
                    mips as nat,
                    l,
                    #[trigger] levels@[l],
                ),
        decreases mips - level,
    {
        let dim = mip_dimension(size, level);
        levels.push(
            MipLevelPlan {
                level,
                size: dim,
                roughness_num: level,
                roughness_den: den,
                faces: face_passes(dim),
            },
        );
        level += 1;
    }
    PrefilterBake {
        source: *cubemap,
        prefiltered: TextureHandle {
            width: size,
            height: size,
            format: PixelFormat::HdrColor,
            is_cubemap: true,
            mip_count: mips,
            filter: TextureFilter::Point,
        },
        levels,
    }
}

/// In any prefilter bake over a base of at least two pixels, the
/// first mip level is rendered with roughness exactly zero and the
/// last with roughness exactly one: the chain runs from near-mirror to
/// maximally rough.
pub proof fn lemma_prefilter_roughness_endpoints(
    source: TextureHandle,
    size: u32,
    r: PrefilterBake,
)
    requires
        is_prefilter_bake(source, size, r),
        size >= 2,
    ensures
        r.levels@.len() >= 2,
        r.levels@[0].roughness_num == 0,
        r.levels@.last().roughness_num == r.levels@.last().roughness_den,
        r.levels@.last().roughness_den == r.levels@.len() - 1,
{
    crate::texture::lemma_mip_chain_len_le_size((size / 2) as nat);
    assert(spec_mip_chain_len(size as nat) == 1 + spec_mip_chain_len((size / 2) as nat));
    assert(is_mip_level_plan(
        size,
        spec_mip_chain_len(size as nat),
        0,
        r.levels@[0],
    ));
    assert(is_mip_level_plan(
        size,
        spec_mip_chain_len(size as nat),
        r.levels@.len() - 1,
        r.levels@[r.levels@.len() - 1],
    ));
}

/// The planned integration of the split-sum lookup table.
#[derive(Clone, Copy, Debug, PartialEq, Eq, Structural)]
pub struct BrdfBake {
    /// The two-channel table the single pass fills: scale in the first
    /// channel, bias in the second, indexed by view angle and roughness.
    pub lut: TextureHandle,
    /// Side length of the square viewport.
    pub viewport: u32,
    /// The geometry rasterized to cover the table: a screen quad, no
    /// cubemap involved.
    pub proxy: ProxyGeometry,
}

/// True when `r` is the lookup-table bake at side `size`.
pub open spec fn is_brdf_bake(size: u32, r: BrdfBake) -> bool {
    &&& r.lut == (TextureHandle {
        width: size,
        height: size,
        format: PixelFormat::DualChannel,
        is_cubemap: false,
        mip_count: 1,
        filter: TextureFilter::Point,
    })
    &&& r.viewport == size
    &&& r.proxy == ProxyGeometry::ScreenQuad
}

/// Plans the split-sum integration into a `size` by `size` two-channel
/// table: a single screen-quad pass, no mip chain.
pub fn brdf_lut(size: u32) -> (r: BrdfBake)
    requires
        size >= 1,
    ensures
        is_brdf_bake(size, r),
        r.lut.wf(),
{
    proof {
        crate::texture::lemma_mip_chain_len_le_size(size as nat);
    }
    BrdfBake {
        lut: TextureHandle {
            width: size,
            height: size,
            format: PixelFormat::DualChannel,
            is_cubemap: false,
            mip_count: 1,
            filter: TextureFilter::Point,
        },
        viewport: size,
        proxy: ProxyGeometry::ScreenQuad,
    }
}

/// The three baked resources a material retains for its lifetime.
#[derive(Clone, Copy, Debug, PartialEq, Eq, Structural)]
pub struct EnvironmentBundle {
    /// The diffuse irradiance cubemap.
    pub irradiance: TextureHandle,
    /// The mip-chained prefiltered specular cubemap.
    pub prefiltered: TextureHandle,
    /// The two-channel split-sum lookup table.
    pub brdf: TextureHandle,
}

impl EnvironmentBundle {
    /// The bundle's members have the shapes the shader expects.
    pub open spec fn wf(self) -> bool {
        &&& self.irradiance.wf()
        &&& self.irradiance.is_cubemap
        &&& self.prefiltered.wf()
        &&& self.prefiltered.is_cubemap
        &&& self.brdf.wf()
        &&& !self.brdf.is_cubemap
        &&& self.brdf.format == PixelFormat::DualChannel
    }
}

/// One stage of the full environment bake, in execution order.
#[derive(Clone, Copy, Debug, PartialEq, Eq, Structural)]
pub enum BakeStage {
    /// Fill the full-resolution cubemap from the panorama.
    GenerateCubemap,
    /// Convolve the cubemap into the irradiance map.
    GenerateIrradiance,
    /// Prefilter the cubemap into the specular mip chain.
    GeneratePrefiltered,
    /// Integrate the split-sum lookup table.
    GenerateBrdf,
    /// Release the intermediate full-resolution cubemap.
    ReleaseCubemap,
}

/// Whether a stage consumes the intermediate full-resolution cubemap.
pub open spec fn stage_reads_cubemap(s: BakeStage) -> bool {
    s == BakeStage::GenerateIrradiance || s == BakeStage::GeneratePrefiltered
}

/// The stage order of every full environment bake.
pub open spec fn spec_bake_stages() -> Seq<BakeStage> {
    seq![
        BakeStage::GenerateCubemap,
        BakeStage::GenerateIrradiance,
        BakeStage::GeneratePrefiltered,
        BakeStage::GenerateBrdf,
        BakeStage::ReleaseCubemap,
    ]
}

/// The full environment bake: the four dependent plans, the stage
/// order that sequences them, and the bundle of retained outputs.
#[derive(Debug)]
pub struct EnvironmentBake {
    /// The panorama-to-cubemap plan; its output is intermediate.
    pub cubemap: CubemapBake,
    /// The irradiance plan, consuming the intermediate cubemap.
    pub irradiance: IrradianceBake,
    /// The prefilter plan, consuming the intermediate cubemap.
    pub prefilter: PrefilterBake,
    /// The lookup-table plan, independent but batched with the others.
    pub brdf: BrdfBake,
    /// The stages in execution order, release last.
    pub stages: Vec<BakeStage>,
    /// The three outputs retained for the material's lifetime.
    pub bundle: EnvironmentBundle,
}

/// Plans the whole load-time bake. The cubemap conversion comes first,
/// both convolutions consume its output, and the intermediate cubemap
/// is released only after both have run; the bundle retains only the
/// three final resources.
pub fn bake_environment(
    equirect: &TextureHandle,
    cubemap_size: u32,
    irradiance_size: u32,
    prefiltered_size: u32,
    brdf_size: u32,
) -> (r: EnvironmentBake)
    requires
        equirect.wf(),
        !equirect.is_cubemap,
        cubemap_size >= 1,
        irradiance_size >= 1,
        prefiltered_size >= 1,
        brdf_size >= 1,
    ensures
        is_cubemap_bake(*equirect, cubemap_size, r.cubemap),
        is_irradiance_bake(r.cubemap.cubemap, irradiance_size, r.irradiance),
        is_prefilter_bake(r.cubemap.cubemap, prefiltered_size, r.prefilter),
        is_brdf_bake(brdf_size, r.brdf),
        r.stages@ == spec_bake_stages(),
        r.bundle == (EnvironmentBundle {
            irradiance: r.irradiance.irradiance,
            prefiltered: r.prefilter.prefiltered,
            brdf: r.brdf.lut,
        }),
        r.bundle.wf(),
{
    let cubemap = equirect_to_cubemap(equirect, cubemap_size);
    let irradiance = cubemap_to_irradiance(&cubemap.cubemap, irradiance_size);
    let prefilter = cubemap_to_prefiltered(&cubemap.cubemap, prefiltered_size);
    let brdf = brdf_lut(brdf_size);
    let mut stages: Vec<BakeStage> = Vec::new();
    stages.push(BakeStage::GenerateCubemap);
    stages.push(BakeStage::GenerateIrradiance);
    stages.push(BakeStage::GeneratePrefiltered);
    stages.push(BakeStage::GenerateBrdf);
    stages.push(BakeStage::ReleaseCubemap);
    proof {
        assert(stages@ =~= spec_bake_stages());
    }
    let bundle = EnvironmentBundle {
        irradiance: irradiance.irradiance,
        prefiltered: prefilter.prefiltered,
        brdf: brdf.lut,
    };
    EnvironmentBake { cubemap, irradiance, prefilter, brdf, stages, bundle }
}

/// In the bake's stage order, the intermediate cubemap is produced
/// before any stage consumes it, and released exactly once, after every
/// stage that consumes it: a shared-but-temporary resource, not
/// retained by the material.
pub proof fn lemma_cubemap_released_after_consumers(stages: Seq<BakeStage>)
    requires
        stages == spec_bake_stages(),
    ensures
        forall|i: int, j: int|
            0 <= i < stages.len() && 0 <= j < stages.len() && stages[i]
                == BakeStage::GenerateCubemap && stage_reads_cubemap(stages[j]) ==> i < j,
        forall|i: int, j: int|
            0 <= i < stages.len() && 0 <= j < stages.len() && stage_reads_cubemap(stages[i])
                && stages[j] == BakeStage::ReleaseCubemap ==> i < j,
        exists|j: int|
            0 <= j < stages.len() && stages[j] == BakeStage::ReleaseCubemap,
        forall|i: int, j: int|
            0 <= i < j < stages.len() && stages[i] == BakeStage::ReleaseCubemap ==> stages[j]
                != BakeStage::ReleaseCubemap,
{
    assert(stages[4] == BakeStage::ReleaseCubemap);
}

/// A bake pass either writes its target or fails.
#[derive(Clone, Copy, Debug, PartialEq, Eq, Structural)]
pub enum BakeError {
    /// A pass's target or shader was invalid mid-sequence; the whole
    /// bake is lost, since a partial set of maps shades to garbage.
    PassExecutionFailure,
}

/// Tracks the execution of a planned bake, pass by pass: how many
/// passes have completed, and whether one failed. A failure is sticky —
/// the bake is all-or-nothing.
#[derive(Clone, Copy, Debug, PartialEq, Eq, Structural)]
pub struct BakeRun {
    /// How many passes the plan holds.
    pub total: usize,
    /// How many passes have completed.
    pub completed: usize,
    /// Whether any pass has failed.
    pub failed: bool,
}

impl BakeRun {
    /// No more passes complete than the plan holds.
    pub open spec fn wf(self) -> bool {
        self.completed <= self.total
    }

    /// True when every pass ran and none failed.
    pub open spec fn spec_complete(self) -> bool {
        self.completed == self.total && !self.failed
    }

    /// Starts tracking a plan of `total` passes.
    pub fn new(total: usize) -> (r: BakeRun)
        ensures
            r == (BakeRun { total, completed: 0, failed: false }),
            r.wf(),
    {
        BakeRun { total, completed: 0, failed: false }
    }

    /// Records the outcome of the next pass. Success advances the run;
    /// failure poisons it for good.
    pub fn record_pass(&mut self, ok: bool)
        requires
            old(self).wf(),
            old(self).completed < old(self).total,
        ensures
            final(self).wf(),
            final(self).total == old(self).total,
            ok ==> *final(self) == (BakeRun {
                completed: (old(self).completed + 1) as usize,
                ..*old(self)
            }),
            !ok ==> *final(self) == (BakeRun { failed: true, ..*old(self) }),
            old(self).failed ==> final(self).failed,
    {
        if ok {
            self.completed = self.completed + 1;
        } else {
            self.failed = true;
        }
    }

    /// The run's outcome: nothing while passes remain, success only
    /// when every pass completed, and the fatal error as soon as any
    /// pass failed.
    pub fn outcome(&self) -> (r: Option<Result<(), BakeError>>)
        ensures
            self.failed ==> r == Some(Err::<(), BakeError>(BakeError::PassExecutionFailure)),
            self.spec_complete() ==> r == Some(Ok::<(), BakeError>(())),
            !self.failed && self.completed < self.total ==> r is None,
    {
        if self.failed {
            Some(Err(BakeError::PassExecutionFailure))
        } else if self.completed >= self.total {
            Some(Ok(()))
        } else {
            None
        }
    }
}

} // verus!
