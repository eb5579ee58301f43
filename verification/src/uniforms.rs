//! Shader programs as tables of named uniforms.
//!
//! A compiled shader exposes a set of uniform names, each resolved to a
//! slot. A lookup that fails yields no location, and a write through a
//! missing location is a no-op rather than an error, mirroring the
//! permissive behaviour of GPU uniform APIs. Vector components are held
//! in integer thousandths.

use vstd::prelude::*;

use crate::scalar::UnitScalar;

verus! {

/// A three-component vector, each component in thousandths.
#[derive(Clone, Copy, Debug, PartialEq, Eq, Structural)]
pub struct VecI3 {
    /// X component in thousandths.
    pub x: i32,
    /// Y component in thousandths.
    pub y: i32,
    /// Z component in thousandths.
    pub z: i32,
}

/// A four-component vector, each component in thousandths.
#[derive(Clone, Copy, Debug, PartialEq, Eq, Structural)]
pub struct VecI4 {
    /// X component in thousandths.
    pub x: i32,
    /// Y component in thousandths.
    pub y: i32,
    /// Z component in thousandths.
    pub z: i32,
    /// W component in thousandths.
    pub w: i32,
}

/// An 8-bit-per-channel color.
#[derive(Clone, Copy, Debug, PartialEq, Eq, Structural)]
pub struct Rgba {
    /// Red channel.
    pub r: u8,
    /// Green channel.
    pub g: u8,
    /// Blue channel.
    pub b: u8,
    /// Alpha channel.
    pub a: u8,
}

/// The semantic uniform names the pipeline's shaders expose.
///
/// The light names are indexed by the light's position in the registry,
/// matching the shader's fixed-size light array.
#[derive(Clone, Copy, Debug, PartialEq, Eq, Structural)]
pub enum UniformName {
    /// `albedo.sampler`
    AlbedoSampler,
    /// `albedo.useSampler`
    AlbedoUseSampler,
    /// `normals.sampler`
    NormalsSampler,
    /// `normals.useSampler`
    NormalsUseSampler,
    /// `metalness.sampler`
    MetalnessSampler,
    /// `metalness.useSampler`
    MetalnessUseSampler,
    /// `roughness.sampler`
    RoughnessSampler,
    /// `roughness.useSampler`
    RoughnessUseSampler,
    /// `occlusion.sampler`
    OcclusionSampler,
    /// `occlusion.useSampler`
    OcclusionUseSampler,
    /// `irradianceMap`
    IrradianceMap,
    /// `prefilterMap`
    PrefilterMap,
    /// `brdfLUT`
    BrdfLut,
    /// `matModel`
    MatModel,
    /// `viewPos`
    ViewPos,
    /// `renderMode`
    RenderMode,
    /// `ambient`
    Ambient,
    /// `fogDensity`
    FogDensity,
    /// `equirectangularMap`
    EquirectangularMap,
    /// `environmentMap`
    EnvironmentMap,
    /// `lights[i].position`
    LightPosition(usize),
    /// `lights[i].target`
    LightTarget(usize),
    /// `lights[i].color`
    LightColor(usize),
    /// `lights[i].enabled`
    LightEnabled(usize),
    /// `lights[i].type`
    LightType(usize),
}

/// A value a uniform slot can hold.
#[derive(Clone, Copy, Debug, PartialEq, Eq, Structural)]
pub enum UniformValue {
    /// An integer, also used for booleans and sampler units.
    Int(i32),
    /// A scalar in the unit interval.
    Scalar(UnitScalar),
    /// A three-component vector.
    Vec3(VecI3),
    /// A four-component vector.
    Vec4(VecI4),
    /// An 8-bit color.
    Color(Rgba),
}

/// One uniform of a compiled shader: its semantic name and current value.
#[derive(Clone, Copy, Debug, PartialEq, Eq, Structural)]
pub struct UniformSlot {
    /// The semantic name the shader source declares.
    pub name: UniformName,
    /// The value most recently written, `Int(0)` after compilation.
    pub value: UniformValue,
}

/// True when `name` occurs in `slots`.
pub open spec fn has_uniform(slots: Seq<UniformSlot>, name: UniformName) -> bool {
    exists|j: int| 0 <= j < slots.len() && slots[j].name == name
}

/// True when `loc` is what resolving `name` against `slots` yields:
/// either a slot holding `name`, or nothing when `name` is absent.
pub open spec fn loc_resolves(
    slots: Seq<UniformSlot>,
    name: UniformName,
    loc: Option<usize>,
) -> bool {
    match loc {
        Some(i) => i < slots.len() && slots[i as int].name == name,
        None => !has_uniform(slots, name),
    }
}

/// True when no uniform name occurs twice.
pub open spec fn distinct_slot_names(slots: Seq<UniformSlot>) -> bool {
    forall|i: int, j: int| 0 <= i < j < slots.len() ==> slots[i].name != slots[j].name
}

/// True when no name occurs twice in `names`.
pub open spec fn distinct_names(names: Seq<UniformName>) -> bool {
    forall|i: int, j: int| 0 <= i < j < names.len() ==> names[i] != names[j]
}

/// The value currently held under `name`, if the shader exposes it.
pub open spec fn uniform_value(slots: Seq<UniformSlot>, name: UniformName) -> Option<UniformValue> {
    if has_uniform(slots, name) {
        Some(slots[choose|j: int| 0 <= j < slots.len() && slots[j].name == name].value)
    } else {
        None
    }
}

/// A compiled shader program: its uniform slots in declaration order.
///
/// Uniform values are process-wide shared state: every material bound to
/// this program observes each write, and the last write before a draw
/// wins.
#[derive(Debug)]
pub struct ShaderProgram {
    /// The uniform table; names are distinct in a well-formed program.
    pub slots: Vec<UniformSlot>,
}

impl ShaderProgram {
    /// A program is well-formed when its uniform names are distinct.
    pub open spec fn wf(self) -> bool {
        distinct_slot_names(self.slots@)
    }

    /// Models shader compilation: the linker exposes each declared
    /// uniform once, zero-initialized. Duplicate declarations are
    /// rejected.
    pub fn compile(names: &Vec<UniformName>) -> (r: Option<ShaderProgram>)
        ensures
            (r is Some) == distinct_names(names@),
            match r {
                Some(p) => {
                    &&& p.wf()
                    &&& p.slots@.len() == names@.len()
                    &&& forall|i: int|
                        0 <= i < names@.len() ==> p.slots@[i] == (UniformSlot {
                            name: names@[i],
                            value: UniformValue::Int(0),
                        })
                },
                None => true,
            },
    {
        let mut slots: Vec<UniformSlot> = Vec::new();
        let mut k: usize = 0;
        while k < names.len()
            invariant
                k <= names@.len(),
                slots@.len() == k,
                forall|i: int|
                    0 <= i < k ==> slots@[i] == (UniformSlot {
                        name: names@[i],
                        value: UniformValue::Int(0),
                    }),
                distinct_names(names@.take(k as int)),
            decreases names@.len() - k,
        {
            let mut j: usize = 0;
            while j < k
                invariant
                    j <= k,
                    k < names@.len(),
                    forall|i: int| 0 <= i < j ==> names@[i] != names@[k as int],
                decreases k - j,
            {
                if names[j] == names[k] {
                    assert(!distinct_names(names@));
                    return None;
                }
                j += 1;
            }
            assert(forall|i: int| 0 <= i < k ==> names@.take(k as int)[i] == names@[i]);
            slots.push(UniformSlot { name: names[k], value: UniformValue::Int(0) });
            k += 1;
            assert(forall|i: int| 0 <= i < k ==> names@.take(k as int)[i] == names@[i]);
        }
        assert(names@.take(names@.len() as int) =~= names@);
        Some(ShaderProgram { slots })
    }

    /// Number of uniform slots.
    pub fn slot_count(&self) -> (n: usize)
        ensures
            n == self.slots@.len(),
    {
        self.slots.len()
    }

    /// Resolves a semantic name to its slot, as the uniform-location
    /// lookup of the graphics runtime does. A name the shader does not
    /// declare resolves to nothing.
    pub fn get_location(&self, name: UniformName) -> (r: Option<usize>)
        requires
            self.wf(),
        ensures
            (r is Some) == has_uniform(self.slots@, name),
            match r {
                Some(i) => i < self.slots@.len() && self.slots@[i as int].name == name,
                None => true,
            },
    {
        let n = self.slots.len();
        let mut i: usize = 0;
        while i < n
            invariant
                n == self.slots@.len(),
                i <= n,
                forall|j: int| 0 <= j < i ==> self.slots@[j].name != name,
            decreases n - i,
        {
            if self.slots[i].name == name {
                return Some(i);
            }
            i += 1;
        }
        None
    }

    /// Writes a value through a resolved location. An unresolved or
    /// out-of-range location makes the write a no-op: no slot changes,
    /// and nothing fails.
    pub fn set_uniform(&mut self, loc: Option<usize>, v: UniformValue)
        requires
            old(self).wf(),
        ensures
            final(self).wf(),
            final(self).slots@.len() == old(self).slots@.len(),
            forall|j: int|
                0 <= j < old(self).slots@.len() ==> final(self).slots@[j].name
                    == old(self).slots@[j].name,
            match loc {
                Some(i) => {
                    if i < old(self).slots@.len() {
                        &&& final(self).slots@[i as int].value == v
                        &&& forall|j: int|
                            0 <= j < old(self).slots@.len() && j != i
                                ==> final(self).slots@[j] == old(self).slots@[j]
                    } else {
                        *final(self) == *old(self)
                    }
                },
                None => *final(self) == *old(self),
            },
    {
        match loc {
            Some(i) => {
                if i < self.slots.len() {
                    let name = self.slots[i].name;
                    self.slots.set(i, UniformSlot { name, value: v });
                    assert(forall|a: int, b: int|
                        0 <= a < b < self.slots@.len() ==> self.slots@[a].name
                            == old(self).slots@[a].name && self.slots@[b].name
                            == old(self).slots@[b].name);
                }
            },
            None => {},
        }
    }

    /// Resolves `name` and writes `v` through the resolved location.
    /// Returns whether the shader declares the name; when it does not,
    /// the program is unchanged.
    pub fn set_by_name(&mut self, name: UniformName, v: UniformValue) -> (written: bool)
        requires
            old(self).wf(),
        ensures
            final(self).wf(),
            final(self).slots@.len() == old(self).slots@.len(),
            forall|j: int|
                0 <= j < old(self).slots@.len() ==> final(self).slots@[j].name
                    == old(self).slots@[j].name,
            written == has_uniform(old(self).slots@, name),
            forall|j: int|
                0 <= j < old(self).slots@.len() ==> final(self).slots@[j].value == (if old(
                    self,
                ).slots@[j].name == name {
                    v
                } else {
                    old(self).slots@[j].value
                }),
    {
        let loc = self.get_location(name);
        self.set_uniform(loc, v);
        loc.is_some()
    }

    /// Reads the value currently held under `name`, if the shader
    /// declares it.
    pub fn read_by_name(&self, name: UniformName) -> (r: Option<UniformValue>)
        requires
            self.wf(),
        ensures
            r == uniform_value(self.slots@, name),
    {
        let loc = self.get_location(name);
        match loc {
            Some(i) => {
                let v = self.slots[i].value;
                proof {
                    let j = choose|j: int| 0 <= j < self.slots@.len() && self.slots@[j].name
                        == name;
                    assert(j == i as int);
                }
                Some(v)
            },
            None => None,
        }
    }
}

} // verus!
