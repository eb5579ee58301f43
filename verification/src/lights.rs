//! A fixed-capacity registry of lights, pushed to shader uniforms.
//!
//! The shader declares a fixed-size array of lights, so the registry
//! bounds registration at a capacity chosen up front and reports an
//! overflow instead of dropping a light. A light's slot in the array is
//! its registration index; no reordering ever happens. Uniform locations
//! are resolved once, at registration, and cached with the light.

use vstd::prelude::*;

use crate::uniforms::{
    loc_resolves, Rgba, ShaderProgram, UniformName, UniformSlot, UniformValue, VecI3,
};

verus! {

/// The kind of a light source.
#[derive(Clone, Copy, Debug, PartialEq, Eq, Structural)]
pub enum LightKind {
    /// A light that shines in one direction from infinitely far away.
    Directional,
    /// A light that radiates from a position.
    Point,
}

/// The integer code the shader's `lights[i].type` uniform expects.
pub open spec fn spec_kind_code(kind: LightKind) -> i32 {
    match kind {
        LightKind::Directional => 0,
        LightKind::Point => 1,
    }
}

/// The integer code the shader's `lights[i].type` uniform expects.
pub fn kind_code(kind: LightKind) -> (c: i32)
    ensures
        c == spec_kind_code(kind),
{
    match kind {
        LightKind::Directional => 0,
        LightKind::Point => 1,
    }
}

/// One light's parameters, as the application mutates them between
/// pushes. Changes reach the GPU only on an explicit push.
#[derive(Clone, Copy, Debug, PartialEq, Eq, Structural)]
pub struct Light {
    /// Point or directional.
    pub kind: LightKind,
    /// World position, components in thousandths.
    pub position: VecI3,
    /// The point the light aims at, components in thousandths.
    pub target: VecI3,
    /// Light color.
    pub color: Rgba,
    /// Whether the light contributes illumination.
    pub enabled: bool,
}

/// The uniform locations of one light's five fields, resolved once at
/// registration. A field the shader omits stays unresolved and its
/// pushes are no-ops.
#[derive(Clone, Copy, Debug, PartialEq, Eq, Structural)]
pub struct LightLocations {
    /// Location of `lights[i].position`.
    pub position: Option<usize>,
    /// Location of `lights[i].target`.
    pub target: Option<usize>,
    /// Location of `lights[i].color`.
    pub color: Option<usize>,
    /// Location of `lights[i].enabled`.
    pub enabled: Option<usize>,
    /// Location of `lights[i].type`.
    pub kind: Option<usize>,
}

/// A registered light together with its cached uniform locations.
#[derive(Clone, Copy, Debug, PartialEq, Eq, Structural)]
pub struct RegisteredLight {
    /// The light's current parameters.
    pub light: Light,
    /// Locations cached from the shader the light was registered against.
    pub locs: LightLocations,
}

/// Registration failure: the shader-side light array is full.
#[derive(Clone, Copy, Debug, PartialEq, Eq, Structural)]
pub enum RegistryError {
    /// The registry already holds as many lights as its capacity.
    CapacityExceeded,
}

/// True when all five cached locations of the light at `index` are
/// resolutions against `slots`.
pub open spec fn locs_resolve(slots: Seq<UniformSlot>, index: int, locs: LightLocations) -> bool {
    &&& loc_resolves(slots, UniformName::LightPosition(index as usize), locs.position)
    &&& loc_resolves(slots, UniformName::LightTarget(index as usize), locs.target)
    &&& loc_resolves(slots, UniformName::LightColor(index as usize), locs.color)
    &&& loc_resolves(slots, UniformName::LightEnabled(index as usize), locs.enabled)
    &&& loc_resolves(slots, UniformName::LightType(index as usize), locs.kind)
}

/// The value a push of `light` at array slot `index` writes under
/// `name`, if that push writes the name at all.
pub open spec fn light_uniform_value(light: Light, index: int, name: UniformName) -> Option<
    UniformValue,
> {
    match name {
        UniformName::LightPosition(i) => if i == index {
            Some(UniformValue::Vec3(light.position))
        } else {
            None
        },
        UniformName::LightTarget(i) => if i == index {
            Some(UniformValue::Vec3(light.target))
        } else {
            None
        },
        UniformName::LightColor(i) => if i == index {
            Some(UniformValue::Color(light.color))
        } else {
            None
        },
        UniformName::LightEnabled(i) => if i == index {
            Some(UniformValue::Int(if light.enabled { 1 } else { 0 }))
        } else {
            None
        },
        UniformName::LightType(i) => if i == index {
            Some(UniformValue::Int(spec_kind_code(light.kind)))
        } else {
            None
        },
        _ => None,
    }
}

/// The value a push of every light in `entries` writes under `name`, if
/// any light writes it. Array indices are unique, so at most one does.
pub open spec fn registry_uniform_value(entries: Seq<RegisteredLight>, name: UniformName) -> Option<
    UniformValue,
> {
    match name {
        UniformName::LightPosition(i) => if i < entries.len() {
            Some(UniformValue::Vec3(entries[i as int].light.position))
        } else {
            None
        },
        UniformName::LightTarget(i) => if i < entries.len() {
            Some(UniformValue::Vec3(entries[i as int].light.target))
        } else {
            None
        },
        UniformName::LightColor(i) => if i < entries.len() {
            Some(UniformValue::Color(entries[i as int].light.color))
        } else {
            None
        },
        UniformName::LightEnabled(i) => if i < entries.len() {
            Some(UniformValue::Int(if entries[i as int].light.enabled { 1 } else { 0 }))
        } else {
            None
        },
        UniformName::LightType(i) => if i < entries.len() {
            Some(UniformValue::Int(spec_kind_code(entries[i as int].light.kind)))
        } else {
            None
        },
        _ => None,
    }
}

/// The fixed-capacity, registration-ordered pool of lights.
#[derive(Debug)]
pub struct LightRegistry {
    /// Registered lights, in registration order; the index of a light
    /// here is its index in the shader's light array.
    pub entries: Vec<RegisteredLight>,
    /// The shader-side array bound; registration beyond it fails.
    pub capacity: usize,
}

impl LightRegistry {
    /// The registry never outgrows its capacity.
    pub open spec fn wf(self) -> bool {
        self.entries@.len() <= self.capacity
    }

    /// True when every cached location still resolves against `shader`.
    /// Uniform writes keep names in place, so this survives every push
    /// and every value write; only swapping the shader itself breaks it.
    pub open spec fn wf_for(self, shader: ShaderProgram) -> bool {
        forall|k: int|
            0 <= k < self.entries@.len() ==> locs_resolve(
                shader.slots@,
                k,
                #[trigger] self.entries@[k].locs,
            )
    }

    /// An empty registry for a light array of `capacity` slots.
    pub fn new(capacity: usize) -> (r: LightRegistry)
        ensures
            r.wf(),
            r.capacity == capacity,
            r.entries@.len() == 0,
            forall|shader: ShaderProgram| r.wf_for(shader),
    {
        LightRegistry { entries: Vec::new(), capacity }
    }

    /// How many lights have been registered.
    pub fn len(&self) -> (n: usize)
        ensures
            n == self.entries@.len(),
    {
        self.entries.len()
    }

    /// The registry's fixed capacity.
    pub fn capacity(&self) -> (n: usize)
        ensures
            n == self.capacity,
    {
        self.capacity
    }

    /// The parameters of the light registered at `id`.
    pub fn light(&self, id: usize) -> (r: Option<Light>)
        ensures
            id < self.entries@.len() ==> r == Some(self.entries@[id as int].light),
            id >= self.entries@.len() ==> r is None,
    {
        if id < self.entries.len() {
            Some(self.entries[id].light)
        } else {
            None
        }
    }

    /// Registers a light: resolves its five uniform locations against
    /// `shader` for the next free array index and appends it. When the
    /// array is full the registry reports the overflow and is unchanged.
    pub fn register(&mut self, light: Light, shader: &ShaderProgram) -> (r: Result<
        usize,
        RegistryError,
    >)
        requires
            old(self).wf(),
            shader.wf(),
        ensures
            final(self).wf(),
            final(self).capacity == old(self).capacity,
            old(self).entries@.len() < old(self).capacity ==> {
                &&& r == Ok::<usize, RegistryError>(old(self).entries@.len() as usize)
                &&& final(self).entries@.len() == old(self).entries@.len() + 1
                &&& forall|k: int|
                    0 <= k < old(self).entries@.len() ==> final(self).entries@[k] == old(
                        self,
                    ).entries@[k]
                &&& final(self).entries@.last().light == light
                &&& locs_resolve(
                    shader.slots@,
                    old(self).entries@.len() as int,
                    final(self).entries@.last().locs,
                )
            },
            old(self).entries@.len() >= old(self).capacity ==> {
                &&& r == Err::<usize, RegistryError>(RegistryError::CapacityExceeded)
                &&& *final(self) == *old(self)
            },
            old(self).wf_for(*shader) ==> final(self).wf_for(*shader),
    {
        if self.entries.len() >= self.capacity {
            return Err(RegistryError::CapacityExceeded);
        }
        let index = self.entries.len();
        let locs = LightLocations {
            position: shader.get_location(UniformName::LightPosition(index)),
            target: shader.get_location(UniformName::LightTarget(index)),
            color: shader.get_location(UniformName::LightColor(index)),
            enabled: shader.get_location(UniformName::LightEnabled(index)),
            kind: shader.get_location(UniformName::LightType(index)),
        };
        self.entries.push(RegisteredLight { light, locs });
        Ok(index)
    }

    /// Enables or disables the light at `id`, touching nothing else.
    /// Returns whether `id` names a registered light.
    pub fn set_enabled(&mut self, id: usize, enabled: bool) -> (ok: bool)
        ensures
            ok == (id < old(self).entries@.len()),
            final(self).capacity == old(self).capacity,
            final(self).entries@.len() == old(self).entries@.len(),
            forall|k: int|
                0 <= k < old(self).entries@.len() && k != id ==> final(self).entries@[k] == old(
                    self,
                ).entries@[k],
            id < old(self).entries@.len() ==> final(self).entries@[id as int] == (RegisteredLight {
                light: Light { enabled, ..old(self).entries@[id as int].light },
                locs: old(self).entries@[id as int].locs,
            }),
            id >= old(self).entries@.len() ==> *final(self) == *old(self),
    {
        if id < self.entries.len() {
            let entry = self.entries[id];
            self.entries.set(
                id,
                RegisteredLight { light: Light { enabled, ..entry.light }, locs: entry.locs },
            );
            true
        } else {
            false
        }
    }

    /// Moves the light at `id`, touching nothing else. Returns whether
    /// `id` names a registered light.
    pub fn set_position(&mut self, id: usize, position: VecI3) -> (ok: bool)
        ensures
            ok == (id < old(self).entries@.len()),
            final(self).capacity == old(self).capacity,
            final(self).entries@.len() == old(self).entries@.len(),
            forall|k: int|
                0 <= k < old(self).entries@.len() && k != id ==> final(self).entries@[k] == old(
                    self,
                ).entries@[k],
            id < old(self).entries@.len() ==> final(self).entries@[id as int] == (RegisteredLight {
                light: Light { position, ..old(self).entries@[id as int].light },
                locs: old(self).entries@[id as int].locs,
            }),
            id >= old(self).entries@.len() ==> *final(self) == *old(self),
    {
        if id < self.entries.len() {
            let entry = self.entries[id];
            self.entries.set(
                id,
                RegisteredLight { light: Light { position, ..entry.light }, locs: entry.locs },
            );
            true
        } else {
            false
        }
    }

    /// Writes the five uniforms of the light at `id` through its cached
    /// locations. Every slot the light's names do not name keeps its
    /// value; an unresolved field writes nothing.
    pub fn push_to_shader(&self, id: usize, shader: &mut ShaderProgram)
        requires
            id < self.entries@.len(),
            old(shader).wf(),
            locs_resolve(old(shader).slots@, id as int, self.entries@[id as int].locs),
        ensures
            final(shader).wf(),
            final(shader).slots@.len() == old(shader).slots@.len(),
            forall|j: int|
                0 <= j < old(shader).slots@.len() ==> final(shader).slots@[j].name == old(
                    shader,
                ).slots@[j].name,
            forall|j: int|
                0 <= j < old(shader).slots@.len() ==> final(shader).slots@[j].value == (match
                    light_uniform_value(
                    self.entries@[id as int].light,
                    id as int,
                    old(shader).slots@[j].name,
                ) {
                    Some(v) => v,
                    None => old(shader).slots@[j].value,
                }),
    {
        let entry = self.entries[id];
        shader.set_uniform(entry.locs.position, UniformValue::Vec3(entry.light.position));
        shader.set_uniform(entry.locs.target, UniformValue::Vec3(entry.light.target));
        shader.set_uniform(entry.locs.color, UniformValue::Color(entry.light.color));
        shader.set_uniform(
            entry.locs.enabled,
            UniformValue::Int(if entry.light.enabled { 1 } else { 0 }),
        );
        shader.set_uniform(entry.locs.kind, UniformValue::Int(kind_code(entry.light.kind)));
    }

    /// Pushes every registered light, in registration order. Afterwards
    /// each light-array slot the shader declares holds the values of the
    /// light registered at that index, and every other uniform keeps its
    /// value.
    pub fn push_all(&self, shader: &mut ShaderProgram)
        requires
            old(shader).wf(),
            self.wf_for(*old(shader)),
        ensures
            final(shader).wf(),
            final(shader).slots@.len() == old(shader).slots@.len(),
            forall|j: int|
                0 <= j < old(shader).slots@.len() ==> final(shader).slots@[j].name == old(
                    shader,
                ).slots@[j].name,
            forall|j: int|
                0 <= j < old(shader).slots@.len() ==> final(shader).slots@[j].value == (match
                    registry_uniform_value(self.entries@, old(shader).slots@[j].name) {
                    Some(v) => v,
                    None => old(shader).slots@[j].value,
                }),
    {
        let n = self.entries.len();
        let mut k: usize = 0;
        while k < n
            invariant
                n == self.entries@.len(),
                k <= n,
                shader.wf(),
                self.wf_for(*old(shader)),
                shader.slots@.len() == old(shader).slots@.len(),
                forall|j: int|
                    0 <= j < old(shader).slots@.len() ==> shader.slots@[j].name == old(
                        shader,
                    ).slots@[j].name,
                forall|j: int|
                    0 <= j < old(shader).slots@.len() ==> shader.slots@[j].value == (match
                        registry_uniform_value(
                        self.entries@.take(k as int),
                        old(shader).slots@[j].name,
                    ) {
                        Some(v) => v,
                        None => old(shader).slots@[j].value,
                    }),
            decreases n - k,
        {
            proof {
                assert(locs_resolve(old(shader).slots@, k as int, self.entries@[k as int].locs));
                assert(locs_resolve(shader.slots@, k as int, self.entries@[k as int].locs));
            }
            self.push_to_shader(k, shader);
            k += 1;
            proof {
                assert(forall|i: int|
                    0 <= i < k ==> self.entries@.take(k as int)[i] == self.entries@[i]);
            }
        }
        proof {
            assert(self.entries@.take(n as int) =~= self.entries@);
        }
    }
}

} // verus!
