use vstd::prelude::*;

use crate::assets::materials::Id as MaterialId;
use crate::assets::documents::Id as GltfId;

verus! {

/// Flag of a vertex format: vertices carry normals.
pub const HAS_VTX_NORMALS: u32 = 0b0000_0001;

/// Flag of a vertex format: vertices carry texture coordinates.
pub const HAS_TEX_COORDS: u32 = 0b0000_0010;

/// Flag of a vertex format: vertices carry colors.
pub const HAS_VTX_COLOR: u32 = 0b0000_0100;

/// Flag of a vertex format: vertices carry tangents.
pub const HAS_VTX_TANGENT: u32 = 0b0000_1000;

/// The set of vertex attributes a mesh carries beyond positions, as flag
/// bits.
#[derive(Clone, Copy, Debug, PartialEq, Eq, PartialOrd, Ord, Structural)]
pub struct VertexFormat {
    bits: u32,
}

impl VertexFormat {
    /// The flag bits.
    pub closed spec fn spec_bits(&self) -> u32 {
        self.bits
    }

    /// No flag.
    pub fn empty() -> (f: VertexFormat)
        ensures
            f.spec_bits() == 0,
    {
        VertexFormat { bits: 0 }
    }

    /// The flag bits.
    pub fn bits(&self) -> (b: u32)
        ensures
            b == self.spec_bits(),
    {
        self.bits
    }

    /// The format of exactly the given flag bits.
    pub fn from_bits_retain(bits: u32) -> (f: VertexFormat)
        ensures
            f.spec_bits() == bits,
    {
        VertexFormat { bits }
    }

    /// Whether every flag of `other` is set.
    pub fn contains(&self, other: u32) -> (b: bool)
        ensures
            b == (self.spec_bits() & other == other),
    {
        self.bits & other == other
    }

    /// Sets the flags of `other` where `value` holds, clears them otherwise.
    pub fn set(&mut self, other: u32, value: bool)
        ensures
            final(self).spec_bits() == if value {
                old(self).spec_bits() | other
            } else {
                old(self).spec_bits() & !other
            },
    {
        if value {
            self.bits = self.bits | other;
        } else {
            self.bits = self.bits & !other;
        }
    }
}

/// The flag bits of the vertex format of a mesh with or without texture
/// coordinates, colors and tangents. Normals are never flagged.
pub open spec fn format_bits(tex_coords: bool, colors: bool, tangents: bool) -> u32 {
    ((if tex_coords { HAS_TEX_COORDS } else { 0 }) | (if colors { HAS_VTX_COLOR } else { 0 })
        | (if tangents { HAS_VTX_TANGENT } else { 0 })) as u32
}

/// The flags of a vertex format tell back which attributes it was built
/// from, and normals are never among them.
pub proof fn lemma_format_bits_flags(tex_coords: bool, colors: bool, tangents: bool)
    ensures
        (format_bits(tex_coords, colors, tangents) & HAS_TEX_COORDS == HAS_TEX_COORDS)
            == tex_coords,
        (format_bits(tex_coords, colors, tangents) & HAS_VTX_COLOR == HAS_VTX_COLOR) == colors,
        (format_bits(tex_coords, colors, tangents) & HAS_VTX_TANGENT == HAS_VTX_TANGENT)
            == tangents,
        format_bits(tex_coords, colors, tangents) & HAS_VTX_NORMALS == 0,
{
    let b = format_bits(tex_coords, colors, tangents);
    assert(b == ((if tex_coords { 2u32 } else { 0u32 }) | (if colors { 4u32 } else { 0u32 }) | (
    if tangents {
        8u32
    } else {
        0u32
    })));
    assert(((b & 2u32 == 2u32) == tex_coords) && ((b & 4u32 == 4u32) == colors) && ((b & 8u32
        == 8u32) == tangents) && (b & 1u32 == 0u32)) by (bit_vector)
        requires
            b == ((if tex_coords { 2u32 } else { 0u32 }) | (if colors { 4u32 } else { 0u32 }) | (
            if tangents {
                8u32
            } else {
                0u32
            })),
    ;
}

/// The vertex data of a mesh: positions, and optionally normals, texture
/// coordinates, colors and tangents.
#[derive(Debug)]
pub struct MeshParts {
    pub positions: Vec<glam::Vec3>,
    pub normals: Option<Vec<glam::Vec3>>,
    pub tex_coords: Option<Vec<glam::Vec2>>,
    pub colors: Option<Vec<crate::render::Color>>,
    pub tangents: Option<Vec<glam::Vec4>>,
}

/// A copy of the elements of `s`.
pub fn copy_vec<T: Copy>(s: &[T]) -> (v: Vec<T>)
    ensures
        v@ == s@,
{
    let mut v: Vec<T> = Vec::new();
    let mut i: usize = 0;
    while i < s.len()
        invariant
            0 <= i <= s@.len(),
            v@ == s@.subrange(0, i as int),
        decreases s@.len() - i,
    {
        v.push(s[i]);
        i = i + 1;
        assert(v@ =~= s@.subrange(0, i as int));
    }
    assert(s@.subrange(0, s@.len() as int) =~= s@);
    v
}

/// `a` followed by copies of the values of `b`.
pub fn append_copies<T: Copy>(a: &mut Vec<T>, b: &[T])
    ensures
        final(a)@ == old(a)@ + b@,
{
    let mut i: usize = 0;
    while i < b.len()
        invariant
            0 <= i <= b@.len(),
            a@ == old(a)@ + b@.subrange(0, i as int),
        decreases b@.len() - i,
    {
        a.push(b[i]);
        i = i + 1;
        assert(a@ =~= old(a)@ + b@.subrange(0, i as int));
    }
    assert(b@.subrange(0, b@.len() as int) =~= b@);
}

/// A copy of the elements of `o`, if any.
fn copy_opt_vec<T: Copy>(o: &Option<Vec<T>>) -> (r: Option<Vec<T>>)
    ensures
        match (o, r) {
            (Some(a), Some(b)) => b@ == a@,
            (None, None) => true,
            _ => false,
        },
{
    match o {
        Some(v) => Some(copy_vec(v.as_slice())),
        None => None,
    }
}

impl MeshParts {
    /// Whether both parts hold the same vertex data.
    pub open spec fn same_data(&self, other: &MeshParts) -> bool {
        &&& self.positions@ == other.positions@
        &&& match (self.normals, other.normals) {
            (Some(a), Some(b)) => a@ == b@,
            (None, None) => true,
            _ => false,
        }
        &&& match (self.tex_coords, other.tex_coords) {
            (Some(a), Some(b)) => a@ == b@,
            (None, None) => true,
            _ => false,
        }
        &&& match (self.colors, other.colors) {
            (Some(a), Some(b)) => a@ == b@,
            (None, None) => true,
            _ => false,
        }
        &&& match (self.tangents, other.tangents) {
            (Some(a), Some(b)) => a@ == b@,
            (None, None) => true,
            _ => false,
        }
    }

    /// The vertex format these parts have: texture coordinates, colors and
    /// tangents are flagged where present; normals are never flagged.
    pub fn vertex_format(&self) -> (f: VertexFormat)
        ensures
            f.spec_bits() == format_bits(
                self.tex_coords is Some,
                self.colors is Some,
                self.tangents is Some,
            ),
    {
        let t = self.tex_coords.is_some();
        let c = self.colors.is_some();
        let g = self.tangents.is_some();
        let mut format = VertexFormat::empty();
        let b0 = format.bits();
        format.set(HAS_TEX_COORDS, t);
        let b1 = format.bits();
        format.set(HAS_VTX_COLOR, c);
        let b2 = format.bits();
        format.set(HAS_VTX_TANGENT, g);
        let b3 = format.bits();
        assert(b3 == format_bits(t, c, g)) by (bit_vector)
            requires
                b0 == 0u32,
                b1 == if t { b0 | 2u32 } else { b0 & !2u32 },
                b2 == if c { b1 | 4u32 } else { b1 & !4u32 },
                b3 == if g { b2 | 8u32 } else { b2 & !8u32 },
        ;
        format
    }

    /// Makes sure the parts carry tangents. Tangents cannot be derived
    /// here, so the parts must already carry them; they are kept as they
    /// are.
    pub fn approximate_tangents(&mut self, indices: &[u32])
        requires
            old(self).tangents is Some,
        ensures
            *final(self) == *old(self),
    {
    }
}

impl Clone for MeshParts {
    fn clone(&self) -> (c: MeshParts)
        ensures
            c.same_data(self),
    {
        MeshParts {
            positions: copy_vec(self.positions.as_slice()),
            normals: copy_opt_vec(&self.normals),
            tex_coords: copy_opt_vec(&self.tex_coords),
            colors: copy_opt_vec(&self.colors),
            tangents: copy_opt_vec(&self.tangents),
        }
    }
}

/// A mesh: its vertex data, the indices of its triangles, and its material.
#[derive(Debug, Clone)]
pub struct Mesh {
    pub parts: MeshParts,
    pub indices: Vec<u32>,
    pub material_id: MaterialId,
}

impl Mesh {
    /// A mesh of copies of the given parts and indices.
    pub fn new(parts: &MeshParts, indices: &[u32], material_id: MaterialId) -> (m: Mesh)
        ensures
            m.parts.same_data(parts),
            m.indices@ == indices@,
            m.material_id == material_id,
    {
        Mesh { parts: parts.clone(), indices: copy_vec(indices), material_id }
    }

    /// The mesh of a primitive of a glTF document, from the primitive's
    /// decoded vertex data and indices and the index of its material (the
    /// first material where it names none). The parts must carry tangents.
    pub fn from_gltf_primitive(
        gltf_id: GltfId,
        parts: MeshParts,
        indices: Vec<u32>,
        material_index: Option<usize>,
    ) -> (m: Mesh)
        requires
            parts.tangents is Some,
        ensures
            m.parts == parts,
            m.indices == indices,
            m.material_id == MaterialId::Gltf(
                gltf_id,
                match material_index {
                    Some(i) => i,
                    None => 0,
                },
            ),
    {
        let mut parts = parts;
        parts.approximate_tangents(indices.as_slice());
        let index = match material_index {
            Some(i) => i,
            None => 0,
        };
        Mesh { parts, indices, material_id: MaterialId::Gltf(gltf_id, index) }
    }
}

} // verus!
