use vstd::prelude::*;

use crate::assets::asset_map::position_of;
use crate::assets::documents::Id as GltfId;
use crate::assets::textures::{Id as TextureId, Textures};

verus! {

/// Flag of a material: it has a base color texture.
pub const HAS_BASE_COLOR_TEXTURE: u32 = 0b0000_0001;

/// Flag of a material: it has a metallic-roughness texture.
pub const HAS_METALLIC_ROUGHNESS_TEXTURE: u32 = 0b0000_0010;

/// Flag of a material: it has an emissive texture.
pub const HAS_EMISSIVE_TEXTURE: u32 = 0b0000_0100;

/// Flag of a material: it has an occlusion texture.
pub const HAS_OCCLUSION_TEXTURE: u32 = 0b0000_1000;

/// Flag of a material: it has a normal texture.
pub const HAS_NORMAL_TEXTURE: u32 = 0b0001_0000;

/// Which textures a material has, as flag bits.
#[derive(Clone, Copy, Debug, PartialEq, Eq, PartialOrd, Ord, Structural)]
pub struct MaterialFlags {
    bits: u32,
}

impl MaterialFlags {
    /// The flag bits.
    pub closed spec fn spec_bits(&self) -> u32 {
        self.bits
    }

    /// No flag.
    pub fn empty() -> (f: MaterialFlags)
        ensures
            f.spec_bits() == 0,
    {
        MaterialFlags { bits: 0 }
    }

    /// The flag bits.
    pub fn bits(&self) -> (b: u32)
        ensures
            b == self.spec_bits(),
    {
        self.bits
    }

    /// Whether every flag of `other` is set.
    pub fn contains(&self, other: u32) -> (b: bool)
        ensures
            b == (self.spec_bits() & other == other),
    {
        self.bits & other == other
    }

    /// Sets the flags of `other` where `value` holds, clears them otherwise.
    pub fn set(&mut self, other: u32, value: bool)
        ensures
            final(self).spec_bits() == if value {
                old(self).spec_bits() | other
            } else {
                old(self).spec_bits() & !other
            },
    {
        if value {
            self.bits = self.bits | other;
        } else {
            self.bits = self.bits & !other;
        }
    }
}

/// The flag bits of a material with or without each texture.
pub open spec fn flags_bits(
    base_color: bool,
    metallic_roughness: bool,
    emissive: bool,
    occlusion: bool,
    normal: bool,
) -> u32 {
    ((if base_color { HAS_BASE_COLOR_TEXTURE } else { 0 }) | (if metallic_roughness {
        HAS_METALLIC_ROUGHNESS_TEXTURE
    } else {
        0
    }) | (if emissive { HAS_EMISSIVE_TEXTURE } else { 0 }) | (if occlusion {
        HAS_OCCLUSION_TEXTURE
    } else {
        0
    }) | (if normal { HAS_NORMAL_TEXTURE } else { 0 })) as u32
}

/// The flags of a material tell back which textures it has.
pub proof fn lemma_flags_bits_flags(a: bool, b: bool, c: bool, d: bool, e: bool)
    ensures
        (flags_bits(a, b, c, d, e) & HAS_BASE_COLOR_TEXTURE == HAS_BASE_COLOR_TEXTURE) == a,
        (flags_bits(a, b, c, d, e) & HAS_METALLIC_ROUGHNESS_TEXTURE
            == HAS_METALLIC_ROUGHNESS_TEXTURE) == b,
        (flags_bits(a, b, c, d, e) & HAS_EMISSIVE_TEXTURE == HAS_EMISSIVE_TEXTURE) == c,
        (flags_bits(a, b, c, d, e) & HAS_OCCLUSION_TEXTURE == HAS_OCCLUSION_TEXTURE) == d,
        (flags_bits(a, b, c, d, e) & HAS_NORMAL_TEXTURE == HAS_NORMAL_TEXTURE) == e,
{
    let f = flags_bits(a, b, c, d, e);
    assert(f == ((if a { 1u32 } else { 0u32 }) | (if b { 2u32 } else { 0u32 }) | (if c {
        4u32
    } else {
        0u32
    }) | (if d { 8u32 } else { 0u32 }) | (if e { 16u32 } else { 0u32 })));
    assert(((f & 1u32 == 1u32) == a) && ((f & 2u32 == 2u32) == b) && ((f & 4u32 == 4u32) == c)
        && ((f & 8u32 == 8u32) == d) && ((f & 16u32 == 16u32) == e)) by (bit_vector)
        requires
            f == ((if a { 1u32 } else { 0u32 }) | (if b { 2u32 } else { 0u32 }) | (if c {
                4u32
            } else {
                0u32
            }) | (if d { 8u32 } else { 0u32 }) | (if e { 16u32 } else { 0u32 })),
    ;
}

/// The textures a material samples, each by id where it has one.
#[derive(Clone, Copy, Debug, PartialEq, Eq, Structural)]
pub struct MaterialTextures {
    pub base_color_texture: Option<TextureId>,
    pub emissive_texture: Option<TextureId>,
    pub metallic_roughness_texture: Option<TextureId>,
    pub normal_texture: Option<TextureId>,
    pub occlusion_texture: Option<TextureId>,
}

/// The bind group slots of a material's textures (0 for the stand-in
/// texture) and its flags, as the shaders read them.
#[derive(Clone, Copy, Debug, PartialEq, Eq, Structural)]
pub struct TextureSlots {
    pub base_color_texture: u32,
    pub metallic_roughness_texture: u32,
    pub emissive_texture: u32,
    pub normal_texture: u32,
    pub occlusion_texture: u32,
    pub flags: MaterialFlags,
}

/// The slot of the texture a material names, if loaded: one past its
/// position, truncated to 32 bits; 0 where it names none or names one not
/// loaded.
pub open spec fn slot_of<T>(textures: Textures<T>, id: Option<TextureId>) -> u32 {
    match id {
        Some(i) => if textures.has(i) {
            (position_of(textures.entries(), i) + 1) as u32
        } else {
            0
        },
        None => 0,
    }
}

/// Whether `slot` is the bind-group slot of the texture `id` names, told
/// by the registry itself: for a loaded texture (at a position that fits
/// 32 bits), the registry entry just before that slot, slot 0 being the
/// stand-in, is the texture's own entry; for an id naming nothing, or
/// nothing loaded, the slot is 0.
pub open spec fn slot_points_to<T>(textures: Textures<T>, id: Option<TextureId>, slot: u32) -> bool {
    match id {
        Some(i) => if textures.has(i) {
            position_of(textures.entries(), i) + 1 < 0x1_0000_0000 ==> {
                &&& slot >= 1
                &&& textures.entries()[slot - 1].0 == i
            }
        } else {
            slot == 0
        },
        None => slot == 0,
    }
}

/// A material's slot for a loaded texture leads back to that texture in
/// the registry, whatever kind of id names it, and two different loaded
/// textures get different slots; an id naming nothing loaded gets the
/// stand-in's slot 0.
pub proof fn lemma_slot_is_registry_index<T>(
    textures: Textures<T>,
    id: Option<TextureId>,
    other: Option<TextureId>,
)
    ensures
        slot_points_to(textures, id, slot_of(textures, id)),
        id is Some && textures.has(id.unwrap()) ==> slot_of(textures, id) == (position_of(
            textures.entries(),
            id.unwrap(),
        ) + 1) as u32,
        ({
            &&& id is Some && textures.has(id.unwrap())
            &&& position_of(textures.entries(), id.unwrap()) + 1 < 0x1_0000_0000
            &&& other is Some && textures.has(other.unwrap())
            &&& position_of(textures.entries(), other.unwrap()) + 1 < 0x1_0000_0000
            &&& id != other
        }) ==> slot_of(textures, id) != slot_of(textures, other),
{
    if let Some(i) = id {
        if textures.has(i) {
            let p = position_of(textures.entries(), i);
            assert(crate::assets::asset_map::key_at(textures.entries(), i, p));
        }
    }
    if let Some(j) = other {
        if textures.has(j) {
            let q = position_of(textures.entries(), j);
            assert(crate::assets::asset_map::key_at(textures.entries(), j, q));
        }
    }
}

/// The slot of the texture `id` names.
fn slot<T>(textures: &Textures<T>, id: Option<TextureId>) -> (s: u32)
    ensures
        s == slot_of(*textures, id),
{
    match id {
        Some(i) => match textures.id_to_bindgroup_index(i) {
            Some(s) => s as u32,
            None => 0,
        },
        None => 0,
    }
}

/// The id of the texture of index `index` in glTF document `gltf_id`,
/// where an index is given.
pub open spec fn gltf_texture(gltf_id: GltfId, index: Option<usize>) -> Option<TextureId> {
    match index {
        Some(i) => Some(TextureId::Gltf(gltf_id, i)),
        None => None,
    }
}

/// The id of the texture of index `index` in glTF document `gltf_id`.
fn gltf_texture_id(gltf_id: GltfId, index: Option<usize>) -> (t: Option<TextureId>)
    ensures
        t == gltf_texture(gltf_id, index),
{
    match index {
        Some(i) => Some(TextureId::Gltf(gltf_id, i)),
        None => None,
    }
}

impl MaterialTextures {
    /// No texture.
    pub fn none() -> (t: MaterialTextures)
        ensures
            t.base_color_texture is None,
            t.emissive_texture is None,
            t.metallic_roughness_texture is None,
            t.normal_texture is None,
            t.occlusion_texture is None,
    {
        MaterialTextures {
            base_color_texture: None,
            emissive_texture: None,
            metallic_roughness_texture: None,
            normal_texture: None,
            occlusion_texture: None,
        }
    }

    /// The textures of a material of glTF document `gltf_id`, from the
    /// indices in that document of the textures it samples, if any.
    pub fn from_gltf(
        gltf_id: GltfId,
        base_color: Option<usize>,
        emissive: Option<usize>,
        metallic_roughness: Option<usize>,
        normal: Option<usize>,
        occlusion: Option<usize>,
    ) -> (t: MaterialTextures)
        ensures
            t.base_color_texture == gltf_texture(gltf_id, base_color),
            t.emissive_texture == gltf_texture(gltf_id, emissive),
            t.metallic_roughness_texture == gltf_texture(gltf_id, metallic_roughness),
            t.normal_texture == gltf_texture(gltf_id, normal),
            t.occlusion_texture == gltf_texture(gltf_id, occlusion),
    {
        MaterialTextures {
            base_color_texture: gltf_texture_id(gltf_id, base_color),
            emissive_texture: gltf_texture_id(gltf_id, emissive),
            metallic_roughness_texture: gltf_texture_id(gltf_id, metallic_roughness),
            normal_texture: gltf_texture_id(gltf_id, normal),
            occlusion_texture: gltf_texture_id(gltf_id, occlusion),
        }
    }

    /// The flags of the textures the material has.
    pub fn calculate_flags(&self) -> (f: MaterialFlags)
        ensures
            f.spec_bits() == flags_bits(
                self.base_color_texture is Some,
                self.metallic_roughness_texture is Some,
                self.emissive_texture is Some,
                self.occlusion_texture is Some,
                self.normal_texture is Some,
            ),
    {
        let a = self.base_color_texture.is_some();
        let b = self.metallic_roughness_texture.is_some();
        let c = self.emissive_texture.is_some();
        let d = self.occlusion_texture.is_some();
        let e = self.normal_texture.is_some();
        let mut flags = MaterialFlags::empty();
        let f0 = flags.bits();
        flags.set(HAS_BASE_COLOR_TEXTURE, a);
        let f1 = flags.bits();
        flags.set(HAS_METALLIC_ROUGHNESS_TEXTURE, b);
        let f2 = flags.bits();
        flags.set(HAS_EMISSIVE_TEXTURE, c);
        let f3 = flags.bits();
        flags.set(HAS_OCCLUSION_TEXTURE, d);
        let f4 = flags.bits();
        flags.set(HAS_NORMAL_TEXTURE, e);
        let f5 = flags.bits();
        assert(f5 == flags_bits(a, b, c, d, e)) by (bit_vector)
            requires
                f0 == 0u32,
                f1 == if a { f0 | 1u32 } else { f0 & !1u32 },
                f2 == if b { f1 | 2u32 } else { f1 & !2u32 },
                f3 == if c { f2 | 4u32 } else { f2 & !4u32 },
                f4 == if d { f3 | 8u32 } else { f3 & !8u32 },
                f5 == if e { f4 | 16u32 } else { f4 & !16u32 },
        ;
        flags
    }

    /// The slots of the material's textures among `textures`, and its flags.
    pub fn as_slots<T>(&self, textures: &Textures<T>) -> (s: TextureSlots)
        ensures
            s.base_color_texture == slot_of(*textures, self.base_color_texture),
            s.metallic_roughness_texture == slot_of(*textures, self.metallic_roughness_texture),
            s.emissive_texture == slot_of(*textures, self.emissive_texture),
            s.normal_texture == slot_of(*textures, self.normal_texture),
            s.occlusion_texture == slot_of(*textures, self.occlusion_texture),
            slot_points_to(*textures, self.base_color_texture, s.base_color_texture),
            slot_points_to(
                *textures,
                self.metallic_roughness_texture,
                s.metallic_roughness_texture,
            ),
            slot_points_to(*textures, self.emissive_texture, s.emissive_texture),
            slot_points_to(*textures, self.normal_texture, s.normal_texture),
            slot_points_to(*textures, self.occlusion_texture, s.occlusion_texture),
            s.flags.spec_bits() == flags_bits(
                self.base_color_texture is Some,
                self.metallic_roughness_texture is Some,
                self.emissive_texture is Some,
                self.occlusion_texture is Some,
                self.normal_texture is Some,
            ),
    {
        proof {
            lemma_slot_is_registry_index(*textures, self.base_color_texture, None);
            lemma_slot_is_registry_index(*textures, self.metallic_roughness_texture, None);
            lemma_slot_is_registry_index(*textures, self.emissive_texture, None);
            lemma_slot_is_registry_index(*textures, self.normal_texture, None);
            lemma_slot_is_registry_index(*textures, self.occlusion_texture, None);
        }
        TextureSlots {
            base_color_texture: slot(textures, self.base_color_texture),
            metallic_roughness_texture: slot(textures, self.metallic_roughness_texture),
            emissive_texture: slot(textures, self.emissive_texture),
            normal_texture: slot(textures, self.normal_texture),
            occlusion_texture: slot(textures, self.occlusion_texture),
            flags: self.calculate_flags(),
        }
    }
}

} // verus!
