//! The lights: the fields that both kinds share, the two kinds, and what the
//! tool does to a light that a pool has just created.

use crate::bytes::lemma_pow256_values;
use crate::definitions::entity::{
    lemma_entity_encoded,
    Entity,
    LightEntityVT,
};
use crate::definitions::values::{
    lemma_settings_encoded,
    LightSettings,
    Position,
    RotationMatrix,
};
use crate::memory::{
    changes_only,
    lemma_changes_only,
    lemma_frames_chain,
    lemma_frames_widen,
    lemma_u8_stored,
    lemma_uint_stored,
    ImageView,
    MemoryImage,
};
use vstd::prelude::*;

verus! {

/// A light of either kind starts with this: the entity, how the light looks,
/// whether it is on, and how it casts shadows.
#[derive(Debug)]
pub struct LightEntity {
    pub entity: Entity<LightEntityVT>,
    pub light_settings: LightSettings,
    pub is_enabled: bool,
    pub shadow_blend_factor: u32,
    pub shadow_casting_mode: u32,
    pub shadow_fade_distance: u32,
    pub shadow_fade_range: u32,
}

pub const LIGHT_SETTINGS_OFFSET: usize = 0x130;

pub const LIGHT_ENABLED_OFFSET: usize = 0x164;

pub const LIGHT_SHADOW_BLEND_OFFSET: usize = 0x16C;

pub const LIGHT_SHADOW_MODE_OFFSET: usize = 0x170;

pub const LIGHT_SHADOW_FADE_DISTANCE_OFFSET: usize = 0x174;

pub const LIGHT_SHADOW_FADE_RANGE_OFFSET: usize = 0x178;

/// The number of bytes of a light that both kinds share.
pub const LIGHT_ENTITY_SIZE: usize = 0x17C;

/// The two bits of an entity's flags that the foreign side sets together
/// once it has reclaimed the object.
pub const DELETION_MASK: u32 = 0x22;

/// Whether `flags` say that the foreign side has reclaimed the object: both
/// bits of the mask are set. One of them alone does not count.
pub open spec fn reclaimed(flags: u32) -> bool {
    flags & DELETION_MASK == DELETION_MASK
}

/// The byte that spells a boolean.
pub open spec fn bool_byte(flag: bool) -> u8 {
    if flag {
        1
    } else {
        0
    }
}

impl LightEntity {
    /// Where the light lives in the foreign process.
    pub open spec fn spec_address(&self) -> usize {
        self.entity.address
    }

    /// Where the light lives in the foreign process.
    pub fn address(&self) -> (addr: usize)
        ensures
            addr == self.spec_address(),
    {
        self.entity.address
    }

    /// Whether the light at `addr` can be read from `view`.
    pub open spec fn readable(view: ImageView, addr: int) -> bool {
        view.covers(addr, LIGHT_ENTITY_SIZE as int) && Entity::<LightEntityVT>::readable(view, addr)
    }

    /// The light stored at `addr`.
    pub open spec fn decoded(view: ImageView, addr: int) -> LightEntity {
        LightEntity {
            entity: Entity::decoded(view, addr),
            light_settings: LightSettings::decoded(view, addr + LIGHT_SETTINGS_OFFSET),
            is_enabled: view.u8_at(addr + LIGHT_ENABLED_OFFSET) != 0,
            shadow_blend_factor: view.u32_at(addr + LIGHT_SHADOW_BLEND_OFFSET),
            shadow_casting_mode: view.u32_at(addr + LIGHT_SHADOW_MODE_OFFSET),
            shadow_fade_distance: view.u32_at(addr + LIGHT_SHADOW_FADE_DISTANCE_OFFSET),
            shadow_fade_range: view.u32_at(addr + LIGHT_SHADOW_FADE_RANGE_OFFSET),
        }
    }

    /// `view` with this light stored at its address.
    pub open spec fn encoded(self, view: ImageView) -> ImageView {
        let addr = self.entity.address as int;
        self.light_settings.encoded(self.entity.encoded(view), addr + LIGHT_SETTINGS_OFFSET).store(
            addr + LIGHT_ENABLED_OFFSET,
            seq![bool_byte(self.is_enabled)],
        ).store_uint(addr + LIGHT_SHADOW_BLEND_OFFSET, 4, self.shadow_blend_factor as nat).store_uint(
            addr + LIGHT_SHADOW_MODE_OFFSET,
            4,
            self.shadow_casting_mode as nat,
        ).store_uint(
            addr + LIGHT_SHADOW_FADE_DISTANCE_OFFSET,
            4,
            self.shadow_fade_distance as nat,
        ).store_uint(addr + LIGHT_SHADOW_FADE_RANGE_OFFSET, 4, self.shadow_fade_range as nat)
    }

    /// Reads the light at `addr`.
    pub fn read(image: &MemoryImage, addr: usize) -> (light: Option<LightEntity>)
        ensures
            light.is_some() == LightEntity::readable(image@, addr as int),
            light.is_some() ==> light.unwrap() == LightEntity::decoded(image@, addr as int),
    {
        if !image.covers(addr, LIGHT_ENTITY_SIZE) {
            return None;
        }
        let entity: Entity<LightEntityVT> = match Entity::read(image, addr) {
            Some(entity) => entity,
            None => {
                return None;
            },
        };
        Some(
            LightEntity {
                entity,
                light_settings: LightSettings::load(image, addr + LIGHT_SETTINGS_OFFSET),
                is_enabled: image.load_u8(addr + LIGHT_ENABLED_OFFSET) != 0,
                shadow_blend_factor: image.load_u32(addr + LIGHT_SHADOW_BLEND_OFFSET),
                shadow_casting_mode: image.load_u32(addr + LIGHT_SHADOW_MODE_OFFSET),
                shadow_fade_distance: image.load_u32(addr + LIGHT_SHADOW_FADE_DISTANCE_OFFSET),
                shadow_fade_range: image.load_u32(addr + LIGHT_SHADOW_FADE_RANGE_OFFSET),
            },
        )
    }

    /// Writes the light to its address, which the image holds.
    pub fn store(&self, image: &mut MemoryImage)
        requires
            old(image)@.covers(self.spec_address() as int, LIGHT_ENTITY_SIZE as int),
        ensures
            final(image)@ == self.encoded(old(image)@),
    {
        let addr: usize = self.entity.address;
        proof {
            lemma_pow256_values();
            lemma_entity_encoded(self.entity, image@);
        }
        self.entity.store(image);
        proof {
            lemma_settings_encoded(self.light_settings, image@, addr + LIGHT_SETTINGS_OFFSET);
        }
        self.light_settings.store(image, addr + LIGHT_SETTINGS_OFFSET);
        proof {
            lemma_u8_stored(image@, addr + LIGHT_ENABLED_OFFSET, bool_byte(self.is_enabled));
        }
        image.store_u8(addr + LIGHT_ENABLED_OFFSET, if self.is_enabled {
            1
        } else {
            0
        });
        proof {
            lemma_uint_stored(
                image@,
                addr + LIGHT_SHADOW_BLEND_OFFSET,
                4,
                self.shadow_blend_factor as nat,
            );
        }
        image.store_u32(addr + LIGHT_SHADOW_BLEND_OFFSET, self.shadow_blend_factor);
        proof {
            lemma_uint_stored(
                image@,
                addr + LIGHT_SHADOW_MODE_OFFSET,
                4,
                self.shadow_casting_mode as nat,
            );
        }
        image.store_u32(addr + LIGHT_SHADOW_MODE_OFFSET, self.shadow_casting_mode);
        proof {
            lemma_uint_stored(
                image@,
                addr + LIGHT_SHADOW_FADE_DISTANCE_OFFSET,
                4,
                self.shadow_fade_distance as nat,
            );
        }
        image.store_u32(addr + LIGHT_SHADOW_FADE_DISTANCE_OFFSET, self.shadow_fade_distance);
        image.store_u32(addr + LIGHT_SHADOW_FADE_RANGE_OFFSET, self.shadow_fade_range);
    }

    /// Whether the foreign side has reclaimed the light. Polled every frame:
    /// a light for which this holds is dropped from tracking and never read
    /// or written again.
    pub fn should_get_deleted(&self) -> (gone: bool)
        ensures
            gone == reclaimed(self.entity.flags),
    {
        (self.entity.flags & DELETION_MASK) == DELETION_MASK
    }
}

/// The light stored is the light read back, and nothing outside the light has
/// changed.
pub proof fn lemma_light_encoded(light: &LightEntity, view: ImageView)
    requires
        view.covers(light.entity.address as int, LIGHT_ENTITY_SIZE as int),
    ensures
        LightEntity::readable(light.encoded(view), light.entity.address as int),
        LightEntity::decoded(light.encoded(view), light.entity.address as int) == *light,
        changes_only(
            view,
            light.encoded(view),
            light.entity.address as int,
            light.entity.address + LIGHT_ENTITY_SIZE,
        ),
{
    let addr = light.entity.address as int;
    let v1 = light.entity.encoded(view);
    let v2 = light.light_settings.encoded(v1, addr + LIGHT_SETTINGS_OFFSET);
    let v3 = v2.store(addr + LIGHT_ENABLED_OFFSET, seq![bool_byte(light.is_enabled)]);
    let v4 = v3.store_uint(addr + LIGHT_SHADOW_BLEND_OFFSET, 4, light.shadow_blend_factor as nat);
    let v5 = v4.store_uint(addr + LIGHT_SHADOW_MODE_OFFSET, 4, light.shadow_casting_mode as nat);
    let v6 = v5.store_uint(
        addr + LIGHT_SHADOW_FADE_DISTANCE_OFFSET,
        4,
        light.shadow_fade_distance as nat,
    );
    let v7 = v6.store_uint(
        addr + LIGHT_SHADOW_FADE_RANGE_OFFSET,
        4,
        light.shadow_fade_range as nat,
    );
    lemma_pow256_values();
    lemma_entity_encoded(light.entity, view);
    lemma_settings_encoded(light.light_settings, v1, addr + LIGHT_SETTINGS_OFFSET);
    lemma_u8_stored(v2, addr + LIGHT_ENABLED_OFFSET, bool_byte(light.is_enabled));
    lemma_uint_stored(v3, addr + LIGHT_SHADOW_BLEND_OFFSET, 4, light.shadow_blend_factor as nat);
    lemma_uint_stored(v4, addr + LIGHT_SHADOW_MODE_OFFSET, 4, light.shadow_casting_mode as nat);
    lemma_uint_stored(
        v5,
        addr + LIGHT_SHADOW_FADE_DISTANCE_OFFSET,
        4,
        light.shadow_fade_distance as nat,
    );
    lemma_uint_stored(
        v6,
        addr + LIGHT_SHADOW_FADE_RANGE_OFFSET,
        4,
        light.shadow_fade_range as nat,
    );
    lemma_changes_only(view, v7, addr, addr + LIGHT_ENTITY_SIZE);
    assert(Entity::<LightEntityVT>::decoded(v7, addr) == light.entity);
}

/// A call of the recompute function of a light, to be made on the foreign
/// side: `(object, world)`, no result. The function is the one whose address
/// the table at `vtable` holds at [`SET_FLAGS_OFFSET`]. Until it is made, a
/// change of the light's fields has no visible effect.
#[derive(Clone, Copy, Debug, PartialEq, Eq, Structural)]
pub struct RecomputeCall {
    pub vtable: usize,
    pub object: usize,
    pub world: usize,
}

/// The bit pattern of the float one.
pub const FLOAT_ONE: u32 = 0x3F80_0000;

/// The bit pattern of the float two: the softness of a new spotlight.
pub const FLOAT_TWO: u32 = 0x4000_0000;

/// The bit pattern of the float five: the radius of a new light.
pub const FLOAT_FIVE: u32 = 0x40A0_0000;

/// The bit pattern of the float thirty: the inner angle of a new spotlight.
pub const FLOAT_THIRTY: u32 = 0x41F0_0000;

/// The bit pattern of the float forty-five: the outer angle of a new spotlight.
pub const FLOAT_FORTY_FIVE: u32 = 0x4234_0000;

/// The bit pattern of the float one thousand: the brightness of a new light.
pub const FLOAT_THOUSAND: u32 = 0x447A_0000;

/// The shadow casting mode of a new light: characters and objects.
pub const SHADOWS_CHARACTERS_AND_OBJECTS: u32 = 1;

impl LightEntity {
    /// The light as the tool sets it up after the foreign constructor, which
    /// guarantees no sane defaults: placed, bright, casting shadows, and on.
    /// What the tool does not care about stays as the constructor left it.
    pub open spec fn populated(self, position: Position, rot: RotationMatrix) -> LightEntity {
        LightEntity {
            entity: Entity { rot_matrix: rot, pos: position, ..self.entity },
            light_settings: LightSettings {
                brightness: FLOAT_THOUSAND,
                radius: FLOAT_FIVE,
                ..self.light_settings
            },
            is_enabled: true,
            shadow_casting_mode: SHADOWS_CHARACTERS_AND_OBJECTS,
            ..self
        }
    }

    /// The recompute call for this light.
    pub open spec fn recompute(self, world: usize) -> RecomputeCall {
        RecomputeCall { vtable: self.entity.vt, object: self.entity.address, world }
    }

    /// Sets the light up after the foreign constructor.
    pub fn populate(&mut self, position: Position, rot: RotationMatrix)
        ensures
            *final(self) == old(self).populated(position, rot),
    {
        self.entity.pos = position;
        self.entity.rot_matrix = rot;
        self.light_settings.brightness = FLOAT_THOUSAND;
        self.light_settings.radius = FLOAT_FIVE;
        self.shadow_casting_mode = SHADOWS_CHARACTERS_AND_OBJECTS;
        self.is_enabled = true;
    }

    /// The call that makes the light's fields take effect.
    pub fn update_render(&self, world: usize) -> (call: RecomputeCall)
        ensures
            call == self.recompute(world),
    {
        RecomputeCall { vtable: self.entity.vt, object: self.entity.address, world }
    }
}

/// Marks the kinds of light that a pool can create.
pub trait LightTypeTrait {

}

/// A light that shines in a cone.
#[derive(Debug)]
pub struct SpotLight {
    pub light: LightEntity,
    pub inner_angle: u32,
    pub outer_angle: u32,
    pub softness: u32,
}

pub const SPOT_INNER_ANGLE_OFFSET: usize = 0x180;

pub const SPOT_OUTER_ANGLE_OFFSET: usize = 0x184;

pub const SPOT_SOFTNESS_OFFSET: usize = 0x188;

/// The number of bytes of a spotlight that this tool knows.
pub const SPOT_LIGHT_SIZE: usize = 0x18C;

impl LightTypeTrait for SpotLight {

}

impl SpotLight {
    /// Whether the spotlight at `addr` can be read from `view`.
    pub open spec fn readable(view: ImageView, addr: int) -> bool {
        view.covers(addr, SPOT_LIGHT_SIZE as int) && LightEntity::readable(view, addr)
    }

    /// The spotlight stored at `addr`.
    pub open spec fn decoded(view: ImageView, addr: int) -> SpotLight {
        SpotLight {
            light: LightEntity::decoded(view, addr),
            inner_angle: view.u32_at(addr + SPOT_INNER_ANGLE_OFFSET),
            outer_angle: view.u32_at(addr + SPOT_OUTER_ANGLE_OFFSET),
            softness: view.u32_at(addr + SPOT_SOFTNESS_OFFSET),
        }
    }

    /// `view` with this spotlight stored at its address.
    pub open spec fn encoded(self, view: ImageView) -> ImageView {
        let addr = self.light.entity.address as int;
        self.light.encoded(view).store_uint(
            addr + SPOT_INNER_ANGLE_OFFSET,
            4,
            self.inner_angle as nat,
        ).store_uint(addr + SPOT_OUTER_ANGLE_OFFSET, 4, self.outer_angle as nat).store_uint(
            addr + SPOT_SOFTNESS_OFFSET,
            4,
            self.softness as nat,
        )
    }

    /// The spotlight as the tool sets it up after the foreign constructor.
    pub open spec fn populated(self, position: Position, rot: RotationMatrix) -> SpotLight {
        SpotLight {
            light: self.light.populated(position, rot),
            inner_angle: FLOAT_THIRTY,
            outer_angle: FLOAT_FORTY_FIVE,
            softness: FLOAT_TWO,
        }
    }

    /// Reads the spotlight at `addr`.
    pub fn read(image: &MemoryImage, addr: usize) -> (light: Option<SpotLight>)
        ensures
            light.is_some() == SpotLight::readable(image@, addr as int),
            light.is_some() ==> light.unwrap() == SpotLight::decoded(image@, addr as int),
    {
        if !image.covers(addr, SPOT_LIGHT_SIZE) {
            return None;
        }
        let light: LightEntity = match LightEntity::read(image, addr) {
            Some(light) => light,
            None => {
                return None;
            },
        };
        Some(
            SpotLight {
                light,
                inner_angle: image.load_u32(addr + SPOT_INNER_ANGLE_OFFSET),
                outer_angle: image.load_u32(addr + SPOT_OUTER_ANGLE_OFFSET),
                softness: image.load_u32(addr + SPOT_SOFTNESS_OFFSET),
            },
        )
    }

    /// Writes the spotlight to its address. Where its bytes are not all in
    /// the image nothing is written and `false` is returned.
    pub fn write(&self, image: &mut MemoryImage) -> (written: bool)
        ensures
            written == old(image)@.covers(self.light.entity.address as int, SPOT_LIGHT_SIZE as int),
            written ==> final(image)@ == self.encoded(old(image)@),
            !written ==> final(image)@ == old(image)@,
    {
        let addr: usize = self.light.entity.address;
        if !image.covers(addr, SPOT_LIGHT_SIZE) {
            return false;
        }
        proof {
            lemma_pow256_values();
            lemma_light_encoded(&self.light, image@);
        }
        self.light.store(image);
        proof {
            lemma_uint_stored(image@, addr + SPOT_INNER_ANGLE_OFFSET, 4, self.inner_angle as nat);
        }
        image.store_u32(addr + SPOT_INNER_ANGLE_OFFSET, self.inner_angle);
        proof {
            lemma_uint_stored(image@, addr + SPOT_OUTER_ANGLE_OFFSET, 4, self.outer_angle as nat);
        }
        image.store_u32(addr + SPOT_OUTER_ANGLE_OFFSET, self.outer_angle);
        image.store_u32(addr + SPOT_SOFTNESS_OFFSET, self.softness);
        true
    }

    /// Takes over the object that the spotlight pool has just created at
    /// `address`: sets up every field the tool cares about, writes the light
    /// to the image, and returns it with the recompute call that makes it
    /// visible. `None`, with the image untouched, where the object cannot be
    /// read.
    pub fn new(
        image: &mut MemoryImage,
        address: usize,
        position: Position,
        rot: RotationMatrix,
        world: usize,
    ) -> (created: Option<(SpotLight, RecomputeCall)>)
        ensures
            created.is_some() == SpotLight::readable(old(image)@, address as int),
            created.is_some() ==> {
                let (light, call) = created.unwrap();
                &&& light == SpotLight::decoded(old(image)@, address as int).populated(
                    position,
                    rot,
                )
                &&& call == light.light.recompute(world)
                &&& final(image)@ == light.encoded(old(image)@)
            },
            created.is_none() ==> final(image)@ == old(image)@,
    {
        let mut light_ptr: SpotLight = match SpotLight::read(image, address) {
            Some(light) => light,
            None => {
                return None;
            },
        };
        light_ptr.light.populate(position, rot);
        light_ptr.inner_angle = FLOAT_THIRTY;
        light_ptr.outer_angle = FLOAT_FORTY_FIVE;
        light_ptr.softness = FLOAT_TWO;
        light_ptr.write(image);
        let call = light_ptr.light.update_render(world);
        Some((light_ptr, call))
    }

    pub fn set_pos_rot(&mut self, pos: Position, rot: RotationMatrix)
        ensures
            *final(self) == (SpotLight {
                light: LightEntity {
                    entity: Entity { rot_matrix: rot, pos, ..old(self).light.entity },
                    ..old(self).light
                },
                ..*old(self)
            }),
    {
        self.light.entity.pos = pos;
        self.light.entity.rot_matrix = rot;
    }

    /// Takes over the angles and the softness that the controls hold.
    pub fn render_ui(&mut self, inner_angle: u32, outer_angle: u32, softness: u32)
        ensures
            *final(self) == (SpotLight { inner_angle, outer_angle, softness, ..*old(self) }),
    {
        self.outer_angle = outer_angle;
        self.inner_angle = inner_angle;
        self.softness = softness;
    }

    /// The call that makes the light's fields take effect.
    pub fn update_render(&self, world: usize) -> (call: RecomputeCall)
        ensures
            call == self.light.recompute(world),
    {
        self.light.update_render(world)
    }
}

/// The spotlight stored is the spotlight read back, and nothing outside the
/// spotlight has changed.
pub proof fn lemma_spot_light_encoded(light: &SpotLight, view: ImageView)
    requires
        view.covers(light.light.entity.address as int, SPOT_LIGHT_SIZE as int),
    ensures
        SpotLight::readable(light.encoded(view), light.light.entity.address as int),
        SpotLight::decoded(light.encoded(view), light.light.entity.address as int) == *light,
        changes_only(
            view,
            light.encoded(view),
            light.light.entity.address as int,
            light.light.entity.address + SPOT_LIGHT_SIZE,
        ),
{
    let addr = light.light.entity.address as int;
    let v1 = light.light.encoded(view);
    let v2 = v1.store_uint(addr + SPOT_INNER_ANGLE_OFFSET, 4, light.inner_angle as nat);
    let v3 = v2.store_uint(addr + SPOT_OUTER_ANGLE_OFFSET, 4, light.outer_angle as nat);
    let v4 = v3.store_uint(addr + SPOT_SOFTNESS_OFFSET, 4, light.softness as nat);
    lemma_pow256_values();
    lemma_light_encoded(&light.light, view);
    lemma_uint_stored(v1, addr + SPOT_INNER_ANGLE_OFFSET, 4, light.inner_angle as nat);
    lemma_uint_stored(v2, addr + SPOT_OUTER_ANGLE_OFFSET, 4, light.outer_angle as nat);
    lemma_uint_stored(v3, addr + SPOT_SOFTNESS_OFFSET, 4, light.softness as nat);
    lemma_changes_only(view, v4, addr, addr + SPOT_LIGHT_SIZE);
    lemma_frames_widen(
        v1,
        v2,
        addr + SPOT_INNER_ANGLE_OFFSET,
        addr + SPOT_INNER_ANGLE_OFFSET + 4,
        addr + LIGHT_ENTITY_SIZE,
        addr + SPOT_LIGHT_SIZE,
    );
    lemma_frames_widen(
        v2,
        v3,
        addr + SPOT_OUTER_ANGLE_OFFSET,
        addr + SPOT_OUTER_ANGLE_OFFSET + 4,
        addr + LIGHT_ENTITY_SIZE,
        addr + SPOT_LIGHT_SIZE,
    );
    lemma_frames_widen(
        v3,
        v4,
        addr + SPOT_SOFTNESS_OFFSET,
        addr + SPOT_SOFTNESS_OFFSET + 4,
        addr + LIGHT_ENTITY_SIZE,
        addr + SPOT_LIGHT_SIZE,
    );
    lemma_frames_chain(v1, v2, v3, addr + LIGHT_ENTITY_SIZE, addr + SPOT_LIGHT_SIZE);
    lemma_frames_chain(v1, v3, v4, addr + LIGHT_ENTITY_SIZE, addr + SPOT_LIGHT_SIZE);
    lemma_changes_only(v1, v4, addr + LIGHT_ENTITY_SIZE, addr + SPOT_LIGHT_SIZE);
    lemma_light_kept(v1, v4, addr, addr + SPOT_LIGHT_SIZE);
}

/// A light that was written and then left alone, while bytes behind it
/// changed, still reads as it was written.
proof fn lemma_light_kept(written: ImageView, after: ImageView, addr: int, hi: int)
    requires
        written.covers(addr, LIGHT_ENTITY_SIZE as int),
        changes_only(written, after, addr + LIGHT_ENTITY_SIZE, hi),
    ensures
        LightEntity::readable(after, addr) == LightEntity::readable(written, addr),
        LightEntity::decoded(after, addr) == LightEntity::decoded(written, addr),
{
}

/// A light that shines in all directions.
#[derive(Debug)]
pub struct PointLight {
    pub light: LightEntity,
    pub cache_static_shadows: u8,
    pub dynamic_shadow_face_mask: u8,
}

pub const POINT_CACHE_SHADOWS_OFFSET: usize = 0x180;

pub const POINT_FACE_MASK_OFFSET: usize = 0x181;

/// The number of bytes of a point light that this tool knows.
pub const POINT_LIGHT_SIZE: usize = 0x182;

/// The face mask that turns dynamic shadows on for all six faces.
pub const ALL_FACES_MASK: u8 = 0x3F;

impl LightTypeTrait for PointLight {

}

impl PointLight {
    /// Whether the point light at `addr` can be read from `view`.
    pub open spec fn readable(view: ImageView, addr: int) -> bool {
        view.covers(addr, POINT_LIGHT_SIZE as int) && LightEntity::readable(view, addr)
    }

    /// The point light stored at `addr`.
    pub open spec fn decoded(view: ImageView, addr: int) -> PointLight {
        PointLight {
            light: LightEntity::decoded(view, addr),
            cache_static_shadows: view.u8_at(addr + POINT_CACHE_SHADOWS_OFFSET),
            dynamic_shadow_face_mask: view.u8_at(addr + POINT_FACE_MASK_OFFSET),
        }
    }

    /// `view` with this point light stored at its address.
    pub open spec fn encoded(self, view: ImageView) -> ImageView {
        let addr = self.light.entity.address as int;
        self.light.encoded(view).store(
            addr + POINT_CACHE_SHADOWS_OFFSET,
            seq![self.cache_static_shadows],
        ).store(addr + POINT_FACE_MASK_OFFSET, seq![self.dynamic_shadow_face_mask])
    }

    /// The point light as the tool sets it up after the foreign constructor.
    pub open spec fn populated(self, position: Position, rot: RotationMatrix) -> PointLight {
        PointLight {
            light: self.light.populated(position, rot),
            cache_static_shadows: 1,
            dynamic_shadow_face_mask: 1,
        }
    }

    /// Reads the point light at `addr`.
    pub fn read(image: &MemoryImage, addr: usize) -> (light: Option<PointLight>)
        ensures
            light.is_some() == PointLight::readable(image@, addr as int),
            light.is_some() ==> light.unwrap() == PointLight::decoded(image@, addr as int),
    {
        if !image.covers(addr, POINT_LIGHT_SIZE) {
            return None;
        }
        let light: LightEntity = match LightEntity::read(image, addr) {
            Some(light) => light,
            None => {
                return None;
            },
        };
        Some(
            PointLight {
                light,
                cache_static_shadows: image.load_u8(addr + POINT_CACHE_SHADOWS_OFFSET),
                dynamic_shadow_face_mask: image.load_u8(addr + POINT_FACE_MASK_OFFSET),
            },
        )
    }

    /// Writes the point light to its address. Where its bytes are not all in
    /// the image nothing is written and `false` is returned.
    pub fn write(&self, image: &mut MemoryImage) -> (written: bool)
        ensures
            written == old(image)@.covers(
                self.light.entity.address as int,
                POINT_LIGHT_SIZE as int,
            ),
            written ==> final(image)@ == self.encoded(old(image)@),
            !written ==> final(image)@ == old(image)@,
    {
        let addr: usize = self.light.entity.address;
        if !image.covers(addr, POINT_LIGHT_SIZE) {
            return false;
        }
        proof {
            lemma_light_encoded(&self.light, image@);
        }
        self.light.store(image);
        proof {
            lemma_u8_stored(image@, addr + POINT_CACHE_SHADOWS_OFFSET, self.cache_static_shadows);
        }
        image.store_u8(addr + POINT_CACHE_SHADOWS_OFFSET, self.cache_static_shadows);
        image.store_u8(addr + POINT_FACE_MASK_OFFSET, self.dynamic_shadow_face_mask);
        true
    }

    /// Takes over the object that the point light pool has just created at
    /// `address`: sets up every field the tool cares about, writes the light
    /// to the image, and returns it with the recompute call that makes it
    /// visible. `None`, with the image untouched, where the object cannot be
    /// read.
    pub fn new(
        image: &mut MemoryImage,
        address: usize,
        position: Position,
        rot: RotationMatrix,
        world: usize,
    ) -> (created: Option<(PointLight, RecomputeCall)>)
        ensures
            created.is_some() == PointLight::readable(old(image)@, address as int),
            created.is_some() ==> {
                let (light, call) = created.unwrap();
                &&& light == PointLight::decoded(old(image)@, address as int).populated(
                    position,
                    rot,
                )
                &&& call == light.light.recompute(world)
                &&& final(image)@ == light.encoded(old(image)@)
            },
            created.is_none() ==> final(image)@ == old(image)@,
    {
        let mut light_ptr: PointLight = match PointLight::read(image, address) {
            Some(light) => light,
            None => {
                return None;
            },
        };
        light_ptr.light.populate(position, rot);
        light_ptr.cache_static_shadows = 1;
        light_ptr.dynamic_shadow_face_mask = 1;
        light_ptr.write(image);
        let call = light_ptr.light.update_render(world);
        Some((light_ptr, call))
    }

    pub fn set_pos_rot(&mut self, pos: Position, rot: RotationMatrix)
        ensures
            *final(self) == (PointLight {
                light: LightEntity {
                    entity: Entity { rot_matrix: rot, pos, ..old(self).light.entity },
                    ..old(self).light
                },
                ..*old(self)
            }),
    {
        self.light.entity.pos = pos;
        self.light.entity.rot_matrix = rot;
    }

    /// Whether static shadows are cached, as the controls show it.
    pub fn caches_static_shadows(&self) -> (on: bool)
        ensures
            on == (self.cache_static_shadows != 0),
    {
        self.cache_static_shadows != 0
    }

    /// Whether dynamic shadows are on for any face, as the controls show it.
    pub fn masks_dynamic_shadows(&self) -> (on: bool)
        ensures
            on == (self.dynamic_shadow_face_mask != 0),
    {
        self.dynamic_shadow_face_mask != 0
    }

    /// Takes over the two switches that the controls hold: the cache flag
    /// becomes one or zero, the face mask all six faces or none.
    pub fn render_ui(&mut self, cache_static_shadows: bool, dynamic_shadow_face_mask: bool)
        ensures
            *final(self) == (PointLight {
                cache_static_shadows: bool_byte(cache_static_shadows),
                dynamic_shadow_face_mask: if dynamic_shadow_face_mask {
                    ALL_FACES_MASK
                } else {
                    0u8
                },
                ..*old(self)
            }),
    {
        self.cache_static_shadows = if cache_static_shadows {
            1
        } else {
            0
        };
        self.dynamic_shadow_face_mask = if dynamic_shadow_face_mask {
            ALL_FACES_MASK
        } else {
            0
        };
    }

    /// The call that makes the light's fields take effect.
    pub fn update_render(&self, world: usize) -> (call: RecomputeCall)
        ensures
            call == self.light.recompute(world),
    {
        self.light.update_render(world)
    }
}

/// The point light stored is the point light read back, and nothing outside
/// the point light has changed.
pub proof fn lemma_point_light_encoded(light: &PointLight, view: ImageView)
    requires
        view.covers(light.light.entity.address as int, POINT_LIGHT_SIZE as int),
    ensures
        PointLight::readable(light.encoded(view), light.light.entity.address as int),
        PointLight::decoded(light.encoded(view), light.light.entity.address as int) == *light,
        changes_only(
            view,
            light.encoded(view),
            light.light.entity.address as int,
            light.light.entity.address + POINT_LIGHT_SIZE,
        ),
{
    let addr = light.light.entity.address as int;
    let v1 = light.light.encoded(view);
    let v2 = v1.store(addr + POINT_CACHE_SHADOWS_OFFSET, seq![light.cache_static_shadows]);
    let v3 = v2.store(addr + POINT_FACE_MASK_OFFSET, seq![light.dynamic_shadow_face_mask]);
    lemma_light_encoded(&light.light, view);
    lemma_u8_stored(v1, addr + POINT_CACHE_SHADOWS_OFFSET, light.cache_static_shadows);
    lemma_u8_stored(v2, addr + POINT_FACE_MASK_OFFSET, light.dynamic_shadow_face_mask);
    lemma_changes_only(view, v3, addr, addr + POINT_LIGHT_SIZE);
    lemma_frames_widen(
        v1,
        v2,
        addr + POINT_CACHE_SHADOWS_OFFSET,
        addr + POINT_CACHE_SHADOWS_OFFSET + 1,
        addr + LIGHT_ENTITY_SIZE,
        addr + POINT_LIGHT_SIZE,
    );
    lemma_frames_widen(
        v2,
        v3,
        addr + POINT_FACE_MASK_OFFSET,
        addr + POINT_FACE_MASK_OFFSET + 1,
        addr + LIGHT_ENTITY_SIZE,
        addr + POINT_LIGHT_SIZE,
    );
    lemma_frames_chain(v1, v2, v3, addr + LIGHT_ENTITY_SIZE, addr + POINT_LIGHT_SIZE);
    lemma_changes_only(v1, v3, addr + LIGHT_ENTITY_SIZE, addr + POINT_LIGHT_SIZE);
    lemma_light_kept(v1, v3, addr, addr + POINT_LIGHT_SIZE);
}

/// A light of one of the two kinds. Both start with the same fields and
/// differ after them; which kind a light is was settled by the pool that
/// created it and is never read from memory.
#[derive(Debug)]
pub enum LightType {
    SpotLight(SpotLight),
    PointLight(PointLight),
}

impl LightType {
    /// The fields that both kinds share.
    pub open spec fn light(self) -> LightEntity {
        match self {
            LightType::SpotLight(spot) => spot.light,
            LightType::PointLight(point) => point.light,
        }
    }

    /// This light with `light` for the fields that both kinds share.
    pub open spec fn with_light(self, light: LightEntity) -> LightType {
        match self {
            LightType::SpotLight(spot) => LightType::SpotLight(SpotLight { light, ..spot }),
            LightType::PointLight(point) => LightType::PointLight(PointLight { light, ..point }),
        }
    }

    /// `view` with this light stored at its address.
    pub open spec fn encoded(self, view: ImageView) -> ImageView {
        match self {
            LightType::SpotLight(spot) => spot.encoded(view),
            LightType::PointLight(point) => point.encoded(view),
        }
    }

    /// The number of bytes that the light's kind takes.
    pub open spec fn size(self) -> usize {
        match self {
            LightType::SpotLight(_) => SPOT_LIGHT_SIZE,
            LightType::PointLight(_) => POINT_LIGHT_SIZE,
        }
    }

    /// The fields that both kinds share, for reading.
    pub fn get_light(&self) -> (light: &LightEntity)
        ensures
            *light == self.light(),
    {
        match self {
            LightType::SpotLight(spot) => &spot.light,
            LightType::PointLight(point) => &point.light,
        }
    }

    /// The fields that both kinds share, for editing. What is edited through
    /// the reference is edited in the light, and nothing else of it changes.
    pub fn get_light_mut(&mut self) -> (light: &mut LightEntity)
        ensures
            *light == old(self).light(),
            *final(self) == old(self).with_light(*final(light)),
    {
        match self {
            LightType::SpotLight(spot) => &mut spot.light,
            LightType::PointLight(point) => &mut point.light,
        }
    }

    /// Writes the light to its address. Where its bytes are not all in the
    /// image nothing is written and `false` is returned.
    pub fn write(&self, image: &mut MemoryImage) -> (written: bool)
        ensures
            written == old(image)@.covers(
                self.light().entity.address as int,
                self.size() as int,
            ),
            written ==> final(image)@ == self.encoded(old(image)@),
            !written ==> final(image)@ == old(image)@,
    {
        match self {
            LightType::SpotLight(spot) => spot.write(image),
            LightType::PointLight(point) => point.write(image),
        }
    }
}

/// The flags say that an object is reclaimed exactly when each of the two
/// bits of the mask is set: one of them alone does not count, and no other bit
/// matters.
pub proof fn lemma_reclaimed_needs_both_bits(flags: u32)
    ensures
        reclaimed(flags) <==> (flags & 0x20 == 0x20 && flags & 0x02 == 0x02),
        reclaimed(flags) ==> reclaimed(flags | 0x22),
        reclaimed((flags | 0x22) as u32),
{
    assert((flags & 0x22 == 0x22) <==> (flags & 0x20 == 0x20 && flags & 0x02 == 0x02))
        by (bit_vector);
    assert((flags | 0x22) & 0x22 == 0x22) by (bit_vector);
}

/// A spotlight that was taken over from its pool reads back as it was set
/// up: it stands where it was put, it is on, and nothing outside the light
/// has changed.
pub proof fn lemma_new_spot_light_reads_back(
    view: ImageView,
    addr: int,
    position: Position,
    rot: RotationMatrix,
)
    requires
        SpotLight::readable(view, addr),
    ensures
        ({
            let light = SpotLight::decoded(view, addr).populated(position, rot);
            let after = light.encoded(view);
            &&& SpotLight::readable(after, addr)
            &&& SpotLight::decoded(after, addr) == light
            &&& SpotLight::decoded(after, addr).light.entity.pos == position
            &&& SpotLight::decoded(after, addr).light.entity.rot_matrix == rot
            &&& SpotLight::decoded(after, addr).light.is_enabled
            &&& changes_only(view, after, addr, addr + SPOT_LIGHT_SIZE)
        }),
{
    let light = SpotLight::decoded(view, addr).populated(position, rot);
    lemma_spot_light_encoded(&light, view);
}

/// A point light that was taken over from its pool reads back as it was set
/// up: it stands where it was put, it is on, and nothing outside the light
/// has changed.
pub proof fn lemma_new_point_light_reads_back(
    view: ImageView,
    addr: int,
    position: Position,
    rot: RotationMatrix,
)
    requires
        PointLight::readable(view, addr),
    ensures
        ({
            let light = PointLight::decoded(view, addr).populated(position, rot);
            let after = light.encoded(view);
            &&& PointLight::readable(after, addr)
            &&& PointLight::decoded(after, addr) == light
            &&& PointLight::decoded(after, addr).light.entity.pos == position
            &&& PointLight::decoded(after, addr).light.entity.rot_matrix == rot
            &&& PointLight::decoded(after, addr).light.is_enabled
            &&& changes_only(view, after, addr, addr + POINT_LIGHT_SIZE)
        }),
{
    let light = PointLight::decoded(view, addr).populated(position, rot);
    lemma_point_light_encoded(&light, view);
}

} // verus!
