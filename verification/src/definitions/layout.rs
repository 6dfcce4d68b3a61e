//! The field tables of the foreign structures: for each structure the name,
//! offset, width and interpretation of every field that the tool knows.
//!
//! The tables are the contract with the foreign binary in the form of data.
//! They say the same as the typed views of this module's neighbours, field
//! for field.

use crate::bytes::{lemma_le_value_bound, lemma_pow256_values};
use crate::definitions::entity::{
    ENTITY_FLAGS_OFFSET,
    ENTITY_PARENT_OFFSET,
    ENTITY_POS_OFFSET,
    ENTITY_ROT_MATRIX_OFFSET,
    SET_FLAGS_OFFSET,
};
use crate::definitions::light::{
    LightEntity,
    PointLight,
    SpotLight,
    LIGHT_ENABLED_OFFSET,
    LIGHT_SETTINGS_OFFSET,
    LIGHT_SHADOW_BLEND_OFFSET,
    LIGHT_SHADOW_FADE_DISTANCE_OFFSET,
    LIGHT_SHADOW_FADE_RANGE_OFFSET,
    LIGHT_SHADOW_MODE_OFFSET,
    POINT_CACHE_SHADOWS_OFFSET,
    POINT_FACE_MASK_OFFSET,
    SPOT_INNER_ANGLE_OFFSET,
    SPOT_OUTER_ANGLE_OFFSET,
    SPOT_SOFTNESS_OFFSET,
};
use crate::definitions::pool::{POOL_CLEAN_THIS_OFFSET, SPAWN_OBJECT_OFFSET};
use crate::definitions::values::{
    LIGHT_SETTINGS_SIZE,
    POSITION_SIZE,
    ROTATION_MATRIX_SIZE,
};
use crate::memory::{ImageView, POINTER_WIDTH};
use crate::overlay::{
    fields_in_order,
    FieldContent,
    FieldDescriptor,
    Interpretation,
    MemoryOverlay,
};
use vstd::prelude::*;

verus! {

/// The fields of a position: three floats.
pub open spec fn position_fields() -> Seq<FieldDescriptor> {
    seq![
        FieldDescriptor::spec_new("x", 0, 4, Interpretation::Float),
        FieldDescriptor::spec_new("y", 4, 4, Interpretation::Float),
        FieldDescriptor::spec_new("z", 8, 4, Interpretation::Float),
    ]
}

/// The fields of the settings of a light: four colour channels and three
/// floats.
pub open spec fn light_settings_fields() -> Seq<FieldDescriptor> {
    seq![
        FieldDescriptor::spec_new("red", 0, 1, Interpretation::Integer),
        FieldDescriptor::spec_new("green", 1, 1, Interpretation::Integer),
        FieldDescriptor::spec_new("blue", 2, 1, Interpretation::Integer),
        FieldDescriptor::spec_new("alpha", 3, 1, Interpretation::Integer),
        FieldDescriptor::spec_new("radius", 4, 4, Interpretation::Float),
        FieldDescriptor::spec_new("brightness", 8, 4, Interpretation::Float),
        FieldDescriptor::spec_new("attenuation", 12, 4, Interpretation::Float),
    ]
}

/// The fields that both kinds of light share. The position and the settings
/// are overlays of their own, nested at their offsets.
pub open spec fn light_entity_fields() -> Seq<FieldDescriptor> {
    seq![
        FieldDescriptor::spec_new("vt", 0, POINTER_WIDTH, Interpretation::Integer),
        FieldDescriptor::spec_new(
            "parent",
            ENTITY_PARENT_OFFSET,
            POINTER_WIDTH,
            Interpretation::Integer,
        ),
        FieldDescriptor::spec_new("flags", ENTITY_FLAGS_OFFSET, 4, Interpretation::Integer),
        FieldDescriptor::spec_new(
            "rot_matrix",
            ENTITY_ROT_MATRIX_OFFSET,
            ROTATION_MATRIX_SIZE,
            Interpretation::Blob,
        ),
        FieldDescriptor::spec_new(
            "pos",
            ENTITY_POS_OFFSET,
            POSITION_SIZE,
            Interpretation::NestedOverlay,
        ),
        FieldDescriptor::spec_new(
            "light_settings",
            LIGHT_SETTINGS_OFFSET,
            LIGHT_SETTINGS_SIZE,
            Interpretation::NestedOverlay,
        ),
        FieldDescriptor::spec_new("is_enabled", LIGHT_ENABLED_OFFSET, 1, Interpretation::Boolean),
        FieldDescriptor::spec_new(
            "shadow_blend_factor",
            LIGHT_SHADOW_BLEND_OFFSET,
            4,
            Interpretation::Float,
        ),
        FieldDescriptor::spec_new(
            "shadow_casting_mode",
            LIGHT_SHADOW_MODE_OFFSET,
            4,
            Interpretation::Integer,
        ),
        FieldDescriptor::spec_new(
            "shadow_fade_distance",
            LIGHT_SHADOW_FADE_DISTANCE_OFFSET,
            4,
            Interpretation::Float,
        ),
        FieldDescriptor::spec_new(
            "shadow_fade_range",
            LIGHT_SHADOW_FADE_RANGE_OFFSET,
            4,
            Interpretation::Float,
        ),
    ]
}

/// The fields that a spotlight has of its own, after the shared ones.
pub open spec fn spot_light_own_fields() -> Seq<FieldDescriptor> {
    seq![
        FieldDescriptor::spec_new("inner_angle", SPOT_INNER_ANGLE_OFFSET, 4, Interpretation::Float),
        FieldDescriptor::spec_new("outer_angle", SPOT_OUTER_ANGLE_OFFSET, 4, Interpretation::Float),
        FieldDescriptor::spec_new("softness", SPOT_SOFTNESS_OFFSET, 4, Interpretation::Float),
    ]
}

/// The fields that a point light has of its own, after the shared ones.
pub open spec fn point_light_own_fields() -> Seq<FieldDescriptor> {
    seq![
        FieldDescriptor::spec_new(
            "cache_static_shadows",
            POINT_CACHE_SHADOWS_OFFSET,
            1,
            Interpretation::Integer,
        ),
        FieldDescriptor::spec_new(
            "dynamic_shadow_face_mask",
            POINT_FACE_MASK_OFFSET,
            1,
            Interpretation::Integer,
        ),
    ]
}

/// The one field of a light's table that the tool knows.
pub open spec fn light_entity_vt_fields() -> Seq<FieldDescriptor> {
    seq![
        FieldDescriptor::spec_new(
            "set_flags",
            SET_FLAGS_OFFSET,
            POINTER_WIDTH,
            Interpretation::FunctionPointer,
        ),
    ]
}

/// The one field of a pool's table that the tool knows.
pub open spec fn memory_pool_vt_fields() -> Seq<FieldDescriptor> {
    seq![
        FieldDescriptor::spec_new(
            "spawn_object",
            SPAWN_OBJECT_OFFSET,
            POINTER_WIDTH,
            Interpretation::FunctionPointer,
        ),
    ]
}

/// The fields of a pool.
pub open spec fn memory_pool_fields() -> Seq<FieldDescriptor> {
    seq![
        FieldDescriptor::spec_new("vt", 0, POINTER_WIDTH, Interpretation::Integer),
        FieldDescriptor::spec_new(
            "clean_this",
            POOL_CLEAN_THIS_OFFSET,
            POINTER_WIDTH,
            Interpretation::Integer,
        ),
    ]
}

/// The table of a position.
pub fn position_layout() -> (overlay: MemoryOverlay)
    ensures
        overlay.fields@ == position_fields(),
        overlay.well_formed(),
{
    let fields = vec![
        FieldDescriptor::new("x", 0, 4, Interpretation::Float),
        FieldDescriptor::new("y", 4, 4, Interpretation::Float),
        FieldDescriptor::new("z", 8, 4, Interpretation::Float),
    ];
    proof {
        assert(fields@ =~= position_fields());
    }
    MemoryOverlay { name: "Position", fields }
}

/// The table of the settings of a light.
pub fn light_settings_layout() -> (overlay: MemoryOverlay)
    ensures
        overlay.fields@ == light_settings_fields(),
        overlay.well_formed(),
{
    let fields = vec![
        FieldDescriptor::new("red", 0, 1, Interpretation::Integer),
        FieldDescriptor::new("green", 1, 1, Interpretation::Integer),
        FieldDescriptor::new("blue", 2, 1, Interpretation::Integer),
        FieldDescriptor::new("alpha", 3, 1, Interpretation::Integer),
        FieldDescriptor::new("radius", 4, 4, Interpretation::Float),
        FieldDescriptor::new("brightness", 8, 4, Interpretation::Float),
        FieldDescriptor::new("attenuation", 12, 4, Interpretation::Float),
    ];
    proof {
        assert(fields@ =~= light_settings_fields());
    }
    MemoryOverlay { name: "LightSettings", fields }
}

/// The shared fields of a light, as a list to build tables from.
fn light_entity_field_list() -> (fields: Vec<FieldDescriptor>)
    ensures
        fields@ == light_entity_fields(),
{
    let fields = vec![
        FieldDescriptor::new("vt", 0, POINTER_WIDTH, Interpretation::Integer),
        FieldDescriptor::new(
            "parent",
            ENTITY_PARENT_OFFSET,
            POINTER_WIDTH,
            Interpretation::Integer,
        ),
        FieldDescriptor::new("flags", ENTITY_FLAGS_OFFSET, 4, Interpretation::Integer),
        FieldDescriptor::new(
            "rot_matrix",
            ENTITY_ROT_MATRIX_OFFSET,
            ROTATION_MATRIX_SIZE,
            Interpretation::Blob,
        ),
        FieldDescriptor::new(
            "pos",
            ENTITY_POS_OFFSET,
            POSITION_SIZE,
            Interpretation::NestedOverlay,
        ),
        FieldDescriptor::new(
            "light_settings",
            LIGHT_SETTINGS_OFFSET,
            LIGHT_SETTINGS_SIZE,
            Interpretation::NestedOverlay,
        ),
        FieldDescriptor::new("is_enabled", LIGHT_ENABLED_OFFSET, 1, Interpretation::Boolean),
        FieldDescriptor::new(
            "shadow_blend_factor",
            LIGHT_SHADOW_BLEND_OFFSET,
            4,
            Interpretation::Float,
        ),
        FieldDescriptor::new(
            "shadow_casting_mode",
            LIGHT_SHADOW_MODE_OFFSET,
            4,
            Interpretation::Integer,
        ),
        FieldDescriptor::new(
            "shadow_fade_distance",
            LIGHT_SHADOW_FADE_DISTANCE_OFFSET,
            4,
            Interpretation::Float,
        ),
        FieldDescriptor::new(
            "shadow_fade_range",
            LIGHT_SHADOW_FADE_RANGE_OFFSET,
            4,
            Interpretation::Float,
        ),
    ];
    proof {
        assert(fields@ =~= light_entity_fields());
    }
    fields
}

/// The table of the fields that both kinds of light share.
pub fn light_entity_layout() -> (overlay: MemoryOverlay)
    ensures
        overlay.fields@ == light_entity_fields(),
        overlay.well_formed(),
{
    MemoryOverlay { name: "LightEntity", fields: light_entity_field_list() }
}

/// The table of a spotlight: the shared fields, then its own.
pub fn spot_light_layout() -> (overlay: MemoryOverlay)
    ensures
        overlay.fields@ == light_entity_fields() + spot_light_own_fields(),
        overlay.well_formed(),
{
    let mut fields = light_entity_field_list();
    fields.push(
        FieldDescriptor::new("inner_angle", SPOT_INNER_ANGLE_OFFSET, 4, Interpretation::Float),
    );
    fields.push(
        FieldDescriptor::new("outer_angle", SPOT_OUTER_ANGLE_OFFSET, 4, Interpretation::Float),
    );
    fields.push(FieldDescriptor::new("softness", SPOT_SOFTNESS_OFFSET, 4, Interpretation::Float));
    proof {
        assert(fields@ =~= light_entity_fields() + spot_light_own_fields());
    }
    MemoryOverlay { name: "SpotLight", fields }
}

/// The table of a point light: the shared fields, then its own.
pub fn point_light_layout() -> (overlay: MemoryOverlay)
    ensures
        overlay.fields@ == light_entity_fields() + point_light_own_fields(),
        overlay.well_formed(),
{
    let mut fields = light_entity_field_list();
    fields.push(
        FieldDescriptor::new(
            "cache_static_shadows",
            POINT_CACHE_SHADOWS_OFFSET,
            1,
            Interpretation::Integer,
        ),
    );
    fields.push(
        FieldDescriptor::new(
            "dynamic_shadow_face_mask",
            POINT_FACE_MASK_OFFSET,
            1,
            Interpretation::Integer,
        ),
    );
    proof {
        assert(fields@ =~= light_entity_fields() + point_light_own_fields());
    }
    MemoryOverlay { name: "PointLight", fields }
}

/// The table of a light's virtual function table.
pub fn light_entity_vt_layout() -> (overlay: MemoryOverlay)
    ensures
        overlay.fields@ == light_entity_vt_fields(),
        overlay.well_formed(),
{
    let fields = vec![
        FieldDescriptor::new(
            "set_flags",
            SET_FLAGS_OFFSET,
            POINTER_WIDTH,
            Interpretation::FunctionPointer,
        ),
    ];
    proof {
        assert(fields@ =~= light_entity_vt_fields());
    }
    MemoryOverlay { name: "LightEntityVT", fields }
}

/// The table of a pool's virtual function table.
pub fn memory_pool_vt_layout() -> (overlay: MemoryOverlay)
    ensures
        overlay.fields@ == memory_pool_vt_fields(),
        overlay.well_formed(),
{
    let fields = vec![
        FieldDescriptor::new(
            "spawn_object",
            SPAWN_OBJECT_OFFSET,
            POINTER_WIDTH,
            Interpretation::FunctionPointer,
        ),
    ];
    proof {
        assert(fields@ =~= memory_pool_vt_fields());
    }
    MemoryOverlay { name: "MemoryPoolVT", fields }
}

/// The table of a pool.
pub fn memory_pool_layout() -> (overlay: MemoryOverlay)
    ensures
        overlay.fields@ == memory_pool_fields(),
        overlay.well_formed(),
{
    let fields = vec![
        FieldDescriptor::new("vt", 0, POINTER_WIDTH, Interpretation::Integer),
        FieldDescriptor::new(
            "clean_this",
            POOL_CLEAN_THIS_OFFSET,
            POINTER_WIDTH,
            Interpretation::Integer,
        ),
    ];
    proof {
        assert(fields@ =~= memory_pool_fields());
    }
    MemoryOverlay { name: "MemoryPool", fields }
}

/// The table of the shared fields and the typed view of a light say the
/// same: what a field of the table reads at a light's address is what the
/// typed view holds in the field of that name.
pub proof fn lemma_light_table_agrees(view: ImageView, addr: int)
    requires
        LightEntity::readable(view, addr),
    ensures
        ({
            let light = LightEntity::decoded(view, addr);
            let table = light_entity_fields();
            &&& table[0].content_in(view, addr) == Some(
                FieldContent::Integer(light.entity.vt as u64),
            )
            &&& table[1].content_in(view, addr) == Some(
                FieldContent::Integer(light.entity.parent as u64),
            )
            &&& table[2].content_in(view, addr) == Some(
                FieldContent::Integer(light.entity.flags as u64),
            )
            &&& table[4].content_in(view, addr) == Some(
                FieldContent::NestedOverlay((addr + ENTITY_POS_OFFSET) as usize),
            )
            &&& position_fields()[0].content_in(view, addr + ENTITY_POS_OFFSET) == Some(
                FieldContent::Float(light.entity.pos.x as u64),
            )
            &&& position_fields()[1].content_in(view, addr + ENTITY_POS_OFFSET) == Some(
                FieldContent::Float(light.entity.pos.y as u64),
            )
            &&& position_fields()[2].content_in(view, addr + ENTITY_POS_OFFSET) == Some(
                FieldContent::Float(light.entity.pos.z as u64),
            )
            &&& table[5].content_in(view, addr) == Some(
                FieldContent::NestedOverlay((addr + LIGHT_SETTINGS_OFFSET) as usize),
            )
            &&& light_settings_fields()[0].content_in(view, addr + LIGHT_SETTINGS_OFFSET) == Some(
                FieldContent::Integer(light.light_settings.color.red as u64),
            )
            &&& light_settings_fields()[4].content_in(view, addr + LIGHT_SETTINGS_OFFSET) == Some(
                FieldContent::Float(light.light_settings.radius as u64),
            )
            &&& light_settings_fields()[5].content_in(view, addr + LIGHT_SETTINGS_OFFSET) == Some(
                FieldContent::Float(light.light_settings.brightness as u64),
            )
            &&& light_settings_fields()[6].content_in(view, addr + LIGHT_SETTINGS_OFFSET) == Some(
                FieldContent::Float(light.light_settings.attenuation as u64),
            )
            &&& table[6].content_in(view, addr) == Some(FieldContent::Boolean(light.is_enabled))
            &&& table[7].content_in(view, addr) == Some(
                FieldContent::Float(light.shadow_blend_factor as u64),
            )
            &&& table[8].content_in(view, addr) == Some(
                FieldContent::Integer(light.shadow_casting_mode as u64),
            )
            &&& table[9].content_in(view, addr) == Some(
                FieldContent::Float(light.shadow_fade_distance as u64),
            )
            &&& table[10].content_in(view, addr) == Some(
                FieldContent::Float(light.shadow_fade_range as u64),
            )
        }),
{
    lemma_pow256_values();
    lemma_le_value_bound(view.slice(addr, 8));
    lemma_le_value_bound(view.slice(addr + ENTITY_PARENT_OFFSET, 8));
    lemma_le_value_bound(view.slice(addr + ENTITY_FLAGS_OFFSET, 4));
    lemma_le_value_bound(view.slice(addr + ENTITY_POS_OFFSET, 4));
    lemma_le_value_bound(view.slice(addr + ENTITY_POS_OFFSET + 4, 4));
    lemma_le_value_bound(view.slice(addr + ENTITY_POS_OFFSET + 8, 4));
    lemma_le_value_bound(view.slice(addr + LIGHT_SETTINGS_OFFSET, 1));
    lemma_le_value_bound(view.slice(addr + LIGHT_SETTINGS_OFFSET + 4, 4));
    lemma_le_value_bound(view.slice(addr + LIGHT_SETTINGS_OFFSET + 8, 4));
    lemma_le_value_bound(view.slice(addr + LIGHT_SETTINGS_OFFSET + 12, 4));
    lemma_le_value_bound(view.slice(addr + LIGHT_SHADOW_BLEND_OFFSET, 4));
    lemma_le_value_bound(view.slice(addr + LIGHT_SHADOW_MODE_OFFSET, 4));
    lemma_le_value_bound(view.slice(addr + LIGHT_SHADOW_FADE_DISTANCE_OFFSET, 4));
    lemma_le_value_bound(view.slice(addr + LIGHT_SHADOW_FADE_RANGE_OFFSET, 4));
    let red = view.slice(addr + LIGHT_SETTINGS_OFFSET, 1);
    assert(red.drop_first().len() == 0);
    reveal_with_fuel(crate::bytes::le_value, 2);
}

/// The table of a spotlight and its typed view say the same of the fields
/// that a spotlight has of its own.
pub proof fn lemma_spot_table_agrees(view: ImageView, addr: int)
    requires
        SpotLight::readable(view, addr),
    ensures
        ({
            let light = SpotLight::decoded(view, addr);
            let table = spot_light_own_fields();
            &&& table[0].content_in(view, addr) == Some(
                FieldContent::Float(light.inner_angle as u64),
            )
            &&& table[1].content_in(view, addr) == Some(
                FieldContent::Float(light.outer_angle as u64),
            )
            &&& table[2].content_in(view, addr) == Some(FieldContent::Float(light.softness as u64))
        }),
{
    lemma_pow256_values();
    lemma_le_value_bound(view.slice(addr + SPOT_INNER_ANGLE_OFFSET, 4));
    lemma_le_value_bound(view.slice(addr + SPOT_OUTER_ANGLE_OFFSET, 4));
    lemma_le_value_bound(view.slice(addr + SPOT_SOFTNESS_OFFSET, 4));
}

/// The table of a point light and its typed view say the same of the fields
/// that a point light has of its own.
pub proof fn lemma_point_table_agrees(view: ImageView, addr: int)
    requires
        PointLight::readable(view, addr),
    ensures
        ({
            let light = PointLight::decoded(view, addr);
            let table = point_light_own_fields();
            &&& table[0].content_in(view, addr) == Some(
                FieldContent::Integer(light.cache_static_shadows as u64),
            )
            &&& table[1].content_in(view, addr) == Some(
                FieldContent::Integer(light.dynamic_shadow_face_mask as u64),
            )
        }),
{
    let first = view.slice(addr + POINT_CACHE_SHADOWS_OFFSET, 1);
    let second = view.slice(addr + POINT_FACE_MASK_OFFSET, 1);
    assert(first.drop_first().len() == 0);
    assert(second.drop_first().len() == 0);
    reveal_with_fuel(crate::bytes::le_value, 2);
}

} // verus!
