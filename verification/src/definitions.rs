//! The structures of the attached process that this tool reads and edits.
//!
//! Each type is a view of a foreign structure, decoded from the bytes at the
//! structure's address and written back to them. The offsets are explicit and
//! authoritative: they mirror the foreign layout bit for bit, padding
//! included, and are the part that a new build of the foreign binary breaks
//! first. Numbers that the foreign side holds as 32-bit floats are carried as
//! their bit patterns in `u32` fields.

pub mod container;
pub mod entity;
pub mod layout;
pub mod light;
pub mod player;
pub mod pool;
pub mod values;

pub use container::{
    KindEdits,
    LightContainer,
    LightEdits,
    Retired,
    decimal,
    digit,
    light_label,
};
pub use entity::{
    CAMERA_DIRECTOR_SIZE,
    CAMERA_POS_OFFSET,
    CAMERA_ROT_MATRIX_OFFSET,
    CR4CameraDirector,
    ENTITY_FLAGS_OFFSET,
    ENTITY_PARENT_OFFSET,
    ENTITY_POS_OFFSET,
    ENTITY_ROT_MATRIX_OFFSET,
    ENTITY_SIZE,
    EmptyVT,
    Entity,
    LIGHT_ENTITY_VT_SIZE,
    LightEntityVT,
    SCRIPTED_ENTITY_SIZE,
    SCRIPTED_PTR00_OFFSET,
    SCRIPTED_PTR01_OFFSET,
    SET_FLAGS_OFFSET,
    ScriptedEntity,
    lemma_entity_encoded,
    non_null,
};
pub use light::{
    ALL_FACES_MASK,
    DELETION_MASK,
    FLOAT_FIVE,
    FLOAT_FORTY_FIVE,
    FLOAT_ONE,
    FLOAT_THIRTY,
    FLOAT_THOUSAND,
    FLOAT_TWO,
    LIGHT_ENABLED_OFFSET,
    LIGHT_ENTITY_SIZE,
    LIGHT_SETTINGS_OFFSET,
    LIGHT_SHADOW_BLEND_OFFSET,
    LIGHT_SHADOW_FADE_DISTANCE_OFFSET,
    LIGHT_SHADOW_FADE_RANGE_OFFSET,
    LIGHT_SHADOW_MODE_OFFSET,
    LightEntity,
    LightType,
    LightTypeTrait,
    POINT_CACHE_SHADOWS_OFFSET,
    POINT_FACE_MASK_OFFSET,
    POINT_LIGHT_SIZE,
    PointLight,
    RecomputeCall,
    SHADOWS_CHARACTERS_AND_OBJECTS,
    SPOT_INNER_ANGLE_OFFSET,
    SPOT_LIGHT_SIZE,
    SPOT_OUTER_ANGLE_OFFSET,
    SPOT_SOFTNESS_OFFSET,
    SpotLight,
    bool_byte,
    lemma_light_encoded,
    lemma_new_point_light_reads_back,
    lemma_new_spot_light_reads_back,
    lemma_reclaimed_needs_both_bits,
    lemma_point_light_encoded,
    lemma_spot_light_encoded,
    reclaimed,
};
pub use player::{
    CR4Player,
    camera_of,
    first_pointer,
    layer_of,
    second_pointer,
    world_of,
};
pub use pool::{
    MEMORY_POOL_SIZE,
    MEMORY_POOL_VT_SIZE,
    MainMemoryPools,
    MemoryPool,
    MemoryPoolVT,
    POOL_CLEAN_THIS_OFFSET,
    SPAWN_OBJECT_OFFSET,
    SpawnCall,
    lemma_pool_encoded,
};
pub use values::{
    COLOR_SIZE,
    Color,
    LIGHT_SETTINGS_SIZE,
    LightSettings,
    POSITION_SIZE,
    Position,
    ROTATION_MATRIX_SIZE,
    RotationMatrix,
    lemma_color_encoded,
    lemma_position_encoded,
    lemma_rotation_encoded,
    lemma_settings_encoded,
};
pub use layout::{
    lemma_light_table_agrees,
    lemma_point_table_agrees,
    lemma_spot_table_agrees,
    light_entity_fields,
    light_entity_layout,
    light_entity_vt_fields,
    light_entity_vt_layout,
    light_settings_fields,
    light_settings_layout,
    memory_pool_fields,
    memory_pool_layout,
    memory_pool_vt_fields,
    memory_pool_vt_layout,
    point_light_layout,
    point_light_own_fields,
    position_fields,
    position_layout,
    spot_light_layout,
    spot_light_own_fields,
};
