use litcher::context::LitcherContext;
use litcher::definitions::{
    CR4CameraDirector, CR4Player, Color, EmptyVT, Entity, KindEdits, LightContainer, LightEdits,
    LightEntity, LightEntityVT, LightSettings, LightType, MainMemoryPools, MemoryPool,
    MemoryPoolVT, PointLight,
    Position, RecomputeCall, RotationMatrix, ScriptedEntity, SpawnCall, SpotLight,
    ALL_FACES_MASK, DELETION_MASK, FLOAT_FIVE, FLOAT_FORTY_FIVE, FLOAT_ONE, FLOAT_THIRTY,
    FLOAT_THOUSAND, FLOAT_TWO, LIGHT_ENTITY_SIZE, POINT_LIGHT_SIZE, SPOT_LIGHT_SIZE,
};
use litcher::definitions::{position_layout, spot_light_layout};
use litcher::detour::DetourState;
use litcher::exposure::ToneMappingContainer;
use litcher::memory::MemoryImage;
use litcher::overlay::FieldValue;
use litcher::pointer::Pointer;

const BASE: usize = 0x10000;
const POOL: usize = 0x10000;
const POOL_VT: usize = 0x10800;
const LIGHT_VT: usize = 0x10C00;
const OBJECT: usize = 0x11000;
const WORLD: usize = 0x7FF6_0000_2000;
const SPAWN_FN: usize = 0x7FF6_0000_1111;
const SET_FLAGS_FN: usize = 0x7FF6_0000_2222;

fn foreign_memory() -> MemoryImage {
    let mut image = MemoryImage::new(BASE, vec![0xCD; 0x2000]).unwrap();
    assert!(image.write_pointer(POOL, POOL_VT));
    assert!(image.write_pointer(POOL + 0x110, 0x5555));
    assert!(image.write_pointer(POOL_VT + 200, SPAWN_FN));
    assert!(image.write_pointer(LIGHT_VT + 384, SET_FLAGS_FN));
    assert!(image.write_pointer(OBJECT, LIGHT_VT));
    assert!(image.write_pointer(OBJECT + 0x30, 0));
    assert!(image.write_uint(OBJECT + 0x54, 4, 0));
    image
}

fn position(x: f32, y: f32, z: f32) -> Position {
    Position { x: x.to_bits(), y: y.to_bits(), z: z.to_bits() }
}

fn rotation() -> RotationMatrix {
    RotationMatrix {
        row0: 0x3F80_0000,
        row1: 0x3F80_0000u128 << 32,
        row2: 0x3F80_0000u128 << 64,
    }
}

fn blank_light(address: usize, flags: u32) -> LightEntity {
    LightEntity {
        entity: Entity {
            address,
            vt: LIGHT_VT,
            _marker: std::marker::PhantomData,
            parent: 0,
            flags,
            rot_matrix: rotation(),
            pos: position(0.0, 0.0, 0.0),
        },
        light_settings: LightSettings {
            color: Color { red: 1, green: 2, blue: 3, alpha: 4 },
            radius: 0,
            brightness: 0,
            attenuation: 0,
        },
        is_enabled: true,
        shadow_blend_factor: 0,
        shadow_casting_mode: 0,
        shadow_fade_distance: 0,
        shadow_fade_range: 0,
    }
}

#[test]
fn float_constants_are_the_bits_of_their_floats() {
    assert_eq!(FLOAT_ONE, 1.0f32.to_bits());
    assert_eq!(FLOAT_TWO, 2.0f32.to_bits());
    assert_eq!(FLOAT_FIVE, 5.0f32.to_bits());
    assert_eq!(FLOAT_THIRTY, 30.0f32.to_bits());
    assert_eq!(FLOAT_FORTY_FIVE, 45.0f32.to_bits());
    assert_eq!(FLOAT_THOUSAND, 1000.0f32.to_bits());
}

#[test]
fn deletion_needs_both_bits_of_the_mask() {
    assert_eq!(DELETION_MASK, 0x22);
    assert!(blank_light(OBJECT, 0x22).should_get_deleted());
    assert!(!blank_light(OBJECT, 0x00).should_get_deleted());
    assert!(!blank_light(OBJECT, 0x20).should_get_deleted());
    assert!(!blank_light(OBJECT, 0x02).should_get_deleted());
    assert!(blank_light(OBJECT, 0xFFFF_FFFF).should_get_deleted());
    assert!(blank_light(OBJECT, 0x0000_0122).should_get_deleted());
    assert!(!blank_light(OBJECT, 0xFFFF_FFDF).should_get_deleted());
    assert!(!blank_light(OBJECT, 0xFFFF_FFFD).should_get_deleted());
}

#[test]
fn pool_protocol_clears_the_word_and_names_the_arguments() {
    let mut image = foreign_memory();
    let mut pool = MemoryPool::<PointLight>::read(&image, POOL).unwrap();
    assert_eq!(pool.address, POOL);
    assert_eq!(pool.vt, POOL_VT);
    assert_eq!(pool.clean_this, 0x5555);
    let call = pool.new_light(1);
    assert_eq!(
        call,
        SpawnCall { vtable: POOL_VT, pool: POOL, unused: 0, marker: 1, context: 0 }
    );
    assert_eq!(pool.clean_this, 0);
    assert!(pool.write(&mut image));
    assert_eq!(image.read_pointer(POOL + 0x110), Some(0));
    assert_eq!(image.read_pointer(POOL), Some(POOL_VT));
    let table = MemoryPoolVT::read(&image, call.vtable).unwrap();
    assert_eq!(table.spawn_object, SPAWN_FN);
}

#[test]
fn spawned_point_light_reads_back_and_is_later_deletable() {
    let mut image = foreign_memory();
    let mut pool = MemoryPool::<PointLight>::read(&image, POOL).unwrap();
    let spawn = pool.new_light(1);
    assert!(pool.write(&mut image));
    assert_eq!(spawn.pool, POOL);
    let address = OBJECT;

    let place = position(1.0, 2.0, 3.0);
    let (light, call) = PointLight::new(&mut image, address, place, rotation(), WORLD).unwrap();
    assert!(light.light.is_enabled);
    assert_eq!(call, RecomputeCall { vtable: LIGHT_VT, object: OBJECT, world: WORLD });
    assert_eq!(LightEntityVT::read(&image, call.vtable).unwrap().set_flags, SET_FLAGS_FN);

    let back = PointLight::read(&image, address).unwrap();
    assert_eq!(f32::from_bits(back.light.entity.pos.x), 1.0);
    assert_eq!(f32::from_bits(back.light.entity.pos.y), 2.0);
    assert_eq!(f32::from_bits(back.light.entity.pos.z), 3.0);
    assert_eq!(back.light.entity.pos, place);
    assert_eq!(back.light.entity.rot_matrix, rotation());
    assert!(back.light.is_enabled);
    assert_eq!(image.load_u8(address + 0x164), 1);
    assert_eq!(back.light.light_settings.brightness, 1000.0f32.to_bits());
    assert_eq!(back.light.light_settings.radius, 5.0f32.to_bits());
    assert_eq!(back.light.shadow_casting_mode, 1);
    assert_eq!(back.cache_static_shadows, 1);
    assert_eq!(back.dynamic_shadow_face_mask, 1);
    assert_eq!(back.light.entity.vt, LIGHT_VT);
    assert!(!back.light.should_get_deleted());

    assert!(image.write_uint(address + 0x54, 4, 0x22));
    let reclaimed = PointLight::read(&image, address).unwrap();
    assert_eq!(reclaimed.light.entity.flags, 0x22);
    assert!(reclaimed.light.should_get_deleted());

    let mut context = context_with(vec![LightContainer::new(LightType::PointLight(reclaimed), 0)]);
    context.player.0.last_value = Some(0x1234);
    context.render(Some(WORLD), false);
    assert!(context.lights.is_empty());
}

#[test]
fn spawned_spot_light_gets_its_defaults() {
    let mut image = foreign_memory();
    let place = position(-4.5, 0.25, 1e9);
    let (light, call) = SpotLight::new(&mut image, OBJECT, place, rotation(), WORLD).unwrap();
    assert_eq!(call, RecomputeCall { vtable: LIGHT_VT, object: OBJECT, world: WORLD });
    assert_eq!(light.inner_angle, 30.0f32.to_bits());
    assert_eq!(light.outer_angle, 45.0f32.to_bits());
    assert_eq!(light.softness, 2.0f32.to_bits());
    let back = SpotLight::read(&image, OBJECT).unwrap();
    assert_eq!(back.light.entity.pos, place);
    assert_eq!(image.load_u32(OBJECT + 0x180), 30.0f32.to_bits());
    assert_eq!(image.load_u32(OBJECT + 0x184), 45.0f32.to_bits());
    assert_eq!(image.load_u32(OBJECT + 0x188), 2.0f32.to_bits());
    assert_eq!(image.load_u32(OBJECT + 0x138), 1000.0f32.to_bits());
    assert_eq!(image.load_u32(OBJECT + 0x134), 5.0f32.to_bits());
    assert_eq!(image.load_u32(OBJECT + 0x170), 1);
    assert_eq!(image.load_u32(OBJECT + 0xA0), (-4.5f32).to_bits());
    assert_eq!(back.light.shadow_blend_factor, 0xCDCD_CDCD);
    assert_eq!(back.light.light_settings.attenuation, 0xCDCD_CDCD);
}

#[test]
fn takeover_leaves_bytes_outside_the_light_alone() {
    let mut image = foreign_memory();
    let before = image.as_bytes().to_vec();
    let (_, _) = SpotLight::new(&mut image, OBJECT, position(1.0, 2.0, 3.0), rotation(), WORLD).unwrap();
    let after = image.as_bytes();
    let start = OBJECT - BASE;
    assert_eq!(after[..start], before[..start]);
    assert_eq!(after[start + SPOT_LIGHT_SIZE..], before[start + SPOT_LIGHT_SIZE..]);
    assert_eq!(after[start + 0x10], 0xCD);
    assert_eq!(after[start + 0x165], 0xCD);
}

#[test]
fn object_that_cannot_be_read_is_not_taken_over() {
    let mut image = foreign_memory();
    let before = image.as_bytes().to_vec();
    let end = BASE + 0x2000;
    assert!(PointLight::new(&mut image, end - 0x100, position(0.0, 0.0, 0.0), rotation(), WORLD).is_none());
    assert!(SpotLight::new(&mut image, 0x100, position(0.0, 0.0, 0.0), rotation(), WORLD).is_none());
    assert!(SpotLight::read(&image, end - SPOT_LIGHT_SIZE + 1).is_none());
    assert!(PointLight::read(&image, end - POINT_LIGHT_SIZE).is_some());
    assert!(LightEntity::read(&image, end - LIGHT_ENTITY_SIZE).is_some());
    assert_eq!(image.as_bytes(), &before[..]);
}

#[test]
fn light_written_is_the_light_read() {
    let mut image = foreign_memory();
    let mut light = SpotLight::read(&image, OBJECT).unwrap();
    light.light.is_enabled = false;
    light.light.light_settings.color = Color { red: 10, green: 20, blue: 30, alpha: 40 };
    light.light.shadow_fade_distance = 0.5f32.to_bits();
    light.light.shadow_fade_range = 0.75f32.to_bits();
    light.light.entity.flags = 0x8000_0001;
    light.softness = 9.0f32.to_bits();
    assert!(light.write(&mut image));
    let back = SpotLight::read(&image, OBJECT).unwrap();
    assert!(!back.light.is_enabled);
    assert_eq!(back.light.light_settings.color, Color { red: 10, green: 20, blue: 30, alpha: 40 });
    assert_eq!(back.light.shadow_fade_distance, 0.5f32.to_bits());
    assert_eq!(back.light.shadow_fade_range, 0.75f32.to_bits());
    assert_eq!(back.light.entity.flags, 0x8000_0001);
    assert_eq!(back.softness, 9.0f32.to_bits());
    assert_eq!(image.load_u8(OBJECT + 0x164), 0);
    assert_eq!(image.as_bytes()[OBJECT - BASE + 0x130..OBJECT - BASE + 0x134], [10, 20, 30, 40]);
}

#[test]
fn point_light_switches_become_bytes() {
    let image = foreign_memory();
    let mut light = PointLight::read(&image, OBJECT).unwrap();
    light.render_ui(true, true);
    assert_eq!(light.cache_static_shadows, 1);
    assert_eq!(light.dynamic_shadow_face_mask, 0x3F);
    assert_eq!(ALL_FACES_MASK, 0x3F);
    assert!(light.caches_static_shadows());
    assert!(light.masks_dynamic_shadows());
    light.render_ui(false, false);
    assert_eq!(light.cache_static_shadows, 0);
    assert_eq!(light.dynamic_shadow_face_mask, 0);
    assert!(!light.caches_static_shadows());
    assert!(!light.masks_dynamic_shadows());
}

#[test]
fn spot_light_takes_over_its_controls() {
    let image = foreign_memory();
    let mut light = SpotLight::read(&image, OBJECT).unwrap();
    light.render_ui(10.0f32.to_bits(), 20.0f32.to_bits(), 3.0f32.to_bits());
    assert_eq!(light.inner_angle, 10.0f32.to_bits());
    assert_eq!(light.outer_angle, 20.0f32.to_bits());
    assert_eq!(light.softness, 3.0f32.to_bits());
    light.set_pos_rot(position(7.0, 8.0, 9.0), rotation());
    assert_eq!(light.light.entity.pos, position(7.0, 8.0, 9.0));
    assert_eq!(light.update_render(5), RecomputeCall { vtable: LIGHT_VT, object: OBJECT, world: 5 });
}

#[test]
fn light_type_gives_the_shared_fields() {
    let image = foreign_memory();
    let mut spot = LightType::SpotLight(SpotLight::read(&image, OBJECT).unwrap());
    let mut point = LightType::PointLight(PointLight::read(&image, OBJECT).unwrap());
    spot.get_light_mut().is_enabled = true;
    point.get_light_mut().shadow_casting_mode = 2;
    assert!(spot.get_light().is_enabled);
    assert_eq!(point.get_light().shadow_casting_mode, 2);
    match &spot {
        LightType::SpotLight(light) => assert!(light.light.is_enabled),
        LightType::PointLight(_) => unreachable!(),
    }
    let mut image = image;
    assert!(point.write(&mut image));
    assert_eq!(image.load_u32(OBJECT + 0x170), 2);
}

#[test]
fn container_is_named_after_its_number() {
    let image = foreign_memory();
    let light = LightType::PointLight(PointLight::read(&image, OBJECT).unwrap());
    let container = LightContainer::new(light, 7);
    assert_eq!(container.id, "Light 7");
    assert!(container.open);
    assert!(!container.attach_camera);
    assert_eq!(container.color, [1.0f32.to_bits(); 4]);
    let other = LightContainer::new(
        LightType::SpotLight(SpotLight::read(&image, OBJECT).unwrap()),
        1203,
    );
    assert_eq!(other.id, "Light 1203");
    let first = LightContainer::new(
        LightType::SpotLight(SpotLight::read(&image, OBJECT).unwrap()),
        0,
    );
    assert_eq!(first.id, "Light 0");
}

#[test]
fn removing_a_light_switches_it_off() {
    let image = foreign_memory();
    let mut light = PointLight::read(&image, OBJECT).unwrap();
    light.light.is_enabled = true;
    let container = LightContainer::new(LightType::PointLight(light), 3);
    assert_eq!(
        container.update_render(WORLD),
        RecomputeCall { vtable: LIGHT_VT, object: OBJECT, world: WORLD }
    );
    let retired = container.remove_light(WORLD);
    assert!(!retired.light.get_light().is_enabled);
    assert_eq!(retired.call, RecomputeCall { vtable: LIGHT_VT, object: OBJECT, world: WORLD });
}

#[test]
fn table_and_typed_view_read_the_same() {
    let mut image = foreign_memory();
    let place = position(1.5, -2.5, 3.25);
    let (light, _) = SpotLight::new(&mut image, OBJECT, place, rotation(), WORLD).unwrap();
    let table = spot_light_layout();
    let read = |index: usize| table.read_field(&image, OBJECT, index);
    assert!(matches!(read(0), Some(FieldValue::Integer(v)) if v == LIGHT_VT as u64));
    assert!(matches!(read(2), Some(FieldValue::Integer(v)) if v == light.light.entity.flags as u64));
    assert!(matches!(read(4), Some(FieldValue::NestedOverlay(a)) if a == OBJECT + 0xA0));
    assert!(matches!(read(6), Some(FieldValue::Boolean(true))));
    assert!(matches!(read(8), Some(FieldValue::Integer(1))));
    assert!(matches!(read(11), Some(FieldValue::Float(v)) if v == 30.0f32.to_bits() as u64));
    assert!(matches!(read(13), Some(FieldValue::Float(v)) if v == 2.0f32.to_bits() as u64));
    let inner = position_layout();
    assert!(matches!(
        inner.read_field(&image, OBJECT + 0xA0, 1),
        Some(FieldValue::Float(v)) if v == (-2.5f32).to_bits() as u64
    ));
    assert!(table.write_field(&mut image, OBJECT, 6, &FieldValue::Boolean(false)));
    assert!(!SpotLight::read(&image, OBJECT).unwrap().light.is_enabled);
    assert_eq!(SpotLight::read(&image, OBJECT).unwrap().light.entity.pos, place);
}

fn edits(kind: KindEdits) -> LightEdits {
    LightEdits {
        open: true,
        picked: [0.5f32.to_bits(), 0.25f32.to_bits(), 1.0f32.to_bits(), 1.0f32.to_bits()],
        color: Color { red: 127, green: 63, blue: 255, alpha: 255 },
        position: position(10.0, 20.0, 30.0),
        brightness: 500.0f32.to_bits(),
        radius: 12.0f32.to_bits(),
        attenuation: 0.5f32.to_bits(),
        shadow_blend_factor: 0.125f32.to_bits(),
        shadow_casting_mode: 2,
        is_enabled: false,
        attach_camera: true,
        kind,
    }
}

#[test]
fn window_controls_are_taken_over() {
    let image = foreign_memory();
    let mut container = LightContainer::new(
        LightType::SpotLight(SpotLight::read(&image, OBJECT).unwrap()),
        1,
    );
    let kind = KindEdits::Spot {
        inner_angle: 11.0f32.to_bits(),
        outer_angle: 22.0f32.to_bits(),
        softness: 4.0f32.to_bits(),
    };
    container.render_window(&edits(kind));
    assert!(container.attach_camera);
    assert_eq!(container.color[0], 0.5f32.to_bits());
    let light = container.light.get_light();
    assert_eq!(light.light_settings.color, Color { red: 127, green: 63, blue: 255, alpha: 255 });
    assert_eq!(light.entity.pos, position(10.0, 20.0, 30.0));
    assert_eq!(light.light_settings.brightness, 500.0f32.to_bits());
    assert_eq!(light.light_settings.radius, 12.0f32.to_bits());
    assert_eq!(light.light_settings.attenuation, 0.5f32.to_bits());
    assert_eq!(light.shadow_blend_factor, 0.125f32.to_bits());
    assert_eq!(light.shadow_casting_mode, 2);
    assert!(!light.is_enabled);
    match &container.light {
        LightType::SpotLight(spot) => {
            assert_eq!(spot.inner_angle, 11.0f32.to_bits());
            assert_eq!(spot.outer_angle, 22.0f32.to_bits());
            assert_eq!(spot.softness, 4.0f32.to_bits());
        }
        LightType::PointLight(_) => unreachable!(),
    }
}

#[test]
fn closed_window_changes_nothing_and_foreign_controls_are_ignored() {
    let image = foreign_memory();
    let mut container = LightContainer::new(
        LightType::PointLight(PointLight::read(&image, OBJECT).unwrap()),
        1,
    );
    let spot_controls = KindEdits::Spot { inner_angle: 1, outer_angle: 2, softness: 3 };
    container.render_window(&edits(spot_controls));
    match &container.light {
        LightType::PointLight(point) => {
            assert_eq!(point.cache_static_shadows, 0xCD);
            assert_eq!(point.light.shadow_casting_mode, 2);
        }
        LightType::SpotLight(_) => unreachable!(),
    }
    let mut closing = edits(KindEdits::Point {
        cache_static_shadows: true,
        dynamic_shadow_face_mask: false,
    });
    closing.open = false;
    closing.shadow_casting_mode = 0;
    container.render_window(&closing);
    assert!(!container.open);
    assert_eq!(container.light.get_light().shadow_casting_mode, 0);
    let mut later = edits(KindEdits::Point {
        cache_static_shadows: false,
        dynamic_shadow_face_mask: true,
    });
    later.shadow_casting_mode = 1;
    container.render_window(&later);
    assert_eq!(container.light.get_light().shadow_casting_mode, 0);
    assert!(!container.open);
}

fn player_memory() -> MemoryImage {
    let mut image = MemoryImage::new(0x20000, vec![0; 0x1000]).unwrap();
    assert!(image.write_pointer(0x20000, 0x20100));
    assert!(image.write_pointer(0x20100 + 0x30, 0x20200));
    assert!(image.write_pointer(0x20200 + 0x30, 0x7777_0000));
    assert!(image.write_pointer(0x20200 + 0x38, 0x20400));
    assert!(image.write_uint(0x20400 + 0x70, 4, 1.0f32.to_bits() as u64));
    assert!(image.write_uint(0x20400 + 0x74, 4, 2.0f32.to_bits() as u64));
    assert!(image.write_uint(0x20400 + 0x78, 4, 3.0f32.to_bits() as u64));
    assert!(image.write_uint(0x20400 + 0x1A0, 4, 0x3F80_0000));
    image
}

#[test]
fn world_and_camera_are_reached_from_the_player() {
    let image = player_memory();
    let mut player = CR4Player::new(Pointer::new(0x20000, Vec::new()));
    assert!(player.should_update());
    assert_eq!(player.get_world(&image), Some(0x7777_0000));
    assert!(!player.should_update());
    let camera = player.get_camera(&image).unwrap();
    assert_eq!(camera.address, 0x20400);
    assert_eq!(camera.pos, position(1.0, 2.0, 3.0));
    assert_eq!(camera.rot_matrix.row0, 0x3F80_0000);
    assert_eq!(camera, CR4CameraDirector::read(&image, 0x20400).unwrap());
    let entity = ScriptedEntity::<EmptyVT>::read(&image, 0x20200).unwrap();
    assert_eq!(entity.ptr00, Some(0x7777_0000));
    assert_eq!(entity.ptr01, Some(0x20400));
}

#[test]
fn missing_links_hide_world_and_camera() {
    let mut image = player_memory();
    let mut player = CR4Player::new(Pointer::new(0x20000, Vec::new()));
    assert!(image.write_pointer(0x20200 + 0x38, 0));
    assert_eq!(player.get_camera(&image), None);
    assert_eq!(player.get_world(&image), Some(0x7777_0000));
    assert!(image.write_pointer(0x20200 + 0x30, 0));
    assert_eq!(player.get_world(&image), None);
    assert!(image.write_pointer(0x20100 + 0x30, 0));
    assert_eq!(player.get_world(&image), None);
    assert_eq!(player.get_camera(&image), None);
    assert!(image.write_pointer(0x20000, 0x90000));
    assert_eq!(player.get_world(&image), None);
}

#[test]
fn player_change_is_noticed_and_acknowledged() {
    let mut image = player_memory();
    let mut player = CR4Player::new(Pointer::new(0x20000, Vec::new()));
    player.get_world(&image);
    assert!(!player.should_update());
    assert!(image.write_pointer(0x20000, 0x20800));
    player.get_world(&image);
    assert!(player.should_update());
    player.updated();
    assert!(player.should_update());
    assert_eq!(player.0.last_value, None);
    assert!(!player.0.should_update);
    player.get_world(&image);
    assert!(!player.should_update());
}

fn context_with(lights: Vec<LightContainer>) -> LitcherContext {
    LitcherContext {
        memory_pools: MainMemoryPools {
            spotlight: Pointer::new(0x100, Vec::new()),
            pointlight: Pointer::new(0x108, Vec::new()),
        },
        lights,
        show: true,
        player: CR4Player::new(Pointer::new(0x20000, Vec::new())),
        id_track: 0,
        tonemapping: ToneMappingContainer {
            detour: DetourState {
                target_address: 0x40,
                original_bytes: vec![0; 32],
                trampoline_address: 0x80,
                engaged: true,
            },
            value: FLOAT_ONE,
            overwrite: false,
        },
    }
}
