//! What the tool keeps about a light that it tracks, and what its controls
//! do to the light.

use crate::definitions::entity::Entity;
use crate::definitions::light::{
    bool_byte,
    LightEntity,
    LightType,
    PointLight,
    RecomputeCall,
    SpotLight,
    ALL_FACES_MASK,
    FLOAT_ONE,
};
use crate::definitions::values::{Color, LightSettings, Position, RotationMatrix};
use vstd::prelude::*;

verus! {

/// The character of one decimal digit.
pub open spec fn digit(d: nat) -> char {
    if d == 0 {
        '0'
    } else if d == 1 {
        '1'
    } else if d == 2 {
        '2'
    } else if d == 3 {
        '3'
    } else if d == 4 {
        '4'
    } else if d == 5 {
        '5'
    } else if d == 6 {
        '6'
    } else if d == 7 {
        '7'
    } else if d == 8 {
        '8'
    } else {
        '9'
    }
}

/// The decimal spelling of `n`, without sign or leading zeros.
pub open spec fn decimal(n: nat) -> Seq<char>
    decreases n,
{
    if n < 10 {
        seq![digit(n)]
    } else {
        decimal(n / 10).push(digit(n % 10))
    }
}

/// The name under which the light with number `id` is shown.
pub open spec fn light_label(id: nat) -> Seq<char> {
    "Light "@ + decimal(id)
}

/// Spells the name of a light with `alloc::fmt::format`, through the macro
/// `format!`. Trusted: that the formatter writes the text as it stands, and
/// the number in decimal without sign or leading zeros.
#[verifier::external_body]
fn format_label(id: usize) -> (label: String)
    ensures
        label@ == light_label(id as nat),
{
    format!("Light {}", id)
}

/// What the controls of one light hold after they were drawn: the values
/// that the user left in them. Floats are bit patterns.
#[derive(Debug)]
pub struct LightEdits {
    /// Whether the light's window is still open.
    pub open: bool,
    /// The colour as the picker holds it, four floats.
    pub picked: [u32; 4],
    /// The same colour in 8-bit channels.
    pub color: Color,
    pub position: Position,
    pub brightness: u32,
    pub radius: u32,
    pub attenuation: u32,
    pub shadow_blend_factor: u32,
    pub shadow_casting_mode: u32,
    pub is_enabled: bool,
    pub attach_camera: bool,
    pub kind: KindEdits,
}

/// What the controls that one kind of light has of its own hold.
#[derive(Clone, Copy, Debug, PartialEq, Eq, Structural)]
pub enum KindEdits {
    Spot { inner_angle: u32, outer_angle: u32, softness: u32 },
    Point { cache_static_shadows: bool, dynamic_shadow_face_mask: bool },
}

impl LightEntity {
    /// The light with what the shared controls hold.
    pub open spec fn edited(self, edits: LightEdits) -> LightEntity {
        LightEntity {
            entity: Entity { pos: edits.position, ..self.entity },
            light_settings: LightSettings {
                color: edits.color,
                radius: edits.radius,
                brightness: edits.brightness,
                attenuation: edits.attenuation,
            },
            is_enabled: edits.is_enabled,
            shadow_blend_factor: edits.shadow_blend_factor,
            shadow_casting_mode: edits.shadow_casting_mode,
            ..self
        }
    }
}

impl LightType {
    /// The light with what the controls hold. Controls of the other kind of
    /// light are not its own and change nothing.
    pub open spec fn edited(self, edits: LightEdits) -> LightType {
        match self {
            LightType::SpotLight(spot) => LightType::SpotLight(
                match edits.kind {
                    KindEdits::Spot { inner_angle, outer_angle, softness } => SpotLight {
                        light: spot.light.edited(edits),
                        inner_angle,
                        outer_angle,
                        softness,
                    },
                    KindEdits::Point { .. } => SpotLight {
                        light: spot.light.edited(edits),
                        ..spot
                    },
                },
            ),
            LightType::PointLight(point) => LightType::PointLight(
                match edits.kind {
                    KindEdits::Point {
                        cache_static_shadows,
                        dynamic_shadow_face_mask,
                    } => PointLight {
                        light: point.light.edited(edits),
                        cache_static_shadows: bool_byte(cache_static_shadows),
                        dynamic_shadow_face_mask: if dynamic_shadow_face_mask {
                            ALL_FACES_MASK
                        } else {
                            0u8
                        },
                    },
                    KindEdits::Spot { .. } => PointLight {
                        light: point.light.edited(edits),
                        ..point
                    },
                },
            ),
        }
    }

    /// This light moved to `pos` and turned to `rot`.
    pub open spec fn moved(self, pos: Position, rot: RotationMatrix) -> LightType {
        self.with_light(
            LightEntity {
                entity: Entity { rot_matrix: rot, pos, ..self.light().entity },
                ..self.light()
            },
        )
    }
}

/// A light that the tool tracks: the light itself, and what the tool keeps
/// about it for its own controls. Every tracked light has a name of its own.
#[derive(Debug)]
pub struct LightContainer {
    pub light: LightType,
    /// Whether the light follows the camera.
    pub attach_camera: bool,
    /// The colour as the picker holds it, four floats as bit patterns.
    pub color: [u32; 4],
    /// Whether the light's window is open.
    pub open: bool,
    pub id: String,
}

/// A light that was taken out of tracking and switched off, with the call
/// that makes the foreign side notice. The foreign side offers no way to
/// destroy a light: it reclaims the light in its own time.
#[derive(Debug)]
pub struct Retired {
    pub light: LightType,
    pub call: RecomputeCall,
}

impl LightContainer {
    pub fn new(light: LightType, id: usize) -> (container: LightContainer)
        ensures
            container.light == light,
            !container.attach_camera,
            container.color@ == seq![FLOAT_ONE, FLOAT_ONE, FLOAT_ONE, FLOAT_ONE],
            container.open,
            container.id@ == light_label(id as nat),
    {
        let color: [u32; 4] = [FLOAT_ONE, FLOAT_ONE, FLOAT_ONE, FLOAT_ONE];
        proof {
            assert(color@ =~= seq![FLOAT_ONE, FLOAT_ONE, FLOAT_ONE, FLOAT_ONE]);
        }
        LightContainer { light, attach_camera: false, color, open: true, id: format_label(id) }
    }

    /// The call that makes the light's fields take effect. It is due in
    /// every frame, for every light.
    pub fn update_render(&self, world: usize) -> (call: RecomputeCall)
        ensures
            call == self.light.light().recompute(world),
    {
        self.light.get_light().update_render(world)
    }

    /// Retires the light softly: switches it off, and hands it back with the
    /// call that makes the foreign side notice.
    pub fn remove_light(self, world: usize) -> (retired: Retired)
        ensures
            retired.light == self.light.with_light(
                LightEntity { is_enabled: false, ..self.light.light() },
            ),
            retired.call == self.light.light().recompute(world),
    {
        let mut this = self;
        let light = this.light.get_light_mut();
        light.is_enabled = false;
        let call = this.update_render(world);
        Retired { light: this.light, call }
    }

    pub fn set_pos_rot(&mut self, pos: Position, rot: RotationMatrix)
        ensures
            *final(self) == (LightContainer {
                light: old(self).light.moved(pos, rot),
                ..*old(self)
            }),
    {
        match &mut self.light {
            LightType::PointLight(pl) => {
                pl.set_pos_rot(pos, rot);
            },
            LightType::SpotLight(spl) => {
                spl.set_pos_rot(pos, rot);
            },
        };
    }

    /// Takes over what the controls of the light's window hold. A light
    /// whose window is closed has no controls, and nothing changes.
    pub fn render_window(&mut self, edits: &LightEdits)
        ensures
            !old(self).open ==> *final(self) == *old(self),
            old(self).open ==> *final(self) == (LightContainer {
                light: old(self).light.edited(*edits),
                attach_camera: edits.attach_camera,
                color: edits.picked,
                open: edits.open,
                id: old(self).id,
            }),
    {
        if !self.open {
            return ;
        }
        self.open = edits.open;
        self.color = edits.picked;
        self.attach_camera = edits.attach_camera;
        let light = self.light.get_light_mut();
        light.light_settings.color = edits.color;
        light.entity.pos = edits.position;
        light.light_settings.brightness = edits.brightness;
        light.light_settings.radius = edits.radius;
        light.light_settings.attenuation = edits.attenuation;
        light.shadow_casting_mode = edits.shadow_casting_mode;
        light.shadow_blend_factor = edits.shadow_blend_factor;
        light.is_enabled = edits.is_enabled;
        match &mut self.light {
            LightType::PointLight(pl) => match edits.kind {
                KindEdits::Point { cache_static_shadows, dynamic_shadow_face_mask } => {
                    pl.render_ui(cache_static_shadows, dynamic_shadow_face_mask);
                },
                KindEdits::Spot { .. } => {},
            },
            LightType::SpotLight(spl) => match edits.kind {
                KindEdits::Spot { inner_angle, outer_angle, softness } => {
                    spl.render_ui(inner_angle, outer_angle, softness);
                },
                KindEdits::Point { .. } => {},
            },
        };
    }
}

} // verus!
