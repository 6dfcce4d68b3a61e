//! The plain values that foreign structures hold: positions, orientations,
//! colours and the settings of a light.

use crate::bytes::lemma_pow256_values;
use crate::memory::{
    changes_only,
    lemma_changes_only,
    lemma_u8_stored,
    lemma_uint_stored,
    ImageView,
    MemoryImage,
};
use vstd::prelude::*;

verus! {

/// A position in the foreign world; each coordinate is the bit pattern of a
/// 32-bit float.
#[derive(Clone, Copy, Debug, PartialEq, Eq, Structural)]
pub struct Position {
    pub x: u32,
    pub y: u32,
    pub z: u32,
}

/// The number of bytes that a [`Position`] takes.
pub const POSITION_SIZE: usize = 12;

impl Position {
    /// The position stored at `addr`.
    pub open spec fn decoded(view: ImageView, addr: int) -> Position {
        Position { x: view.u32_at(addr), y: view.u32_at(addr + 4), z: view.u32_at(addr + 8) }
    }

    /// `view` with this position stored at `addr`.
    pub open spec fn encoded(self, view: ImageView, addr: int) -> ImageView {
        view.store_uint(addr, 4, self.x as nat).store_uint(addr + 4, 4, self.y as nat).store_uint(
            addr + 8,
            4,
            self.z as nat,
        )
    }

    /// Reads the position at an address that the image holds.
    pub fn load(image: &MemoryImage, addr: usize) -> (position: Position)
        requires
            image@.covers(addr as int, POSITION_SIZE as int),
        ensures
            position == Position::decoded(image@, addr as int),
    {
        Position {
            x: image.load_u32(addr),
            y: image.load_u32(addr + 4),
            z: image.load_u32(addr + 8),
        }
    }

    /// Writes the position to an address that the image holds.
    pub fn store(&self, image: &mut MemoryImage, addr: usize)
        requires
            old(image)@.covers(addr as int, POSITION_SIZE as int),
        ensures
            final(image)@ == self.encoded(old(image)@, addr as int),
    {
        proof {
            lemma_pow256_values();
            lemma_uint_stored(image@, addr as int, 4, self.x as nat);
            lemma_uint_stored(
                image@.store_uint(addr as int, 4, self.x as nat),
                addr + 4,
                4,
                self.y as nat,
            );
        }
        image.store_u32(addr, self.x);
        image.store_u32(addr + 4, self.y);
        image.store_u32(addr + 8, self.z);
    }
}

/// Storing a position changes its twelve bytes and no other, and the position
/// read back is the one stored.
pub proof fn lemma_position_encoded(position: Position, view: ImageView, addr: int)
    requires
        view.covers(addr, POSITION_SIZE as int),
    ensures
        Position::decoded(position.encoded(view, addr), addr) == position,
        changes_only(view, position.encoded(view, addr), addr, addr + POSITION_SIZE),
{
    let v1 = view.store_uint(addr, 4, position.x as nat);
    let v2 = v1.store_uint(addr + 4, 4, position.y as nat);
    let v3 = v2.store_uint(addr + 8, 4, position.z as nat);
    lemma_pow256_values();
    lemma_uint_stored(view, addr, 4, position.x as nat);
    lemma_uint_stored(v1, addr + 4, 4, position.y as nat);
    lemma_uint_stored(v2, addr + 8, 4, position.z as nat);
    lemma_changes_only(view, v3, addr, addr + POSITION_SIZE);
}

/// The orientation of a foreign object: twelve floats that this tool copies
/// from one object to another and never interprets, carried as the three
/// 128-bit words they occupy.
#[derive(Clone, Copy, Debug, PartialEq, Eq, Structural)]
pub struct RotationMatrix {
    pub row0: u128,
    pub row1: u128,
    pub row2: u128,
}

/// The number of bytes that a [`RotationMatrix`] takes.
pub const ROTATION_MATRIX_SIZE: usize = 48;

impl RotationMatrix {
    /// The matrix stored at `addr`.
    pub open spec fn decoded(view: ImageView, addr: int) -> RotationMatrix {
        RotationMatrix {
            row0: view.u128_at(addr),
            row1: view.u128_at(addr + 16),
            row2: view.u128_at(addr + 32),
        }
    }

    /// `view` with this matrix stored at `addr`.
    pub open spec fn encoded(self, view: ImageView, addr: int) -> ImageView {
        view.store_uint(addr, 16, self.row0 as nat).store_uint(
            addr + 16,
            16,
            self.row1 as nat,
        ).store_uint(addr + 32, 16, self.row2 as nat)
    }

    /// Reads the matrix at an address that the image holds.
    pub fn load(image: &MemoryImage, addr: usize) -> (matrix: RotationMatrix)
        requires
            image@.covers(addr as int, ROTATION_MATRIX_SIZE as int),
        ensures
            matrix == RotationMatrix::decoded(image@, addr as int),
    {
        RotationMatrix {
            row0: image.load_u128(addr),
            row1: image.load_u128(addr + 16),
            row2: image.load_u128(addr + 32),
        }
    }

    /// Writes the matrix to an address that the image holds.
    pub fn store(&self, image: &mut MemoryImage, addr: usize)
        requires
            old(image)@.covers(addr as int, ROTATION_MATRIX_SIZE as int),
        ensures
            final(image)@ == self.encoded(old(image)@, addr as int),
    {
        proof {
            lemma_pow256_values();
            lemma_uint_stored(image@, addr as int, 16, self.row0 as nat);
            lemma_uint_stored(
                image@.store_uint(addr as int, 16, self.row0 as nat),
                addr + 16,
                16,
                self.row1 as nat,
            );
        }
        image.store_u128(addr, self.row0);
        image.store_u128(addr + 16, self.row1);
        image.store_u128(addr + 32, self.row2);
    }
}

/// Storing a matrix changes its forty-eight bytes and no other, and the
/// matrix read back is the one stored.
pub proof fn lemma_rotation_encoded(matrix: RotationMatrix, view: ImageView, addr: int)
    requires
        view.covers(addr, ROTATION_MATRIX_SIZE as int),
    ensures
        RotationMatrix::decoded(matrix.encoded(view, addr), addr) == matrix,
        changes_only(view, matrix.encoded(view, addr), addr, addr + ROTATION_MATRIX_SIZE),
{
    let v1 = view.store_uint(addr, 16, matrix.row0 as nat);
    let v2 = v1.store_uint(addr + 16, 16, matrix.row1 as nat);
    let v3 = v2.store_uint(addr + 32, 16, matrix.row2 as nat);
    lemma_pow256_values();
    lemma_uint_stored(view, addr, 16, matrix.row0 as nat);
    lemma_uint_stored(v1, addr + 16, 16, matrix.row1 as nat);
    lemma_uint_stored(v2, addr + 32, 16, matrix.row2 as nat);
    lemma_changes_only(view, v3, addr, addr + ROTATION_MATRIX_SIZE);
}

/// A colour of four 8-bit channels.
#[derive(Clone, Copy, Debug, PartialEq, Eq, Structural)]
pub struct Color {
    pub red: u8,
    pub green: u8,
    pub blue: u8,
    pub alpha: u8,
}

/// The number of bytes that a [`Color`] takes.
pub const COLOR_SIZE: usize = 4;

impl Color {
    /// The colour stored at `addr`.
    pub open spec fn decoded(view: ImageView, addr: int) -> Color {
        Color {
            red: view.u8_at(addr),
            green: view.u8_at(addr + 1),
            blue: view.u8_at(addr + 2),
            alpha: view.u8_at(addr + 3),
        }
    }

    /// `view` with this colour stored at `addr`.
    pub open spec fn encoded(self, view: ImageView, addr: int) -> ImageView {
        view.store(addr, seq![self.red]).store(addr + 1, seq![self.green]).store(
            addr + 2,
            seq![self.blue],
        ).store(addr + 3, seq![self.alpha])
    }

    /// Reads the colour at an address that the image holds.
    pub fn load(image: &MemoryImage, addr: usize) -> (color: Color)
        requires
            image@.covers(addr as int, COLOR_SIZE as int),
        ensures
            color == Color::decoded(image@, addr as int),
    {
        Color {
            red: image.load_u8(addr),
            green: image.load_u8(addr + 1),
            blue: image.load_u8(addr + 2),
            alpha: image.load_u8(addr + 3),
        }
    }

    /// Writes the colour to an address that the image holds.
    pub fn store(&self, image: &mut MemoryImage, addr: usize)
        requires
            old(image)@.covers(addr as int, COLOR_SIZE as int),
        ensures
            final(image)@ == self.encoded(old(image)@, addr as int),
    {
        proof {
            let v1 = image@.store(addr as int, seq![self.red]);
            let v2 = v1.store(addr + 1, seq![self.green]);
            lemma_u8_stored(image@, addr as int, self.red);
            lemma_u8_stored(v1, addr + 1, self.green);
            lemma_u8_stored(v2, addr + 2, self.blue);
        }
        image.store_u8(addr, self.red);
        image.store_u8(addr + 1, self.green);
        image.store_u8(addr + 2, self.blue);
        image.store_u8(addr + 3, self.alpha);
    }
}

/// Storing a colour changes its four bytes and no other, and the colour read
/// back is the one stored.
pub proof fn lemma_color_encoded(color: Color, view: ImageView, addr: int)
    requires
        view.covers(addr, COLOR_SIZE as int),
    ensures
        Color::decoded(color.encoded(view, addr), addr) == color,
        changes_only(view, color.encoded(view, addr), addr, addr + COLOR_SIZE),
{
    let v1 = view.store(addr, seq![color.red]);
    let v2 = v1.store(addr + 1, seq![color.green]);
    let v3 = v2.store(addr + 2, seq![color.blue]);
    let v4 = v3.store(addr + 3, seq![color.alpha]);
    lemma_u8_stored(view, addr, color.red);
    lemma_u8_stored(v1, addr + 1, color.green);
    lemma_u8_stored(v2, addr + 2, color.blue);
    lemma_u8_stored(v3, addr + 3, color.alpha);
    lemma_changes_only(view, v4, addr, addr + COLOR_SIZE);
}

/// What a light looks like: its colour, and three floats as bit patterns.
#[derive(Clone, Copy, Debug, PartialEq, Eq, Structural)]
pub struct LightSettings {
    pub color: Color,
    pub radius: u32,
    pub brightness: u32,
    pub attenuation: u32,
}

/// The number of bytes that [`LightSettings`] take.
pub const LIGHT_SETTINGS_SIZE: usize = 16;

impl LightSettings {
    /// The settings stored at `addr`.
    pub open spec fn decoded(view: ImageView, addr: int) -> LightSettings {
        LightSettings {
            color: Color::decoded(view, addr),
            radius: view.u32_at(addr + 4),
            brightness: view.u32_at(addr + 8),
            attenuation: view.u32_at(addr + 12),
        }
    }

    /// `view` with these settings stored at `addr`.
    pub open spec fn encoded(self, view: ImageView, addr: int) -> ImageView {
        self.color.encoded(view, addr).store_uint(addr + 4, 4, self.radius as nat).store_uint(
            addr + 8,
            4,
            self.brightness as nat,
        ).store_uint(addr + 12, 4, self.attenuation as nat)
    }

    /// Reads the settings at an address that the image holds.
    pub fn load(image: &MemoryImage, addr: usize) -> (settings: LightSettings)
        requires
            image@.covers(addr as int, LIGHT_SETTINGS_SIZE as int),
        ensures
            settings == LightSettings::decoded(image@, addr as int),
    {
        LightSettings {
            color: Color::load(image, addr),
            radius: image.load_u32(addr + 4),
            brightness: image.load_u32(addr + 8),
            attenuation: image.load_u32(addr + 12),
        }
    }

    /// Writes the settings to an address that the image holds.
    pub fn store(&self, image: &mut MemoryImage, addr: usize)
        requires
            old(image)@.covers(addr as int, LIGHT_SETTINGS_SIZE as int),
        ensures
            final(image)@ == self.encoded(old(image)@, addr as int),
    {
        proof {
            let v1 = self.color.encoded(image@, addr as int);
            let v2 = v1.store_uint(addr + 4, 4, self.radius as nat);
            let v3 = v2.store_uint(addr + 8, 4, self.brightness as nat);
            lemma_pow256_values();
            lemma_color_encoded(self.color, image@, addr as int);
            lemma_uint_stored(v1, addr + 4, 4, self.radius as nat);
            lemma_uint_stored(v2, addr + 8, 4, self.brightness as nat);
        }
        self.color.store(image, addr);
        image.store_u32(addr + 4, self.radius);
        image.store_u32(addr + 8, self.brightness);
        image.store_u32(addr + 12, self.attenuation);
    }
}

/// Storing settings changes their sixteen bytes and no other, and the
/// settings read back are the ones stored.
pub proof fn lemma_settings_encoded(settings: LightSettings, view: ImageView, addr: int)
    requires
        view.covers(addr, LIGHT_SETTINGS_SIZE as int),
    ensures
        LightSettings::decoded(settings.encoded(view, addr), addr) == settings,
        changes_only(view, settings.encoded(view, addr), addr, addr + LIGHT_SETTINGS_SIZE),
{
    let v1 = settings.color.encoded(view, addr);
    let v2 = v1.store_uint(addr + 4, 4, settings.radius as nat);
    let v3 = v2.store_uint(addr + 8, 4, settings.brightness as nat);
    let v4 = v3.store_uint(addr + 12, 4, settings.attenuation as nat);
    lemma_pow256_values();
    lemma_color_encoded(settings.color, view, addr);
    lemma_uint_stored(v1, addr + 4, 4, settings.radius as nat);
    lemma_uint_stored(v2, addr + 8, 4, settings.brightness as nat);
    lemma_uint_stored(v3, addr + 12, 4, settings.attenuation as nat);
    lemma_changes_only(view, v4, addr, addr + LIGHT_SETTINGS_SIZE);
}

} // verus!
