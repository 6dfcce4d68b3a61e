//! The entities: what every foreign object starts with, the scripted entity
//! that the player is, and the camera director.

use crate::bytes::lemma_pow256_values;
use crate::definitions::values::{
    lemma_position_encoded,
    lemma_rotation_encoded,
    Position,
    RotationMatrix,
};
use crate::memory::{
    changes_only,
    lemma_changes_only,
    lemma_uint_stored,
    ImageView,
    MemoryImage,
    POINTER_WIDTH,
};
use core::marker::PhantomData;
use vstd::prelude::*;

verus! {

/// The marker of an object that has no virtual function this tool calls.
#[derive(Clone, Copy, Debug)]
pub struct EmptyVT;

/// The virtual function table of a light.
#[derive(Clone, Copy, Debug, PartialEq, Eq, Structural)]
pub struct LightEntityVT {
    /// The address of the foreign function that takes a light and the world
    /// and makes the light's fields take effect.
    pub set_flags: usize,
}

/// The offset of the recompute function in a light's table: slot 48.
pub const SET_FLAGS_OFFSET: usize = 384;

/// The number of bytes of a light's table that this tool knows.
pub const LIGHT_ENTITY_VT_SIZE: usize = 392;

impl LightEntityVT {
    /// Whether the table at `addr` can be read from `view`.
    pub open spec fn readable(view: ImageView, addr: int) -> bool {
        view.covers(addr, LIGHT_ENTITY_VT_SIZE as int) && view.pointer(
            addr + SET_FLAGS_OFFSET,
        ).is_some()
    }

    /// The table stored at `addr`.
    pub open spec fn decoded(view: ImageView, addr: int) -> LightEntityVT {
        LightEntityVT { set_flags: view.pointer(addr + SET_FLAGS_OFFSET).unwrap() }
    }

    /// Reads the table at `addr`.
    pub fn read(image: &MemoryImage, addr: usize) -> (table: Option<LightEntityVT>)
        ensures
            table.is_some() == LightEntityVT::readable(image@, addr as int),
            table.is_some() ==> table.unwrap() == LightEntityVT::decoded(image@, addr as int),
    {
        if !image.covers(addr, LIGHT_ENTITY_VT_SIZE) {
            return None;
        }
        match image.read_pointer(addr + SET_FLAGS_OFFSET) {
            Some(set_flags) => Some(LightEntityVT { set_flags }),
            None => None,
        }
    }
}

/// What every foreign object starts with: its table, its parent, its flags,
/// and where it stands in the world.
#[derive(Debug)]
pub struct Entity<VT> {
    /// Where the object lives in the foreign process.
    pub address: usize,
    /// The address of the object's virtual function table.
    pub vt: usize,
    pub _marker: PhantomData<VT>,
    pub parent: usize,
    pub flags: u32,
    pub rot_matrix: RotationMatrix,
    pub pos: Position,
}

pub const ENTITY_PARENT_OFFSET: usize = 0x30;

pub const ENTITY_FLAGS_OFFSET: usize = 0x54;

pub const ENTITY_ROT_MATRIX_OFFSET: usize = 0x70;

pub const ENTITY_POS_OFFSET: usize = 0xA0;

/// The number of bytes of an entity that this tool knows.
pub const ENTITY_SIZE: usize = 0xAC;

impl<VT> Entity<VT> {
    /// Whether the entity at `addr` can be read from `view`: its bytes are
    /// there, and its pointers name addresses.
    pub open spec fn readable(view: ImageView, addr: int) -> bool {
        &&& view.covers(addr, ENTITY_SIZE as int)
        &&& view.pointer(addr).is_some()
        &&& view.pointer(addr + ENTITY_PARENT_OFFSET).is_some()
    }

    /// The entity stored at `addr`.
    pub open spec fn decoded(view: ImageView, addr: int) -> Entity<VT> {
        Entity {
            address: addr as usize,
            vt: view.pointer(addr).unwrap(),
            _marker: PhantomData,
            parent: view.pointer(addr + ENTITY_PARENT_OFFSET).unwrap(),
            flags: view.u32_at(addr + ENTITY_FLAGS_OFFSET),
            rot_matrix: RotationMatrix::decoded(view, addr + ENTITY_ROT_MATRIX_OFFSET),
            pos: Position::decoded(view, addr + ENTITY_POS_OFFSET),
        }
    }

    /// `view` with this entity stored at its address.
    pub open spec fn encoded(self, view: ImageView) -> ImageView {
        let addr = self.address as int;
        self.pos.encoded(
            self.rot_matrix.encoded(
                view.store_uint(addr, POINTER_WIDTH as nat, self.vt as nat).store_uint(
                    addr + ENTITY_PARENT_OFFSET,
                    POINTER_WIDTH as nat,
                    self.parent as nat,
                ).store_uint(addr + ENTITY_FLAGS_OFFSET, 4, self.flags as nat),
                addr + ENTITY_ROT_MATRIX_OFFSET,
            ),
            addr + ENTITY_POS_OFFSET,
        )
    }

    /// Reads the entity at `addr`.
    pub fn read(image: &MemoryImage, addr: usize) -> (entity: Option<Entity<VT>>)
        ensures
            entity.is_some() == Entity::<VT>::readable(image@, addr as int),
            entity.is_some() ==> entity.unwrap() == Entity::<VT>::decoded(image@, addr as int),
    {
        if !image.covers(addr, ENTITY_SIZE) {
            return None;
        }
        let vt: usize = match image.read_pointer(addr) {
            Some(vt) => vt,
            None => {
                return None;
            },
        };
        let parent: usize = match image.read_pointer(addr + ENTITY_PARENT_OFFSET) {
            Some(parent) => parent,
            None => {
                return None;
            },
        };
        Some(
            Entity {
                address: addr,
                vt,
                _marker: PhantomData,
                parent,
                flags: image.load_u32(addr + ENTITY_FLAGS_OFFSET),
                rot_matrix: RotationMatrix::load(image, addr + ENTITY_ROT_MATRIX_OFFSET),
                pos: Position::load(image, addr + ENTITY_POS_OFFSET),
            },
        )
    }

    /// Writes the entity to an address that the image holds.
    pub fn store(&self, image: &mut MemoryImage)
        requires
            old(image)@.covers(self.address as int, ENTITY_SIZE as int),
        ensures
            final(image)@ == self.encoded(old(image)@),
    {
        let addr: usize = self.address;
        proof {
            lemma_pow256_values();
            lemma_uint_stored(image@, addr as int, POINTER_WIDTH as nat, self.vt as nat);
        }
        image.store_pointer(addr, self.vt);
        proof {
            lemma_uint_stored(
                image@,
                addr + ENTITY_PARENT_OFFSET,
                POINTER_WIDTH as nat,
                self.parent as nat,
            );
        }
        image.store_pointer(addr + ENTITY_PARENT_OFFSET, self.parent);
        proof {
            lemma_uint_stored(image@, addr + ENTITY_FLAGS_OFFSET, 4, self.flags as nat);
        }
        image.store_u32(addr + ENTITY_FLAGS_OFFSET, self.flags);
        proof {
            lemma_rotation_encoded(self.rot_matrix, image@, addr + ENTITY_ROT_MATRIX_OFFSET);
        }
        self.rot_matrix.store(image, addr + ENTITY_ROT_MATRIX_OFFSET);
        self.pos.store(image, addr + ENTITY_POS_OFFSET);
    }
}

/// The entity stored is the entity read back, and nothing outside the entity
/// has changed.
pub proof fn lemma_entity_encoded<VT>(entity: Entity<VT>, view: ImageView)
    requires
        view.covers(entity.address as int, ENTITY_SIZE as int),
    ensures
        Entity::<VT>::readable(entity.encoded(view), entity.address as int),
        Entity::<VT>::decoded(entity.encoded(view), entity.address as int) == entity,
        changes_only(
            view,
            entity.encoded(view),
            entity.address as int,
            entity.address + ENTITY_SIZE,
        ),
{
    let addr = entity.address as int;
    let v1 = view.store_uint(addr, POINTER_WIDTH as nat, entity.vt as nat);
    let v2 = v1.store_uint(addr + ENTITY_PARENT_OFFSET, POINTER_WIDTH as nat, entity.parent as nat);
    let v3 = v2.store_uint(addr + ENTITY_FLAGS_OFFSET, 4, entity.flags as nat);
    let v4 = entity.rot_matrix.encoded(v3, addr + ENTITY_ROT_MATRIX_OFFSET);
    let v5 = entity.pos.encoded(v4, addr + ENTITY_POS_OFFSET);
    lemma_pow256_values();
    lemma_uint_stored(view, addr, POINTER_WIDTH as nat, entity.vt as nat);
    lemma_uint_stored(v1, addr + ENTITY_PARENT_OFFSET, POINTER_WIDTH as nat, entity.parent as nat);
    lemma_uint_stored(v2, addr + ENTITY_FLAGS_OFFSET, 4, entity.flags as nat);
    lemma_rotation_encoded(entity.rot_matrix, v3, addr + ENTITY_ROT_MATRIX_OFFSET);
    lemma_position_encoded(entity.pos, v4, addr + ENTITY_POS_OFFSET);
    lemma_changes_only(view, v5, addr, addr + ENTITY_SIZE);
}

/// An entity that scripts drive, such as the player. Its two pointers lead
/// from the player to the layer it is on, and from that layer to the world
/// and to the camera director.
#[derive(Debug)]
pub struct ScriptedEntity<VT> {
    /// Where the object lives in the foreign process.
    pub address: usize,
    /// The address of the object's virtual function table.
    pub vt: usize,
    pub _marker: PhantomData<VT>,
    /// The first pointer, or `None` where it is null.
    pub ptr00: Option<usize>,
    /// The second pointer, or `None` where it is null.
    pub ptr01: Option<usize>,
    pub rot_matrix: RotationMatrix,
    pub pos: Position,
}

pub const SCRIPTED_PTR00_OFFSET: usize = 0x30;

pub const SCRIPTED_PTR01_OFFSET: usize = 0x38;

/// The number of bytes of a scripted entity that this tool knows.
pub const SCRIPTED_ENTITY_SIZE: usize = 0xAC;

/// A pointer as a reference that may be absent: null is `None`.
pub open spec fn non_null(pointer: usize) -> Option<usize> {
    if pointer == 0 {
        None
    } else {
        Some(pointer)
    }
}

impl<VT> ScriptedEntity<VT> {
    /// Whether the entity at `addr` can be read from `view`.
    pub open spec fn readable(view: ImageView, addr: int) -> bool {
        &&& view.covers(addr, SCRIPTED_ENTITY_SIZE as int)
        &&& view.pointer(addr).is_some()
        &&& view.pointer(addr + SCRIPTED_PTR00_OFFSET).is_some()
        &&& view.pointer(addr + SCRIPTED_PTR01_OFFSET).is_some()
    }

    /// The entity stored at `addr`.
    pub open spec fn decoded(view: ImageView, addr: int) -> ScriptedEntity<VT> {
        ScriptedEntity {
            address: addr as usize,
            vt: view.pointer(addr).unwrap(),
            _marker: PhantomData,
            ptr00: non_null(view.pointer(addr + SCRIPTED_PTR00_OFFSET).unwrap()),
            ptr01: non_null(view.pointer(addr + SCRIPTED_PTR01_OFFSET).unwrap()),
            rot_matrix: RotationMatrix::decoded(view, addr + ENTITY_ROT_MATRIX_OFFSET),
            pos: Position::decoded(view, addr + ENTITY_POS_OFFSET),
        }
    }

    /// Reads the entity at `addr`.
    pub fn read(image: &MemoryImage, addr: usize) -> (entity: Option<ScriptedEntity<VT>>)
        ensures
            entity.is_some() == ScriptedEntity::<VT>::readable(image@, addr as int),
            entity.is_some() ==> entity.unwrap() == ScriptedEntity::<VT>::decoded(
                image@,
                addr as int,
            ),
    {
        if !image.covers(addr, SCRIPTED_ENTITY_SIZE) {
            return None;
        }
        let vt: usize = match image.read_pointer(addr) {
            Some(vt) => vt,
            None => {
                return None;
            },
        };
        let first: usize = match image.read_pointer(addr + SCRIPTED_PTR00_OFFSET) {
            Some(first) => first,
            None => {
                return None;
            },
        };
        let second: usize = match image.read_pointer(addr + SCRIPTED_PTR01_OFFSET) {
            Some(second) => second,
            None => {
                return None;
            },
        };
        Some(
            ScriptedEntity {
                address: addr,
                vt,
                _marker: PhantomData,
                ptr00: if first == 0 {
                    None
                } else {
                    Some(first)
                },
                ptr01: if second == 0 {
                    None
                } else {
                    Some(second)
                },
                rot_matrix: RotationMatrix::load(image, addr + ENTITY_ROT_MATRIX_OFFSET),
                pos: Position::load(image, addr + ENTITY_POS_OFFSET),
            },
        )
    }
}

/// The object that holds the camera at all times, cinematics and riding
/// included. It is reached from the player: player, layer, camera director.
#[derive(Clone, Copy, Debug, PartialEq, Eq, Structural)]
pub struct CR4CameraDirector {
    /// Where the object lives in the foreign process.
    pub address: usize,
    pub pos: Position,
    pub rot_matrix: RotationMatrix,
}

pub const CAMERA_POS_OFFSET: usize = 0x70;

pub const CAMERA_ROT_MATRIX_OFFSET: usize = 0x1A0;

/// The number of bytes of a camera director that this tool knows.
pub const CAMERA_DIRECTOR_SIZE: usize = 0x1D0;

impl CR4CameraDirector {
    /// The camera director stored at `addr`.
    pub open spec fn decoded(view: ImageView, addr: int) -> CR4CameraDirector {
        CR4CameraDirector {
            address: addr as usize,
            pos: Position::decoded(view, addr + CAMERA_POS_OFFSET),
            rot_matrix: RotationMatrix::decoded(view, addr + CAMERA_ROT_MATRIX_OFFSET),
        }
    }

    /// Reads the camera director at `addr`; `None` where its bytes are not
    /// all in the image.
    pub fn read(image: &MemoryImage, addr: usize) -> (camera: Option<CR4CameraDirector>)
        ensures
            camera.is_some() == image@.covers(addr as int, CAMERA_DIRECTOR_SIZE as int),
            camera.is_some() ==> camera.unwrap() == CR4CameraDirector::decoded(image@, addr as int),
    {
        if !image.covers(addr, CAMERA_DIRECTOR_SIZE) {
            return None;
        }
        Some(
            CR4CameraDirector {
                address: addr,
                pos: Position::load(image, addr + CAMERA_POS_OFFSET),
                rot_matrix: RotationMatrix::load(image, addr + CAMERA_ROT_MATRIX_OFFSET),
            },
        )
    }
}

} // verus!
