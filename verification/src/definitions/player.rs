//! The player, and the way from the player to the world and to the camera.

use crate::definitions::entity::{
    CR4CameraDirector,
    EmptyVT,
    ScriptedEntity,
    CAMERA_DIRECTOR_SIZE,
};
use crate::memory::{ImageView, MemoryImage};
use crate::pointer::{chain_target, Pointer};
use vstd::prelude::*;

verus! {

/// The first pointer of the scripted entity at `addr`, where that entity can
/// be read and the pointer is not null.
pub open spec fn first_pointer(view: ImageView, addr: usize) -> Option<usize> {
    if ScriptedEntity::<EmptyVT>::readable(view, addr as int) {
        ScriptedEntity::<EmptyVT>::decoded(view, addr as int).ptr00
    } else {
        None
    }
}

/// The second pointer of the scripted entity at `addr`, where that entity
/// can be read and the pointer is not null.
pub open spec fn second_pointer(view: ImageView, addr: usize) -> Option<usize> {
    if ScriptedEntity::<EmptyVT>::readable(view, addr as int) {
        ScriptedEntity::<EmptyVT>::decoded(view, addr as int).ptr01
    } else {
        None
    }
}

/// The layer that the player found at `player` is on.
pub open spec fn layer_of(view: ImageView, player: Option<usize>) -> Option<usize> {
    match player {
        Some(addr) => first_pointer(view, addr),
        None => None,
    }
}

/// The world of the player found at `player`: the first pointer of the
/// player's layer.
pub open spec fn world_of(view: ImageView, player: Option<usize>) -> Option<usize> {
    match layer_of(view, player) {
        Some(layer) => first_pointer(view, layer),
        None => None,
    }
}

/// The camera director of the player found at `player`: what the second
/// pointer of the player's layer leads to.
pub open spec fn camera_of(view: ImageView, player: Option<usize>) -> Option<CR4CameraDirector> {
    match layer_of(view, player) {
        Some(layer) => match second_pointer(view, layer) {
            Some(camera) => if view.covers(camera as int, CAMERA_DIRECTOR_SIZE as int) {
                Some(CR4CameraDirector::decoded(view, camera as int))
            } else {
                None
            },
            None => None,
        },
        None => None,
    }
}

/// The player, behind its chain. From the player the tool reaches the world,
/// which every recompute call needs, and the camera director, which says
/// where a new light goes.
pub struct CR4Player(pub Pointer<ScriptedEntity<EmptyVT>>);

impl CR4Player {
    pub fn new(player: Pointer<ScriptedEntity<EmptyVT>>) -> (this: CR4Player)
        ensures
            this.0 == player,
    {
        Self(player)
    }

    /// The address of the layer that the player `entity` is on: its first
    /// pointer.
    pub fn layer_in(entity: &ScriptedEntity<EmptyVT>) -> (layer: Option<usize>)
        ensures
            layer == entity.ptr00,
    {
        entity.ptr00
    }

    /// The address of the world that `layer` belongs to: its first pointer.
    pub fn world_in(layer: &ScriptedEntity<EmptyVT>) -> (world: Option<usize>)
        ensures
            world == layer.ptr00,
    {
        layer.ptr00
    }

    /// The address of the camera director of `layer`: its second pointer.
    pub fn camera_in(layer: &ScriptedEntity<EmptyVT>) -> (camera: Option<usize>)
        ensures
            camera == layer.ptr01,
    {
        layer.ptr01
    }

    /// The layer that the player is on. Resolves the player's chain, and so
    /// records its target.
    fn layer(&mut self, image: &MemoryImage) -> (layer: Option<usize>)
        ensures
            layer == layer_of(
                image@,
                chain_target(image@, old(self).0.base_addr, old(self).0.offsets@),
            ),
            final(self).0.base_addr == old(self).0.base_addr,
            final(self).0.offsets@ == old(self).0.offsets@,
            final(self).0.record() == match chain_target(
                image@,
                old(self).0.base_addr,
                old(self).0.offsets@,
            ) {
                Some(addr) => old(self).0.record().observe(addr),
                None => old(self).0.record(),
            },
    {
        let player: usize = match self.0.read(image) {
            Some(player) => player,
            None => {
                return None;
            },
        };
        match ScriptedEntity::<EmptyVT>::read(image, player) {
            Some(entity) => Self::layer_in(&entity),
            None => None,
        }
    }

    /// The address of the world, or `None` while any link on the way to it is
    /// missing. Resolves the player's chain, and so records its target.
    pub fn get_world(&mut self, image: &MemoryImage) -> (world: Option<usize>)
        ensures
            world == world_of(
                image@,
                chain_target(image@, old(self).0.base_addr, old(self).0.offsets@),
            ),
            final(self).0.base_addr == old(self).0.base_addr,
            final(self).0.offsets@ == old(self).0.offsets@,
            final(self).0.record() == match chain_target(
                image@,
                old(self).0.base_addr,
                old(self).0.offsets@,
            ) {
                Some(addr) => old(self).0.record().observe(addr),
                None => old(self).0.record(),
            },
    {
        let layer: usize = match self.layer(image) {
            Some(layer) => layer,
            None => {
                return None;
            },
        };
        match ScriptedEntity::<EmptyVT>::read(image, layer) {
            Some(entity) => Self::world_in(&entity),
            None => None,
        }
    }

    /// The camera director, or `None` while any link on the way to it is
    /// missing. Resolves the player's chain, and so records its target.
    pub fn get_camera(&mut self, image: &MemoryImage) -> (camera: Option<CR4CameraDirector>)
        ensures
            camera == camera_of(
                image@,
                chain_target(image@, old(self).0.base_addr, old(self).0.offsets@),
            ),
            final(self).0.base_addr == old(self).0.base_addr,
            final(self).0.offsets@ == old(self).0.offsets@,
            final(self).0.record() == match chain_target(
                image@,
                old(self).0.base_addr,
                old(self).0.offsets@,
            ) {
                Some(addr) => old(self).0.record().observe(addr),
                None => old(self).0.record(),
            },
    {
        let layer: usize = match self.layer(image) {
            Some(layer) => layer,
            None => {
                return None;
            },
        };
        let camera: usize = match ScriptedEntity::<EmptyVT>::read(image, layer) {
            Some(entity) => match Self::camera_in(&entity) {
                Some(camera) => camera,
                None => {
                    return None;
                },
            },
            None => {
                return None;
            },
        };
        CR4CameraDirector::read(image, camera)
    }

    /// Whether what was derived from the player must be thrown away: the
    /// player's chain has changed its target, or has none on record.
    pub fn should_update(&self) -> (stale: bool)
        ensures
            stale == (self.0.should_update || self.0.last_value.is_none()),
    {
        self.0.should_update || self.0.last_value.is_none()
    }

    /// Says that what was derived from the player has been thrown away:
    /// clears the flag and the recorded target.
    pub fn updated(&mut self)
        ensures
            !final(self).0.should_update,
            final(self).0.last_value.is_none(),
            final(self).0.base_addr == old(self).0.base_addr,
            final(self).0.offsets@ == old(self).0.offsets@,
    {
        self.0.should_update = false;
        self.0.last_value = None;
    }
}

} // verus!
