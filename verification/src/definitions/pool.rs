//! The pools that create foreign objects, and the call that asks one for a
//! new object.

use crate::bytes::lemma_pow256_values;
use crate::definitions::light::{LightTypeTrait, PointLight, SpotLight};
use crate::memory::{
    changes_only,
    lemma_changes_only,
    lemma_uint_stored,
    ImageView,
    MemoryImage,
    POINTER_WIDTH,
};
use crate::pointer::Pointer;
use core::marker::PhantomData;
use vstd::prelude::*;

verus! {

/// The virtual function table of a pool.
#[derive(Clone, Copy, Debug, PartialEq, Eq, Structural)]
pub struct MemoryPoolVT {
    /// The address of the foreign factory that adds an object to the pool.
    pub spawn_object: usize,
}

/// The offset of the factory in a pool's table: slot 25.
pub const SPAWN_OBJECT_OFFSET: usize = 200;

/// The number of bytes of a pool's table that this tool knows.
pub const MEMORY_POOL_VT_SIZE: usize = 208;

impl MemoryPoolVT {
    /// Whether the table at `addr` can be read from `view`.
    pub open spec fn readable(view: ImageView, addr: int) -> bool {
        view.covers(addr, MEMORY_POOL_VT_SIZE as int) && view.pointer(
            addr + SPAWN_OBJECT_OFFSET,
        ).is_some()
    }

    /// The table stored at `addr`.
    pub open spec fn decoded(view: ImageView, addr: int) -> MemoryPoolVT {
        MemoryPoolVT { spawn_object: view.pointer(addr + SPAWN_OBJECT_OFFSET).unwrap() }
    }

    /// Reads the table at `addr`.
    pub fn read(image: &MemoryImage, addr: usize) -> (table: Option<MemoryPoolVT>)
        ensures
            table.is_some() == MemoryPoolVT::readable(image@, addr as int),
            table.is_some() ==> table.unwrap() == MemoryPoolVT::decoded(image@, addr as int),
    {
        if !image.covers(addr, MEMORY_POOL_VT_SIZE) {
            return None;
        }
        match image.read_pointer(addr + SPAWN_OBJECT_OFFSET) {
            Some(spawn_object) => Some(MemoryPoolVT { spawn_object }),
            None => None,
        }
    }
}

/// A call of the factory of a pool, to be made on the foreign side. The
/// arguments go in this order: the pool, a word that is not used, a marker
/// byte, and a null. The result is the address of the new object, which the
/// foreign side owns. The function is the one whose address the table at
/// `vtable` holds at [`SPAWN_OBJECT_OFFSET`].
#[derive(Clone, Copy, Debug, PartialEq, Eq, Structural)]
pub struct SpawnCall {
    pub vtable: usize,
    pub pool: usize,
    pub unused: usize,
    pub marker: u8,
    pub context: usize,
}

/// The allocator of one kind of object. The foreign process keeps one per
/// kind behind a global pointer, so this tool tracks two: the pool of
/// spotlights and the pool of point lights.
#[derive(Debug)]
pub struct MemoryPool<T: LightTypeTrait> {
    /// Where the pool lives in the foreign process.
    pub address: usize,
    /// The address of the pool's virtual function table.
    pub vt: usize,
    /// A word that must be zero when the factory is called.
    pub clean_this: usize,
    pub _marker: PhantomData<T>,
}

pub const POOL_CLEAN_THIS_OFFSET: usize = 0x110;

/// The number of bytes of a pool that this tool knows.
pub const MEMORY_POOL_SIZE: usize = 0x118;

impl<T: LightTypeTrait> MemoryPool<T> {
    /// Whether the pool at `addr` can be read from `view`.
    pub open spec fn readable(view: ImageView, addr: int) -> bool {
        &&& view.covers(addr, MEMORY_POOL_SIZE as int)
        &&& view.pointer(addr).is_some()
        &&& view.pointer(addr + POOL_CLEAN_THIS_OFFSET).is_some()
    }

    /// The pool stored at `addr`.
    pub open spec fn decoded(view: ImageView, addr: int) -> MemoryPool<T> {
        MemoryPool {
            address: addr as usize,
            vt: view.pointer(addr).unwrap(),
            clean_this: view.pointer(addr + POOL_CLEAN_THIS_OFFSET).unwrap(),
            _marker: PhantomData,
        }
    }

    /// `view` with this pool stored at its address.
    pub open spec fn encoded(self, view: ImageView) -> ImageView {
        view.store_uint(self.address as int, POINTER_WIDTH as nat, self.vt as nat).store_uint(
            self.address + POOL_CLEAN_THIS_OFFSET,
            POINTER_WIDTH as nat,
            self.clean_this as nat,
        )
    }

    /// The call that asks this pool for a new object.
    pub open spec fn spawn(self, marker: u8) -> SpawnCall {
        SpawnCall { vtable: self.vt, pool: self.address, unused: 0, marker, context: 0 }
    }

    /// Reads the pool at `addr`.
    pub fn read(image: &MemoryImage, addr: usize) -> (pool: Option<MemoryPool<T>>)
        ensures
            pool.is_some() == MemoryPool::<T>::readable(image@, addr as int),
            pool.is_some() ==> pool.unwrap() == MemoryPool::<T>::decoded(image@, addr as int),
    {
        if !image.covers(addr, MEMORY_POOL_SIZE) {
            return None;
        }
        let vt: usize = match image.read_pointer(addr) {
            Some(vt) => vt,
            None => {
                return None;
            },
        };
        let clean_this: usize = match image.read_pointer(addr + POOL_CLEAN_THIS_OFFSET) {
            Some(word) => word,
            None => {
                return None;
            },
        };
        Some(MemoryPool { address: addr, vt, clean_this, _marker: PhantomData })
    }

    /// Writes the pool to its address. Where its bytes are not all in the
    /// image nothing is written and `false` is returned.
    pub fn write(&self, image: &mut MemoryImage) -> (written: bool)
        ensures
            written == old(image)@.covers(self.address as int, MEMORY_POOL_SIZE as int),
            written ==> final(image)@ == self.encoded(old(image)@),
            !written ==> final(image)@ == old(image)@,
    {
        if !image.covers(self.address, MEMORY_POOL_SIZE) {
            return false;
        }
        proof {
            lemma_pow256_values();
            lemma_uint_stored(image@, self.address as int, POINTER_WIDTH as nat, self.vt as nat);
        }
        image.store_pointer(self.address, self.vt);
        image.store_pointer(self.address + POOL_CLEAN_THIS_OFFSET, self.clean_this);
        true
    }

    /// Prepares the pool for a call of its factory and says which call to
    /// make: the pool's word is cleared, and the call carries the pool, a
    /// zero, `marker` and a null.
    pub fn new_light(&mut self, marker: u8) -> (call: SpawnCall)
        ensures
            call == old(self).spawn(marker),
            *final(self) == (MemoryPool { clean_this: 0, ..*old(self) }),
    {
        self.clean_this = 0;
        SpawnCall { vtable: self.vt, pool: self.address, unused: 0, marker, context: 0 }
    }
}

/// The pool stored is the pool read back, and nothing outside it has changed.
pub proof fn lemma_pool_encoded<T: LightTypeTrait>(pool: MemoryPool<T>, view: ImageView)
    requires
        view.covers(pool.address as int, MEMORY_POOL_SIZE as int),
    ensures
        MemoryPool::<T>::readable(pool.encoded(view), pool.address as int),
        MemoryPool::<T>::decoded(pool.encoded(view), pool.address as int) == pool,
        changes_only(
            view,
            pool.encoded(view),
            pool.address as int,
            pool.address + MEMORY_POOL_SIZE,
        ),
{
    let addr = pool.address as int;
    let v1 = view.store_uint(addr, POINTER_WIDTH as nat, pool.vt as nat);
    let v2 = v1.store_uint(
        addr + POOL_CLEAN_THIS_OFFSET,
        POINTER_WIDTH as nat,
        pool.clean_this as nat,
    );
    lemma_pow256_values();
    lemma_uint_stored(view, addr, POINTER_WIDTH as nat, pool.vt as nat);
    lemma_uint_stored(
        v1,
        addr + POOL_CLEAN_THIS_OFFSET,
        POINTER_WIDTH as nat,
        pool.clean_this as nat,
    );
    lemma_changes_only(view, v2, addr, addr + MEMORY_POOL_SIZE);
}

/// The chains that lead to the two pools. The pools are constants of the
/// foreign process: the chains stay good for as long as it runs.
pub struct MainMemoryPools {
    pub spotlight: Pointer<MemoryPool<SpotLight>>,
    pub pointlight: Pointer<MemoryPool<PointLight>>,
}

} // verus!
