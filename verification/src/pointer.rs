//! Pointer chains: a fixed base address and a list of offsets, dereferenced
//! hop by hop, with a record of the last target for change detection.
//!
//! A chain is walked one dereference at a time. [`Pointer::advance`] decides,
//! from what the last dereference returned, whether the walk is over, broken,
//! or goes on at another address; whoever owns the memory makes the
//! dereference. [`Pointer::read`] runs that walk over a [`MemoryImage`].

use crate::memory::{ImageView, MemoryImage};
use core::marker::PhantomData;
use vstd::prelude::*;

verus! {

/// What a walk does after one dereference.
#[derive(Clone, Copy, Debug, PartialEq, Eq, Structural)]
pub enum ChainStep {
    /// Dereference this address next.
    Dereference(usize),
    /// The walk is over: this is the target.
    Resolved(usize),
    /// A link was null, or the next address lies past the address space.
    Broken,
}

/// The step that follows when `hop` offsets have been applied and the last
/// dereference returned `value`.
pub open spec fn step_after(offsets: Seq<usize>, hop: int, value: usize) -> ChainStep {
    if hop >= offsets.len() {
        ChainStep::Resolved(value)
    } else if value == 0 || value + offsets[hop] > usize::MAX {
        ChainStep::Broken
    } else {
        ChainStep::Dereference((value + offsets[hop]) as usize)
    }
}

/// Where the walk ends when `hop` offsets have been applied and the last
/// dereference returned `value`: the target, or `None` for a null link or an
/// address that `view` does not hold.
pub open spec fn walk(view: ImageView, offsets: Seq<usize>, hop: int, value: usize) -> Option<
    usize,
>
    decreases offsets.len() - hop,
{
    match step_after(offsets, hop, value) {
        ChainStep::Resolved(target) => Some(target),
        ChainStep::Broken => None,
        ChainStep::Dereference(addr) => match view.pointer(addr as int) {
            Some(next) => walk(view, offsets, hop + 1, next),
            None => None,
        },
    }
}

/// The target of the chain `(base_addr, offsets)` in `view`. With no offsets
/// it is the pointer stored at `base_addr`.
pub open spec fn chain_target(view: ImageView, base_addr: usize, offsets: Seq<usize>) -> Option<
    usize,
> {
    match view.pointer(base_addr as int) {
        Some(first) => walk(view, offsets, 0, first),
        None => None,
    }
}

/// The record a chain keeps of its last target.
pub struct ChangeRecord {
    pub last_value: Option<usize>,
    pub should_update: bool,
}

impl ChangeRecord {
    /// The record after the chain resolved to `target`: a target that differs
    /// from the recorded one raises the flag, the first target and an
    /// unchanged one leave it as it was.
    pub open spec fn observe(self, target: usize) -> ChangeRecord {
        ChangeRecord {
            last_value: Some(target),
            should_update: self.should_update || (self.last_value.is_some()
                && self.last_value.unwrap() != target),
        }
    }
}

/// Resolving to the recorded target changes nothing.
pub proof fn lemma_observe_unchanged(record: ChangeRecord, target: usize)
    requires
        record.last_value == Some(target),
    ensures
        record.observe(target) == record,
{
}

/// Resolving to another target than the recorded one raises the flag.
pub proof fn lemma_observe_changed(record: ChangeRecord, target: usize)
    requires
        record.last_value.is_some(),
        record.last_value != Some(target),
    ensures
        record.observe(target).should_update,
        record.observe(target).last_value == Some(target),
{
}

/// Resolving twice to one target is the same as resolving once: a second
/// resolution without change leaves the flag as the first left it, and if the
/// consumer cleared the flag in between it stays clear.
pub proof fn lemma_observe_twice(record: ChangeRecord, target: usize)
    ensures
        record.observe(target).observe(target) == record.observe(target),
        (ChangeRecord { last_value: record.observe(target).last_value, should_update: false })
            .observe(target).should_update == false,
{
}

/// A chain that resolves to an object of type `T`.
pub struct Pointer<T> {
    pub base_addr: usize,
    pub offsets: Vec<usize>,
    pub _marker: PhantomData<T>,
    /// The target of the last resolution that reached one.
    pub last_value: Option<usize>,
    /// Raised when a resolution reaches another target than the last one;
    /// cleared only by the consumer.
    pub should_update: bool,
}

impl<T> Pointer<T> {
    pub open spec fn record(&self) -> ChangeRecord {
        ChangeRecord { last_value: self.last_value, should_update: self.should_update }
    }

    pub fn new(base_addr: usize, offsets: Vec<usize>) -> (chain: Self)
        ensures
            chain.base_addr == base_addr,
            chain.offsets@ == offsets@,
            chain.last_value.is_none(),
            !chain.should_update,
    {
        Self { base_addr, offsets, _marker: PhantomData, last_value: None, should_update: false }
    }

    /// The address that a walk dereferences first.
    pub fn start(&self) -> (addr: usize)
        ensures
            addr == self.base_addr,
    {
        self.base_addr
    }

    /// The number of offsets in the chain.
    pub fn hops(&self) -> (n: usize)
        ensures
            n == self.offsets@.len(),
    {
        self.offsets.len()
    }

    /// What the walk does when `hop` offsets have been applied and the last
    /// dereference returned `value`.
    pub fn advance(&self, hop: usize, value: usize) -> (step: ChainStep)
        ensures
            step == step_after(self.offsets@, hop as int, value),
    {
        if hop >= self.offsets.len() {
            ChainStep::Resolved(value)
        } else if value == 0 {
            ChainStep::Broken
        } else {
            match value.checked_add(self.offsets[hop]) {
                Some(addr) => ChainStep::Dereference(addr),
                None => ChainStep::Broken,
            }
        }
    }

    /// Records that the chain resolved to `target`.
    pub fn observe(&mut self, target: usize)
        ensures
            final(self).record() == old(self).record().observe(target),
            final(self).base_addr == old(self).base_addr,
            final(self).offsets@ == old(self).offsets@,
    {
        match self.last_value {
            Some(last) => {
                if last != target {
                    self.last_value = Some(target);
                    self.should_update = true;
                }
            },
            None => {
                self.last_value = Some(target);
            },
        }
    }

    /// Resolves the chain in `image` and records the target. A broken chain
    /// gives `None` and leaves the record as it was.
    pub fn read(&mut self, image: &MemoryImage) -> (target: Option<usize>)
        ensures
            target == chain_target(image@, old(self).base_addr, old(self).offsets@),
            final(self).base_addr == old(self).base_addr,
            final(self).offsets@ == old(self).offsets@,
            final(self).record() == match target {
                Some(addr) => old(self).record().observe(addr),
                None => old(self).record(),
            },
    {
        let mut value: usize = match image.read_pointer(self.base_addr) {
            Some(first) => first,
            None => {
                return None;
            },
        };
        let mut hop: usize = 0;
        loop
            invariant
                hop <= self.offsets@.len(),
                *self == *old(self),
                chain_target(image@, self.base_addr, self.offsets@) == walk(
                    image@,
                    self.offsets@,
                    hop as int,
                    value,
                ),
            decreases self.offsets@.len() - hop,
        {
            match self.advance(hop, value) {
                ChainStep::Resolved(target) => {
                    self.observe(target);
                    return Some(target);
                },
                ChainStep::Broken => {
                    return None;
                },
                ChainStep::Dereference(addr) => {
                    match image.read_pointer(addr) {
                        Some(next) => {
                            assert(hop < self.offsets.len());
                            value = next;
                            hop = hop + 1;
                        },
                        None => {
                            return None;
                        },
                    }
                },
            }
        }
    }
}

} // verus!
