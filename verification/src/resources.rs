//! Shared ownership of GPU resources, released exactly once.
//!
//! Textures and shaders are shared: a shader serves several materials,
//! a baked map outlives the pass that made it. The pool counts the
//! references to each entry and frees an entry only when the last
//! reference is released, so the underlying GPU resource is released
//! exactly once, however many components held it.

use vstd::prelude::*;

use crate::texture::TextureHandle;

verus! {

/// One pooled resource: its handle, how many references are live, and
/// whether it has been freed.
#[derive(Clone, Copy, Debug, PartialEq, Eq, Structural)]
pub struct PoolEntry {
    /// The texture the entry owns.
    pub handle: TextureHandle,
    /// How many references are live.
    pub refs: usize,
    /// Whether the underlying resource has been freed.
    pub released: bool,
}

/// A reference-counting pool of texture resources.
#[derive(Debug)]
pub struct TexturePool {
    /// The pooled entries; an entry's index is its id for good.
    pub entries: Vec<PoolEntry>,
}

impl TexturePool {
    /// An entry is freed exactly when no reference to it is live.
    pub open spec fn wf(self) -> bool {
        forall|i: int|
            0 <= i < self.entries@.len() ==> ((#[trigger] self.entries@[i]).released <==> self
                .entries@[i].refs == 0)
    }

    /// An empty pool.
    pub fn new() -> (r: TexturePool)
        ensures
            r.wf(),
            r.entries@.len() == 0,
    {
        TexturePool { entries: Vec::new() }
    }

    /// How many entries the pool has ever adopted.
    pub fn len(&self) -> (n: usize)
        ensures
            n == self.entries@.len(),
    {
        self.entries.len()
    }

    /// The entry with id `id`, for inspection.
    pub fn entry(&self, id: usize) -> (r: Option<PoolEntry>)
        ensures
            id < self.entries@.len() ==> r == Some(self.entries@[id as int]),
            id >= self.entries@.len() ==> r is None,
    {
        if id < self.entries.len() {
            Some(self.entries[id])
        } else {
            None
        }
    }

    /// Adopts a texture into the pool with one live reference and
    /// returns its id.
    pub fn adopt(&mut self, handle: TextureHandle) -> (id: usize)
        requires
            old(self).wf(),
        ensures
            final(self).wf(),
            id == old(self).entries@.len(),
            final(self).entries@ == old(self).entries@.push(
                PoolEntry { handle, refs: 1, released: false },
            ),
    {
        let id = self.entries.len();
        self.entries.push(PoolEntry { handle, refs: 1, released: false });
        id
    }

    /// Takes one more reference to the entry at `id`, as another
    /// component starts sharing it. Fails on an unknown id, on a freed
    /// entry, and when the count would overflow.
    pub fn retain(&mut self, id: usize) -> (ok: bool)
        requires
            old(self).wf(),
        ensures
            final(self).wf(),
            final(self).entries@.len() == old(self).entries@.len(),
            ok == (id < old(self).entries@.len() && !old(self).entries@[id as int].released && old(
                self,
            ).entries@[id as int].refs < usize::MAX),
            forall|k: int|
                0 <= k < old(self).entries@.len() && k != id ==> final(self).entries@[k] == old(
                    self,
                ).entries@[k],
            ok ==> final(self).entries@[id as int] == (PoolEntry {
                refs: (old(self).entries@[id as int].refs + 1) as usize,
                ..old(self).entries@[id as int]
            }),
            !ok ==> *final(self) == *old(self),
    {
        if id < self.entries.len() {
            let entry = self.entries[id];
            if !entry.released && entry.refs < usize::MAX {
                self.entries.set(id, PoolEntry { refs: entry.refs + 1, ..entry });
                return true;
            }
        }
        false
    }

    /// Drops one reference to the entry at `id`. Returns whether this
    /// was the last reference, in which case the underlying resource is
    /// freed — once and never again: releasing an unknown id or an
    /// already freed entry does nothing and frees nothing.
    pub fn release(&mut self, id: usize) -> (freed: bool)
        requires
            old(self).wf(),
        ensures
            final(self).wf(),
            final(self).entries@.len() == old(self).entries@.len(),
            freed == (id < old(self).entries@.len() && !old(self).entries@[id as int].released
                && old(self).entries@[id as int].refs == 1),
            forall|k: int|
                0 <= k < old(self).entries@.len() && k != id ==> final(self).entries@[k] == old(
                    self,
                ).entries@[k],
            id < old(self).entries@.len() && !old(self).entries@[id as int].released
                ==> final(self).entries@[id as int] == (PoolEntry {
                refs: (old(self).entries@[id as int].refs - 1) as usize,
                released: old(self).entries@[id as int].refs == 1,
                handle: old(self).entries@[id as int].handle,
            }),
            id >= old(self).entries@.len() || old(self).entries@[id as int].released
                ==> *final(self) == *old(self),
    {
        if id < self.entries.len() {
            let entry = self.entries[id];
            if !entry.released {
                let refs = entry.refs - 1;
                self.entries.set(
                    id,
                    PoolEntry { refs, released: refs == 0, handle: entry.handle },
                );
                return refs == 0;
            }
        }
        false
    }
}

} // verus!
