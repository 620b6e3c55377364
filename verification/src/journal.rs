//! The bridge to the transaction engine: the buffer provider it asks for
//! buffers, and the slot that holds its current transaction.

use vstd::prelude::*;
use crate::buffer::{BlockCache, BufferView};
use crate::device::WriteBack;
use crate::manager::{pending_writes, request_views, BlockCacheManager};

verus! {

/// The buffer provider: the one place where the transaction engine meets
/// the cache. It owns the registry and adds nothing to what the registry
/// decides.
pub struct CacheManagerWrapper<P> {
    manager: BlockCacheManager<P>,
}

impl<P> View for CacheManagerWrapper<P> {
    type V = Map<usize, BufferView<P>>;

    closed spec fn view(&self) -> Map<usize, BufferView<P>> {
        self.manager@
    }
}

impl<P> CacheManagerWrapper<P> {
    pub fn new() -> (r: Self)
        ensures
            r@ == Map::<usize, BufferView<P>>::empty(),
    {
        CacheManagerWrapper { manager: BlockCacheManager::new() }
    }

    /// The buffer of `block_id`, as [`get_buffer_dyn`] gives it.
    pub fn get_buffer(&mut self, block_id: usize) -> (r: Option<&mut BlockCache<P>>)
        ensures
            match r {
                Some(buffer) => old(self)@.contains_key(block_id) && buffer@ == old(
                    self,
                )@[block_id] && final(self)@ == old(self)@.insert(block_id, final(buffer)@),
                None => !old(self)@.contains_key(block_id) && final(self)@ == old(self)@,
            },
    {
        get_buffer_dyn(self, block_id)
    }
}

/// The registry behind a provider, for the requests that the provider
/// does not make itself.
pub fn block_cache_manager<P>(provider: &mut CacheManagerWrapper<P>) -> (manager:
    &mut BlockCacheManager<P>)
    ensures
        manager@ == old(provider)@,
        final(provider)@ == final(manager)@,
{
    &mut provider.manager
}

/// Empties the registry behind a provider and returns the write-backs
/// that its buffers owe, as [`BlockCacheManager::clear_all`] does.
#[must_use]
pub fn block_cache_clear_all<P>(provider: &mut CacheManagerWrapper<P>) -> (writes: Vec<WriteBack>)
    ensures
        final(provider)@ == Map::<usize, BufferView<P>>::empty(),
        request_views(writes@) == pending_writes(old(provider)@),
{
    block_cache_manager(provider).clear_all()
}

/// The buffer that the transaction engine works on for `block_id`: the
/// cached one. `None` says that the block has to be read first and handed
/// to the registry.
pub fn get_buffer_dyn<P>(provider: &mut CacheManagerWrapper<P>, block_id: usize) -> (r: Option<
    &mut BlockCache<P>,
>)
    ensures
        match r {
            Some(buffer) => old(provider)@.contains_key(block_id) && buffer@ == old(
                provider,
            )@[block_id] && final(provider)@ == old(provider)@.insert(block_id, final(buffer)@),
            None => !old(provider)@.contains_key(block_id) && final(provider)@ == old(provider)@,
        },
{
    block_cache_manager(provider).get_block_cache(block_id)
}

/// What a [`SystemProvider`] holds: the cached buffers and the current
/// transaction handle.
pub struct SystemView<P, H> {
    pub buffers: Map<usize, BufferView<P>>,
    pub current_handle: Option<H>,
}

/// The services that the transaction engine asks of its host: the buffer
/// provider, the slot for the handle of the current transaction, and a
/// clock. The slot stores what it is given and judges nothing: that a
/// second transaction does not start while one is current is for the
/// engine to see to.
pub struct SystemProvider<P, H> {
    cache_manager: CacheManagerWrapper<P>,
    current_handle: Option<H>,
}

impl<P, H> View for SystemProvider<P, H> {
    type V = SystemView<P, H>;

    closed spec fn view(&self) -> SystemView<P, H> {
        SystemView { buffers: self.cache_manager@, current_handle: self.current_handle }
    }
}

impl<P, H> SystemProvider<P, H> {
    /// A host with nothing cached and no transaction current.
    pub fn new() -> (r: Self)
        ensures
            r@.buffers == Map::<usize, BufferView<P>>::empty(),
            r@.current_handle is None,
    {
        SystemProvider { cache_manager: CacheManagerWrapper::new(), current_handle: None }
    }

    pub fn get_buffer_provider(&mut self) -> (provider: &mut CacheManagerWrapper<P>)
        ensures
            provider@ == old(self)@.buffers,
            final(self)@ == (SystemView {
                buffers: final(provider)@,
                current_handle: old(self)@.current_handle,
            }),
    {
        &mut self.cache_manager
    }

    pub fn get_current_handle(&self) -> (r: Option<&H>)
        ensures
            match r {
                Some(handle) => self@.current_handle == Some(*handle),
                None => self@.current_handle is None,
            },
    {
        self.current_handle.as_ref()
    }

    pub fn get_time(&self) -> (r: usize)
        ensures
            r == 0,
    {
        0
    }

    pub fn set_current_handle(&mut self, handle: Option<H>)
        ensures
            final(self)@ == (SystemView { buffers: old(self)@.buffers, current_handle: handle }),
    {
        self.current_handle = handle;
    }
}

} // verus!
