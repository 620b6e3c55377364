//! The registry of cached buffers: at most one buffer per block id.

use std::collections::BTreeMap;
use vstd::prelude::*;
use crate::buffer::{BlockCache, BufferView};
use crate::device::{Block, DeviceError, WriteBack, WriteBackView};

verus! {

/// `BTreeMap::get_mut`: a mutable reference to the value stored under
/// `key`, if there is one. Through the reference that value alone can be
/// changed; the keys and every other value stay as they are.
#[verifier::external_body]
fn map_get_mut<V>(map: &mut BTreeMap<usize, V>, key: usize) -> (r: Option<&mut V>)
    ensures
        match r {
            Some(value) => old(map)@.contains_key(key) && *value == old(map)@[key] && final(map)@
                == old(map)@.insert(key, *final(value)),
            None => !old(map)@.contains_key(key) && final(map)@ == old(map)@,
        },
{
    map.get_mut(&key)
}

/// `BTreeMap::pop_first`: removes the entry with the least key and returns
/// it; `None`, and no change, when the map is empty.
#[verifier::external_body]
fn map_pop_first<V>(map: &mut BTreeMap<usize, V>) -> (r: Option<(usize, V)>)
    ensures
        match r {
            Some((key, value)) => old(map)@.contains_key(key) && old(map)@[key] == value && (
            forall|other: usize| old(map)@.contains_key(other) ==> key <= other) && final(map)@
                == old(map)@.remove(key),
            None => old(map)@ == Map::<usize, V>::empty() && final(map)@ == old(map)@,
        },
{
    map.pop_first()
}

/// The views of a run of write requests.
pub open spec fn request_views(requests: Seq<WriteBack>) -> Seq<WriteBackView> {
    requests.map_values(|w: WriteBack| w@)
}

/// The ids below `bound` under which a modified buffer is cached, in
/// ascending order.
pub open spec fn dirty_ids_below<P>(m: Map<usize, BufferView<P>>, bound: nat) -> Seq<usize>
    decreases bound,
{
    if bound == 0 {
        Seq::empty()
    } else {
        let id = (bound - 1) as usize;
        let below = dirty_ids_below(m, (bound - 1) as nat);
        if m.contains_key(id) && m[id].modified {
            below.push(id)
        } else {
            below
        }
    }
}

/// All ids under which a modified buffer is cached, in ascending order.
pub open spec fn dirty_ids<P>(m: Map<usize, BufferView<P>>) -> Seq<usize> {
    dirty_ids_below(m, (usize::MAX + 1) as nat)
}

/// The write-back that the buffer cached under `id` owes when modified.
pub open spec fn write_back_of<P>(m: Map<usize, BufferView<P>>, id: usize) -> WriteBackView {
    WriteBackView { block_id: m[id].block_id, data: m[id].data }
}

/// The write-backs owed by the buffers of a registry: one for each
/// modified buffer, in ascending order of the ids they are cached under.
pub open spec fn pending_writes<P>(m: Map<usize, BufferView<P>>) -> Seq<WriteBackView> {
    dirty_ids(m).map_values(|id: usize| write_back_of(m, id))
}

/// The buffer that a request for `block_id` is answered with: the cached
/// one, or else a fresh one made of the content `read` from the medium.
pub open spec fn get_or_create<P>(
    m: Map<usize, BufferView<P>>,
    block_id: usize,
    read: Seq<u8>,
) -> BufferView<P> {
    if m.contains_key(block_id) {
        m[block_id]
    } else {
        BufferView::fresh(block_id, read)
    }
}

/// Every buffer sits under the id of its own block.
pub open spec fn consistent<P>(m: Map<usize, BufferView<P>>) -> bool {
    forall|id: usize| m.contains_key(id) ==> (#[trigger] m[id]).block_id == id
}

/// Ids in `[from, to)` under which nothing is cached are no dirty ids.
proof fn lemma_dirty_ids_gap<P>(m: Map<usize, BufferView<P>>, from: nat, to: nat)
    requires
        from <= to <= usize::MAX + 1,
        forall|id: usize| from <= id < to ==> !m.contains_key(id),
    ensures
        dirty_ids_below(m, to) == dirty_ids_below(m, from),
    decreases to,
{
    if from < to {
        lemma_dirty_ids_gap(m, from, (to - 1) as nat);
    }
}

/// What `dirty_ids_below` holds: exactly the ids below `bound` with a
/// modified buffer, each once, the smaller before the larger.
proof fn lemma_dirty_ids_below<P>(m: Map<usize, BufferView<P>>, bound: nat)
    requires
        bound <= usize::MAX + 1,
    ensures
        forall|i: int|
            0 <= i < dirty_ids_below(m, bound).len() ==> {
                let id = #[trigger] dirty_ids_below(m, bound)[i];
                id < bound && m.contains_key(id) && m[id].modified
            },
        forall|i: int, j: int|
            0 <= i < j < dirty_ids_below(m, bound).len() ==> dirty_ids_below(m, bound)[i]
                < dirty_ids_below(m, bound)[j],
        forall|id: usize|
            id < bound && m.contains_key(id) && m[id].modified ==> dirty_ids_below(
                m,
                bound,
            ).contains(id),
    decreases bound,
{
    if bound > 0 {
        let below = dirty_ids_below(m, (bound - 1) as nat);
        let last = (bound - 1) as usize;
        lemma_dirty_ids_below(m, (bound - 1) as nat);
        let all = dirty_ids_below(m, bound);
        assert forall|id: usize| id < bound && m.contains_key(id) && m[id].modified implies all.contains(
            id,
        ) by {
            if id == last {
                assert(all[all.len() - 1] == id);
            } else {
                assert(below.contains(id));
                let i = choose|i: int| 0 <= i < below.len() && below[i] == id;
                assert(all[i] == id);
            }
        }
    }
}

/// The registry: every cached buffer under the id of its block.
///
/// The registry owns the buffers. A caller works on one through the
/// reference that a lookup hands out, and as long as it holds that
/// reference nobody else can reach the registry. Entries leave only in
/// [`BlockCacheManager::clear_all`].
pub struct BlockCacheManager<P> {
    queue: BTreeMap<usize, BlockCache<P>>,
}

impl<P> View for BlockCacheManager<P> {
    type V = Map<usize, BufferView<P>>;

    closed spec fn view(&self) -> Map<usize, BufferView<P>> {
        Map::new(|id: usize| self.queue@.contains_key(id), |id: usize| self.queue@[id]@)
    }
}

impl<P> BlockCacheManager<P> {
    pub fn new() -> (r: Self)
        ensures
            r@ == Map::<usize, BufferView<P>>::empty(),
    {
        let r = BlockCacheManager { queue: BTreeMap::new() };
        assert(r@ =~= Map::<usize, BufferView<P>>::empty());
        r
    }

    /// Whether a buffer for `block_id` is cached.
    pub fn is_cached(&self, block_id: usize) -> (r: bool)
        ensures
            r == self@.contains_key(block_id),
    {
        self.queue.contains_key(&block_id)
    }

    /// The cached buffer of `block_id`. `None` says that the block is not
    /// cached and has to be read: its content goes to
    /// [`BlockCacheManager::load_block_cache`]. A lookup changes nothing
    /// in the registry except what the caller does through the reference.
    pub fn get_block_cache(&mut self, block_id: usize) -> (r: Option<&mut BlockCache<P>>)
        ensures
            match r {
                Some(buffer) => old(self)@.contains_key(block_id) && buffer@ == old(
                    self,
                )@[block_id] && final(self)@ == old(self)@.insert(block_id, final(buffer)@),
                None => !old(self)@.contains_key(block_id) && final(self)@ == old(self)@,
            },
    {
        map_get_mut(&mut self.queue, block_id)
    }

    /// Caches the buffer of `block_id` from the outcome of reading that
    /// block, and hands it out. Where a buffer of `block_id` is cached
    /// already, that one is handed out and `read` is dropped: a block never
    /// has two buffers. A failed read caches nothing.
    pub fn load_block_cache(&mut self, block_id: usize, read: Result<Block, DeviceError>) -> (r:
        Result<&mut BlockCache<P>, DeviceError>)
        ensures
            match r {
                Ok(buffer) => {
                    &&& final(self)@ == old(self)@.insert(block_id, final(buffer)@)
                    &&& old(self)@.contains_key(block_id) || read is Ok
                    &&& read is Ok ==> buffer@ == get_or_create(old(self)@, block_id, read->Ok_0@)
                    &&& old(self)@.contains_key(block_id) ==> buffer@ == old(self)@[block_id]
                },
                Err(e) => {
                    &&& !old(self)@.contains_key(block_id)
                    &&& read == Err::<Block, DeviceError>(e)
                    &&& final(self)@ == old(self)@
                },
            },
    {
        if !self.queue.contains_key(&block_id) {
            match BlockCache::new(block_id, read) {
                Ok(buffer) => {
                    self.queue.insert(block_id, buffer);
                },
                Err(e) => {
                    return Err(e);
                },
            }
        }
        Ok(map_get_mut(&mut self.queue, block_id).unwrap())
    }

    /// Empties the registry. Every buffer is given up, in ascending order
    /// of the ids, and the write-backs they owe are returned in that order:
    /// one for each modified buffer, none for the others.
    #[must_use]
    pub fn clear_all(&mut self) -> (writes: Vec<WriteBack>)
        ensures
            final(self)@ == Map::<usize, BufferView<P>>::empty(),
            request_views(writes@) == pending_writes(old(self)@),
    {
        let mut writes: Vec<WriteBack> = Vec::new();
        let ghost before = self@;
        let ghost mut done: nat = 0;
        loop
            invariant
                done <= usize::MAX + 1,
                request_views(writes@) == dirty_ids_below(before, done).map_values(
                    |id: usize| write_back_of(before, id),
                ),
                forall|id: usize| self@.contains_key(id) ==> id >= done,
                forall|id: usize|
                    id >= done ==> (self@.contains_key(id) <==> before.contains_key(id)),
                forall|id: usize| self@.contains_key(id) ==> self@[id] == before[id],
            ensures
                self@ == Map::<usize, BufferView<P>>::empty(),
                request_views(writes@) == pending_writes(before),
            decreases self.queue@.dom().len(),
        {
            let ghost queue_before = self.queue@;
            let ghost cached_before = self@;
            match map_pop_first(&mut self.queue) {
                Some((id, buffer)) => {
                    proof {
                        assert(cached_before.contains_key(id));
                        assert(self.queue@.dom() =~= queue_before.dom().remove(id));
                        lemma_dirty_ids_gap(before, done, id as nat);
                        done = (id + 1) as nat;
                    }
                    let ghost earlier = writes@;
                    match buffer.release() {
                        Some(w) => {
                            writes.push(w);
                            proof {
                                assert(request_views(writes@) =~= request_views(earlier).push(
                                    w@,
                                ));
                            }
                        },
                        None => {},
                    }
                },
                None => {
                    proof {
                        assert(self@ =~= Map::<usize, BufferView<P>>::empty());
                        lemma_dirty_ids_gap(before, done, (usize::MAX + 1) as nat);
                    }
                    break ;
                },
            }
        }
        writes
    }
}

/// `dirty_ids` lists exactly the ids under which a modified buffer is
/// cached, each once, the smaller before the larger; `pending_writes`
/// holds the write-back of each, in the same places.
pub proof fn lemma_pending_writes<P>(m: Map<usize, BufferView<P>>)
    ensures
        pending_writes(m).len() == dirty_ids(m).len(),
        forall|i: int|
            0 <= i < dirty_ids(m).len() ==> {
                let id = #[trigger] dirty_ids(m)[i];
                &&& m.contains_key(id)
                &&& m[id].modified
                &&& pending_writes(m)[i] == write_back_of(m, id)
            },
        forall|i: int, j: int|
            0 <= i < j < dirty_ids(m).len() ==> dirty_ids(m)[i] < dirty_ids(m)[j],
        forall|id: usize| m.contains_key(id) && m[id].modified ==> dirty_ids(m).contains(id),
{
    lemma_dirty_ids_below(m, (usize::MAX + 1) as nat);
}

/// A registry without a modified buffer owes no write-back.
pub proof fn lemma_pending_writes_clean<P>(m: Map<usize, BufferView<P>>)
    requires
        forall|id: usize| m.contains_key(id) ==> !(#[trigger] m[id]).modified,
    ensures
        pending_writes(m) == Seq::<WriteBackView>::empty(),
{
    lemma_pending_writes(m);
    if dirty_ids(m).len() > 0 {
        let id = dirty_ids(m)[0];
        assert(m[id].modified);
    }
    assert(pending_writes(m) =~= Seq::<WriteBackView>::empty());
}

/// A block has one buffer. Once a request for `block_id` was answered,
/// and the buffer it was answered with was left as `left`, the registry
/// holds that buffer under `block_id` and every later request for
/// `block_id` is answered with it, whatever a read would bring. No other
/// entry is touched.
pub proof fn lemma_one_buffer_per_block<P>(
    m: Map<usize, BufferView<P>>,
    block_id: usize,
    left: BufferView<P>,
    read: Seq<u8>,
)
    ensures
        m.insert(block_id, left).contains_key(block_id),
        get_or_create(m.insert(block_id, left), block_id, read) == left,
        m.insert(block_id, left).dom() == m.dom().insert(block_id),
        forall|other: usize|
            other != block_id && m.contains_key(other) ==> #[trigger] m.insert(
                block_id,
                left,
            )[other] == m[other],
{
}

/// The requests keep every buffer under the id of its own block: a fresh
/// buffer carries the id it was asked for, and a buffer handed out stays
/// in place as long as the caller leaves it its id.
pub proof fn lemma_consistent<P>(
    m: Map<usize, BufferView<P>>,
    block_id: usize,
    left: BufferView<P>,
    read: Seq<u8>,
)
    requires
        consistent(m),
    ensures
        get_or_create(m, block_id, read).block_id == block_id,
        left.block_id == block_id ==> consistent(m.insert(block_id, left)),
        consistent(Map::<usize, BufferView<P>>::empty()),
{
}

/// Emptying the registry flushes before it evicts. The write-backs it
/// returns hold the one of a modified buffer exactly once, with that
/// buffer's content, and none for an unmodified buffer. Afterwards nothing
/// is cached: the next request for a block that was cached is answered
/// with a buffer made of a fresh read.
pub proof fn lemma_clear_all_flushes_then_evicts<P>(
    m: Map<usize, BufferView<P>>,
    block_id: usize,
    read: Seq<u8>,
)
    requires
        m.contains_key(block_id),
    ensures
        m[block_id].modified ==> exists|i: int|
            {
                &&& 0 <= i < pending_writes(m).len()
                &&& #[trigger] dirty_ids(m)[i] == block_id
                &&& pending_writes(m)[i] == write_back_of(m, block_id)
                &&& forall|j: int|
                    0 <= j < dirty_ids(m).len() && j != i ==> dirty_ids(m)[j] != block_id
            },
        !m[block_id].modified ==> !dirty_ids(m).contains(block_id),
        !Map::<usize, BufferView<P>>::empty().contains_key(block_id),
        get_or_create(Map::<usize, BufferView<P>>::empty(), block_id, read) == BufferView::<
            P,
        >::fresh(block_id, read),
{
    lemma_pending_writes(m);
    if m[block_id].modified {
        assert(dirty_ids(m).contains(block_id));
        let i = choose|i: int| 0 <= i < dirty_ids(m).len() && dirty_ids(m)[i] == block_id;
        assert forall|j: int| 0 <= j < dirty_ids(m).len() && j != i implies dirty_ids(m)[j]
            != block_id by {
            if j < i {
                assert(dirty_ids(m)[j] < dirty_ids(m)[i]);
            } else {
                assert(dirty_ids(m)[i] < dirty_ids(m)[j]);
            }
        }
    } else {
        if dirty_ids(m).contains(block_id) {
            let i = choose|i: int| 0 <= i < dirty_ids(m).len() && dirty_ids(m)[i] == block_id;
            assert(m[dirty_ids(m)[i]].modified);
        }
    }
}

} // verus!
