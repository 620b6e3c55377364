//! One cached block with its journaling flags.

use vstd::prelude::*;
use crate::device::{Block, DeviceError, WriteBack, WriteBackView, BLOCK_SZ};

verus! {

/// The state of a buffer as the contracts speak of it.
///
/// The five flags are independent bits: no operation of the cache couples
/// one to another. `private` is an attachment owned by the transaction
/// engine, stored and returned as it was given.
pub struct BufferView<P> {
    pub block_id: usize,
    pub data: Seq<u8>,
    /// The content differs from what the medium holds: a write-back is owed.
    pub modified: bool,
    /// The buffer was logged into the running transaction.
    pub jbd_dirty: bool,
    /// The transaction engine has claimed the buffer.
    pub jbd_managed: bool,
    /// The buffer's earlier journal record is superseded.
    pub revoked: bool,
    /// `revoked` has been decided for the current epoch.
    pub revoke_valid: bool,
    pub private: Option<P>,
}

impl<P> BufferView<P> {
    /// A buffer as it is right after its block was read.
    pub open spec fn fresh(block_id: usize, data: Seq<u8>) -> Self {
        BufferView {
            block_id,
            data,
            modified: false,
            jbd_dirty: false,
            jbd_managed: false,
            revoked: false,
            revoke_valid: false,
            private: None,
        }
    }

    /// The write that a flush of this buffer asks for, if any.
    pub open spec fn write_back(self) -> Option<WriteBackView> {
        if self.modified {
            Some(WriteBackView { block_id: self.block_id, data: self.data })
        } else {
            None
        }
    }

    /// The buffer after a flush.
    pub open spec fn synced(self) -> Self {
        BufferView { modified: false, ..self }
    }

    pub open spec fn with_modified(self, value: bool) -> Self {
        BufferView { modified: value, ..self }
    }

    pub open spec fn with_jbd_dirty(self, value: bool) -> Self {
        BufferView { jbd_dirty: value, ..self }
    }

    pub open spec fn with_jbd_managed(self, value: bool) -> Self {
        BufferView { jbd_managed: value, ..self }
    }

    pub open spec fn with_revoked(self, value: bool) -> Self {
        BufferView { revoked: value, ..self }
    }

    pub open spec fn with_revoke_valid(self, value: bool) -> Self {
        BufferView { revoke_valid: value, ..self }
    }

    pub open spec fn with_private(self, value: Option<P>) -> Self {
        BufferView { private: value, ..self }
    }

    pub open spec fn with_data(self, value: Seq<u8>) -> Self {
        BufferView { data: value, ..self }
    }

    /// What a collaborator reads that consults `revoke_valid` before it
    /// trusts `revoked`: `Some` of the decision once one was made,
    /// `None` while the question is open.
    pub open spec fn revocation(self) -> Option<bool> {
        if self.revoke_valid {
            Some(self.revoked)
        } else {
            None
        }
    }
}

/// A block held in memory.
pub struct BlockCache<P> {
    cache: Box<Block>,
    block_id: usize,
    modified: bool,
    jbd_dirty: bool,
    private: Option<P>,
    jbd_managed: bool,
    revoked: bool,
    revoke_valid: bool,
}

impl<P> View for BlockCache<P> {
    type V = BufferView<P>;

    closed spec fn view(&self) -> BufferView<P> {
        BufferView {
            block_id: self.block_id,
            data: self.cache@,
            modified: self.modified,
            jbd_dirty: self.jbd_dirty,
            jbd_managed: self.jbd_managed,
            revoked: self.revoked,
            revoke_valid: self.revoke_valid,
            private: self.private,
        }
    }
}

impl<P> BlockCache<P> {
    /// Makes the buffer of `block_id` out of the outcome of reading that
    /// block. All flags start false and nothing is attached. A failed read
    /// makes no buffer.
    pub fn new(block_id: usize, read: Result<Block, DeviceError>) -> (r: Result<Self, DeviceError>)
        ensures
            match read {
                Ok(data) => r is Ok && r->Ok_0@ == BufferView::<P>::fresh(block_id, data@),
                Err(e) => r is Err && r->Err_0 == e,
            },
    {
        match read {
            Ok(data) => Ok(
                BlockCache {
                    cache: Box::new(data),
                    block_id,
                    modified: false,
                    jbd_dirty: false,
                    private: None,
                    jbd_managed: false,
                    revoked: false,
                    revoke_valid: false,
                },
            ),
            Err(e) => Err(e),
        }
    }

    /// A buffer always holds exactly one block.
    pub proof fn lemma_block_sized(&self)
        ensures
            self@.data.len() == BLOCK_SZ,
    {
    }

    /// Flushes the buffer: when a write-back is owed, returns the request
    /// for it, holding the current content, and clears `modified`.
    /// Otherwise returns nothing. No other flag is touched.
    #[must_use]
    pub fn sync(&mut self) -> (r: Option<WriteBack>)
        ensures
            final(self)@ == old(self)@.synced(),
            match r {
                Some(w) => old(self)@.write_back() == Some(w@),
                None => old(self)@.write_back() is None,
            },
    {
        if self.modified {
            self.modified = false;
            Some(WriteBack { block_id: self.block_id, data: *self.cache })
        } else {
            None
        }
    }

    /// Gives the buffer up. What [`BlockCache::sync`] would have asked to be
    /// written is returned, so that no modified content is lost with the
    /// buffer; a buffer that owes no write-back leaves without a trace.
    #[must_use]
    pub fn release(self) -> (r: Option<WriteBack>)
        ensures
            match r {
                Some(w) => self@.write_back() == Some(w@),
                None => self@.write_back() is None,
            },
    {
        let mut buffer = self;
        buffer.sync()
    }

    pub fn block_id(&self) -> (r: usize)
        ensures
            r == self@.block_id,
    {
        self.block_id
    }

    /// The length of the content, which is that of one block.
    pub fn size(&self) -> (r: usize)
        ensures
            r == BLOCK_SZ,
            r == self@.data.len(),
    {
        BLOCK_SZ
    }

    pub fn dirty(&self) -> (r: bool)
        ensures
            r == self@.modified,
    {
        self.modified
    }

    pub fn mark_dirty(&mut self)
        ensures
            final(self)@ == old(self)@.with_modified(true),
    {
        self.modified = true;
    }

    pub fn clear_dirty(&mut self)
        ensures
            final(self)@ == old(self)@.with_modified(false),
    {
        self.modified = false;
    }

    pub fn jbd_dirty(&self) -> (r: bool)
        ensures
            r == self@.jbd_dirty,
    {
        self.jbd_dirty
    }

    pub fn mark_jbd_dirty(&mut self)
        ensures
            final(self)@ == old(self)@.with_jbd_dirty(true),
    {
        self.jbd_dirty = true;
    }

    pub fn clear_jbd_dirty(&mut self)
        ensures
            final(self)@ == old(self)@.with_jbd_dirty(false),
    {
        self.jbd_dirty = false;
    }

    /// The content, open to change. Writing through the reference does not
    /// set `modified`: whoever changes the content marks the buffer.
    pub fn data(&mut self) -> (d: &mut Block)
        ensures
            d@ == old(self)@.data,
            final(self)@ == old(self)@.with_data(final(d)@),
    {
        &mut *self.cache
    }

    pub fn private(&self) -> (r: &Option<P>)
        ensures
            *r == self@.private,
    {
        &self.private
    }

    pub fn set_private(&mut self, private: Option<P>)
        ensures
            final(self)@ == old(self)@.with_private(private),
    {
        self.private = private;
    }

    pub fn jbd_managed(&self) -> (r: bool)
        ensures
            r == self@.jbd_managed,
    {
        self.jbd_managed
    }

    pub fn set_jbd_managed(&mut self, managed: bool)
        ensures
            final(self)@ == old(self)@.with_jbd_managed(managed),
    {
        self.jbd_managed = managed;
    }

    pub fn revoked(&self) -> (r: bool)
        ensures
            r == self@.revoked,
    {
        self.revoked
    }

    pub fn set_revoked(&mut self)
        ensures
            final(self)@ == old(self)@.with_revoked(true),
    {
        self.revoked = true;
    }

    pub fn clear_revoked(&mut self)
        ensures
            final(self)@ == old(self)@.with_revoked(false),
    {
        self.revoked = false;
    }

    pub fn revoke_valid(&self) -> (r: bool)
        ensures
            r == self@.revoke_valid,
    {
        self.revoke_valid
    }

    pub fn set_revoke_valid(&mut self)
        ensures
            final(self)@ == old(self)@.with_revoke_valid(true),
    {
        self.revoke_valid = true;
    }

    pub fn clear_revoke_valid(&mut self)
        ensures
            final(self)@ == old(self)@.with_revoke_valid(false),
    {
        self.revoke_valid = false;
    }

    /// Reads `modified` and clears it in one step; the value read is
    /// returned, so that of two callers only one learns of a set flag.
    pub fn test_clear_dirty(&mut self) -> (prior: bool)
        ensures
            prior == old(self)@.modified,
            final(self)@ == old(self)@.with_modified(false),
    {
        let ret = self.modified;
        self.modified = false;
        ret
    }

    /// Reads `jbd_dirty` and clears it in one step; returns the value read.
    pub fn test_clear_jbd_dirty(&mut self) -> (prior: bool)
        ensures
            prior == old(self)@.jbd_dirty,
            final(self)@ == old(self)@.with_jbd_dirty(false),
    {
        let ret = self.jbd_dirty;
        self.jbd_dirty = false;
        ret
    }

    /// Reads `revoke_valid` and clears it in one step; returns the value read.
    pub fn test_clear_revoke_valid(&mut self) -> (prior: bool)
        ensures
            prior == old(self)@.revoke_valid,
            final(self)@ == old(self)@.with_revoke_valid(false),
    {
        let ret = self.revoke_valid;
        self.revoke_valid = false;
        ret
    }

    /// Reads `revoked` and clears it in one step; returns the value read.
    pub fn test_clear_revoked(&mut self) -> (prior: bool)
        ensures
            prior == old(self)@.revoked,
            final(self)@ == old(self)@.with_revoked(false),
    {
        let ret = self.revoked;
        self.revoked = false;
        ret
    }

    /// Reads `modified` and sets it in one step; returns the value read.
    pub fn test_set_dirty(&mut self) -> (prior: bool)
        ensures
            prior == old(self)@.modified,
            final(self)@ == old(self)@.with_modified(true),
    {
        let ret = self.modified;
        self.modified = true;
        ret
    }

    /// Reads `jbd_dirty` and sets it in one step; returns the value read.
    pub fn test_set_jbd_dirty(&mut self) -> (prior: bool)
        ensures
            prior == old(self)@.jbd_dirty,
            final(self)@ == old(self)@.with_jbd_dirty(true),
    {
        let ret = self.jbd_dirty;
        self.jbd_dirty = true;
        ret
    }

    /// Reads `revoke_valid` and sets it in one step; returns the value read.
    pub fn test_set_revoke_valid(&mut self) -> (prior: bool)
        ensures
            prior == old(self)@.revoke_valid,
            final(self)@ == old(self)@.with_revoke_valid(true),
    {
        let ret = self.revoke_valid;
        self.revoke_valid = true;
        ret
    }

    /// Reads `revoked` and sets it in one step; returns the value read.
    pub fn test_set_revoked(&mut self) -> (prior: bool)
        ensures
            prior == old(self)@.revoked,
            final(self)@ == old(self)@.with_revoked(true),
    {
        let ret = self.revoked;
        self.revoked = true;
        ret
    }
}

/// Marking a buffer and flushing it asks for exactly one write, of the
/// content the buffer holds at that moment, and leaves `modified` false.
/// A second flush asks for nothing and changes nothing.
pub proof fn lemma_sync_writes_once<P>(s: BufferView<P>)
    ensures
        s.with_modified(true).write_back() == Some(
            WriteBackView { block_id: s.block_id, data: s.data },
        ),
        !s.with_modified(true).synced().modified,
        s.with_modified(true).synced().write_back() is None,
        s.with_modified(true).synced().synced() == s.with_modified(true).synced(),
{
}

/// A flush is a matter between the buffer and the medium: it leaves the
/// journal's flags, the attachment, the content and the id as they were.
pub proof fn lemma_sync_keeps_journal_state<P>(s: BufferView<P>)
    ensures
        s.synced().jbd_dirty == s.jbd_dirty,
        s.synced().jbd_managed == s.jbd_managed,
        s.synced().revoked == s.revoked,
        s.synced().revoke_valid == s.revoke_valid,
        s.synced().private == s.private,
        s.synced().data == s.data,
        s.synced().block_id == s.block_id,
{
}

/// After `jbd_dirty` was marked, the first test-and-clear reads true and
/// every later one reads false, whatever else is done to the buffer in
/// between, until the flag is marked again.
pub proof fn lemma_test_clear_jbd_dirty_once<P>(s: BufferView<P>)
    ensures
        s.with_jbd_dirty(true).jbd_dirty,
        !s.with_jbd_dirty(true).with_jbd_dirty(false).jbd_dirty,
        s.with_jbd_dirty(false).with_jbd_dirty(false) == s.with_jbd_dirty(false),
        forall|v: bool| #[trigger] s.with_modified(v).jbd_dirty == s.jbd_dirty,
        forall|v: bool| #[trigger] s.with_jbd_managed(v).jbd_dirty == s.jbd_dirty,
        forall|v: bool| #[trigger] s.with_revoked(v).jbd_dirty == s.jbd_dirty,
        forall|v: bool| #[trigger] s.with_revoke_valid(v).jbd_dirty == s.jbd_dirty,
        forall|p: Option<P>| #[trigger] s.with_private(p).jbd_dirty == s.jbd_dirty,
        forall|d: Seq<u8>| #[trigger] s.with_data(d).jbd_dirty == s.jbd_dirty,
        s.synced().jbd_dirty == s.jbd_dirty,
{
}

/// `revoked` and `revoke_valid` do not move each other. So a buffer whose
/// `revoked` was set while `revoke_valid` is false does not read as
/// revoked to a collaborator that consults `revoke_valid` first.
pub proof fn lemma_revoked_independent_of_revoke_valid<P>(s: BufferView<P>)
    ensures
        forall|v: bool| #[trigger] s.with_revoked(v).revoke_valid == s.revoke_valid,
        forall|v: bool| #[trigger] s.with_revoke_valid(v).revoked == s.revoked,
        !s.revoke_valid ==> s.with_revoked(true).revocation() is None,
        forall|v: bool| #[trigger] s.with_revoked(v).with_revoke_valid(true).revocation() == Some(v),
{
}

/// Giving up a modified buffer asks for one write, of that buffer's block
/// id and content; giving up an unmodified one asks for none.
pub proof fn lemma_release_flushes_modified<P>(s: BufferView<P>)
    ensures
        s.modified ==> s.write_back() == Some(
            WriteBackView { block_id: s.block_id, data: s.data },
        ),
        !s.modified ==> s.write_back() is None,
{
}

} // verus!
