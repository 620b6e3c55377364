//! Blocks, the requests the cache makes of a storage medium, and the adapter
//! that turns a medium's replies into results.

use vstd::prelude::*;

verus! {

/// Length of one block in bytes.
pub const BLOCK_SZ: usize = 512;

/// One block's content.
pub type Block = [u8; BLOCK_SZ];

/// An I/O failure of the storage medium.
#[derive(Clone, Copy, Debug, PartialEq, Eq, Structural)]
pub enum DeviceError {
    /// A block could not be read in full.
    ReadFailed,
    /// A block could not be written in full.
    WriteFailed,
}

/// A block that the caller is asked to persist.
#[derive(Debug)]
pub struct WriteBack {
    pub block_id: usize,
    pub data: Block,
}

/// What a [`WriteBack`] stands for: the block's id and its bytes.
pub struct WriteBackView {
    pub block_id: usize,
    pub data: Seq<u8>,
}

impl View for WriteBack {
    type V = WriteBackView;

    open spec fn view(&self) -> WriteBackView {
        WriteBackView { block_id: self.block_id, data: self.data@ }
    }
}

/// One positioned transfer that the medium is asked to make.
#[derive(Clone, Copy, Debug, PartialEq, Eq, Structural)]
pub struct Transfer {
    /// Where the medium's cursor is set before the transfer.
    pub position: u64,
    /// How many bytes have to pass for the transfer to count.
    pub len: usize,
}

/// The adapter between block-indexed I/O and a medium that takes one
/// positioned transfer at a time. It says where each transfer goes and
/// judges what the medium reports: a block passes in full or the call
/// fails. It does not try again.
pub struct DiskWrapper;

impl DiskWrapper {
    pub fn block_size(&self) -> (r: usize)
        ensures
            r == BLOCK_SZ,
    {
        BLOCK_SZ
    }

    /// The transfer that fills a buffer of `buf_len` bytes with block
    /// `block_id`. A buffer that is not one block long is refused.
    pub fn read_block(&self, block_id: usize, buf_len: usize) -> (r: Result<Transfer, DeviceError>)
        ensures
            buf_len == BLOCK_SZ ==> r is Ok && r->Ok_0.position == block_id && r->Ok_0.len
                == BLOCK_SZ,
            buf_len != BLOCK_SZ ==> r == Err::<Transfer, DeviceError>(DeviceError::ReadFailed),
    {
        if buf_len == BLOCK_SZ {
            Ok(Transfer { position: block_id as u64, len: BLOCK_SZ })
        } else {
            Err(DeviceError::ReadFailed)
        }
    }

    /// The transfer that persists a buffer of `buf_len` bytes as block
    /// `block_id`. A buffer that is not one block long is refused.
    pub fn write_block(&self, block_id: usize, buf_len: usize) -> (r: Result<Transfer, DeviceError>)
        ensures
            buf_len == BLOCK_SZ ==> r is Ok && r->Ok_0.position == block_id && r->Ok_0.len
                == BLOCK_SZ,
            buf_len != BLOCK_SZ ==> r == Err::<Transfer, DeviceError>(DeviceError::WriteFailed),
    {
        if buf_len == BLOCK_SZ {
            Ok(Transfer { position: block_id as u64, len: BLOCK_SZ })
        } else {
            Err(DeviceError::WriteFailed)
        }
    }

    /// Judges a read by the number of bytes the medium reported to have
    /// delivered, `None` where it reported a failure. The read succeeds
    /// exactly when one whole block arrived.
    pub fn read_done(&self, transferred: Option<usize>) -> (r: Result<(), DeviceError>)
        ensures
            transferred == Some(BLOCK_SZ) ==> r is Ok,
            transferred != Some(BLOCK_SZ) ==> r == Err::<(), DeviceError>(DeviceError::ReadFailed),
    {
        match transferred {
            Some(n) => {
                if n == BLOCK_SZ {
                    Ok(())
                } else {
                    Err(DeviceError::ReadFailed)
                }
            },
            None => Err(DeviceError::ReadFailed),
        }
    }

    /// Judges a write by the number of bytes the medium reported to have
    /// taken, `None` where it reported a failure. The write succeeds
    /// exactly when it took one whole block.
    pub fn write_done(&self, transferred: Option<usize>) -> (r: Result<(), DeviceError>)
        ensures
            transferred == Some(BLOCK_SZ) ==> r is Ok,
            transferred != Some(BLOCK_SZ) ==> r == Err::<(), DeviceError>(DeviceError::WriteFailed),
    {
        match transferred {
            Some(n) => {
                if n == BLOCK_SZ {
                    Ok(())
                } else {
                    Err(DeviceError::WriteFailed)
                }
            },
            None => Err(DeviceError::WriteFailed),
        }
    }
}

} // verus!
