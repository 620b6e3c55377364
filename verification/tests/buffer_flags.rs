use jbd_cache::buffer::BlockCache;
use jbd_cache::device::{Block, DeviceError, BLOCK_SZ};

fn pattern(seed: u8) -> Block {
    let mut block = [0u8; BLOCK_SZ];
    for (i, byte) in block.iter_mut().enumerate() {
        *byte = seed.wrapping_add(i as u8);
    }
    block
}

fn buffer(block_id: usize, seed: u8) -> BlockCache<u32> {
    BlockCache::new(block_id, Ok(pattern(seed))).unwrap()
}

#[test]
fn new_buffer_starts_clean() {
    let mut b = buffer(7, 3);
    assert_eq!(b.block_id(), 7);
    assert_eq!(b.size(), 512);
    assert!(!b.dirty());
    assert!(!b.jbd_dirty());
    assert!(!b.jbd_managed());
    assert!(!b.revoked());
    assert!(!b.revoke_valid());
    assert!(b.private().is_none());
    assert_eq!(*b.data(), pattern(3));
}

#[test]
fn new_buffer_fails_with_the_read() {
    let r: Result<BlockCache<u32>, DeviceError> = BlockCache::new(7, Err(DeviceError::ReadFailed));
    assert!(matches!(r, Err(DeviceError::ReadFailed)));
}

#[test]
fn dirty_flag_set_and_cleared() {
    let mut b = buffer(1, 0);
    b.mark_dirty();
    assert!(b.dirty());
    b.clear_dirty();
    assert!(!b.dirty());
}

#[test]
fn jbd_dirty_flag_set_and_cleared() {
    let mut b = buffer(1, 0);
    b.mark_jbd_dirty();
    assert!(b.jbd_dirty());
    assert!(!b.dirty());
    b.clear_jbd_dirty();
    assert!(!b.jbd_dirty());
}

#[test]
fn jbd_managed_follows_its_argument() {
    let mut b = buffer(1, 0);
    b.set_jbd_managed(true);
    assert!(b.jbd_managed());
    assert!(!b.dirty() && !b.jbd_dirty() && !b.revoked() && !b.revoke_valid());
    b.set_jbd_managed(false);
    assert!(!b.jbd_managed());
}

#[test]
fn revoked_flag_set_and_cleared() {
    let mut b = buffer(1, 0);
    b.set_revoked();
    assert!(b.revoked());
    b.clear_revoked();
    assert!(!b.revoked());
}

#[test]
fn revoke_valid_flag_set_and_cleared() {
    let mut b = buffer(1, 0);
    b.set_revoke_valid();
    assert!(b.revoke_valid());
    b.clear_revoke_valid();
    assert!(!b.revoke_valid());
}

#[test]
fn revoked_alone_is_not_confirmed() {
    let mut b = buffer(1, 0);
    b.set_revoked();
    assert!(b.revoked());
    assert!(!b.revoke_valid());
    let confirmed = b.revoke_valid() && b.revoked();
    assert!(!confirmed);
    b.set_revoke_valid();
    assert!(b.revoke_valid() && b.revoked());
    b.clear_revoked();
    assert!(b.revoke_valid());
    assert!(!b.revoked());
}

#[test]
fn test_clear_dirty_returns_prior_value() {
    let mut b = buffer(1, 0);
    assert!(!b.test_clear_dirty());
    b.mark_dirty();
    assert!(b.test_clear_dirty());
    assert!(!b.dirty());
    assert!(!b.test_clear_dirty());
}

#[test]
fn test_clear_jbd_dirty_is_true_once_per_mark() {
    let mut b = buffer(1, 0);
    assert!(!b.test_clear_jbd_dirty());
    b.mark_jbd_dirty();
    b.mark_dirty();
    b.set_revoked();
    assert!(b.test_clear_jbd_dirty());
    assert!(!b.test_clear_jbd_dirty());
    assert!(!b.test_clear_jbd_dirty());
    b.mark_jbd_dirty();
    assert!(b.test_clear_jbd_dirty());
    assert!(!b.jbd_dirty());
    assert!(b.dirty());
    assert!(b.revoked());
}

#[test]
fn test_clear_revoked_returns_prior_value() {
    let mut b = buffer(1, 0);
    assert!(!b.test_clear_revoked());
    b.set_revoked();
    assert!(b.test_clear_revoked());
    assert!(!b.revoked());
}

#[test]
fn test_clear_revoke_valid_returns_prior_value() {
    let mut b = buffer(1, 0);
    assert!(!b.test_clear_revoke_valid());
    b.set_revoke_valid();
    assert!(b.test_clear_revoke_valid());
    assert!(!b.revoke_valid());
}

#[test]
fn test_set_revoked_returns_prior_value() {
    let mut b = buffer(1, 0);
    assert!(!b.test_set_revoked());
    assert!(b.revoked());
    assert!(b.test_set_revoked());
    assert!(b.revoked());
    assert!(!b.revoke_valid());
}

#[test]
fn test_set_revoke_valid_returns_prior_value() {
    let mut b = buffer(1, 0);
    assert!(!b.test_set_revoke_valid());
    assert!(b.revoke_valid());
    assert!(b.test_set_revoke_valid());
    assert!(!b.revoked());
}

#[test]
fn test_set_dirty_returns_prior_value() {
    let mut b = buffer(1, 0);
    assert!(!b.test_set_dirty());
    assert!(b.dirty());
    assert!(b.test_set_dirty());
}

#[test]
fn test_set_jbd_dirty_returns_prior_value() {
    let mut b = buffer(1, 0);
    assert!(!b.test_set_jbd_dirty());
    assert!(b.jbd_dirty());
    assert!(b.test_set_jbd_dirty());
    assert!(!b.dirty());
}

#[test]
fn sync_writes_once_with_current_content() {
    let mut b = buffer(9, 1);
    b.data()[0] = 0xAB;
    b.data()[511] = 0xCD;
    b.mark_dirty();
    let w = b.sync().expect("a modified buffer owes a write");
    assert_eq!(w.block_id, 9);
    let mut expected = pattern(1);
    expected[0] = 0xAB;
    expected[511] = 0xCD;
    assert_eq!(w.data, expected);
    assert!(!b.dirty());
    assert!(b.sync().is_none());
    assert!(!b.dirty());
}

#[test]
fn sync_of_a_clean_buffer_writes_nothing() {
    let mut b = buffer(9, 1);
    assert!(b.sync().is_none());
    b.mark_jbd_dirty();
    assert!(b.sync().is_none());
    assert!(b.jbd_dirty());
}

#[test]
fn sync_leaves_the_journal_flags() {
    let mut b = buffer(2, 0);
    b.mark_dirty();
    b.mark_jbd_dirty();
    b.set_jbd_managed(true);
    b.set_revoked();
    b.set_revoke_valid();
    b.set_private(Some(41));
    assert!(b.sync().is_some());
    assert!(!b.dirty());
    assert!(b.jbd_dirty());
    assert!(b.jbd_managed());
    assert!(b.revoked());
    assert!(b.revoke_valid());
    assert_eq!(*b.private(), Some(41));
    assert_eq!(b.block_id(), 2);
}

#[test]
fn release_of_a_modified_buffer_asks_for_one_write() {
    let mut b = buffer(12, 5);
    b.data()[3] = 99;
    b.mark_dirty();
    let w = b.release().expect("modified content must not be lost");
    assert_eq!(w.block_id, 12);
    let mut expected = pattern(5);
    expected[3] = 99;
    assert_eq!(w.data, expected);
}

#[test]
fn release_of_a_clean_buffer_asks_for_nothing() {
    let b = buffer(12, 5);
    assert!(b.release().is_none());
    let mut c = buffer(13, 5);
    c.mark_dirty();
    assert!(c.sync().is_some());
    assert!(c.release().is_none());
}

#[test]
fn data_changes_do_not_mark_the_buffer() {
    let mut b = buffer(4, 0);
    b.data()[10] = 77;
    assert!(!b.dirty());
    assert_eq!(b.data()[10], 77);
    assert_eq!(b.data().len(), 512);
    assert!(b.sync().is_none());
}

#[test]
fn private_is_stored_verbatim() {
    let mut b: BlockCache<String> = BlockCache::new(1, Ok(pattern(0))).unwrap();
    assert!(b.private().is_none());
    b.set_private(Some(String::from("journal head")));
    assert_eq!(b.private().as_deref(), Some("journal head"));
    b.mark_dirty();
    b.set_revoked();
    assert_eq!(b.private().as_deref(), Some("journal head"));
    b.set_private(None);
    assert!(b.private().is_none());
    assert!(b.dirty() && b.revoked());
}
