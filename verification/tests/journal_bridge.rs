use jbd_cache::device::BLOCK_SZ;
use jbd_cache::journal::{
    block_cache_clear_all, block_cache_manager, get_buffer_dyn, CacheManagerWrapper,
    SystemProvider,
};

#[test]
fn a_new_provider_caches_nothing() {
    let mut provider: CacheManagerWrapper<u32> = CacheManagerWrapper::new();
    assert!(provider.get_buffer(0).is_none());
    assert!(get_buffer_dyn(&mut provider, 3).is_none());
    assert!(block_cache_clear_all(&mut provider).is_empty());
}

#[test]
fn the_provider_hands_out_the_cached_buffer() {
    let mut provider: CacheManagerWrapper<u32> = CacheManagerWrapper::new();
    block_cache_manager(&mut provider)
        .load_block_cache(3, Ok([8u8; BLOCK_SZ]))
        .unwrap()
        .set_jbd_managed(true);
    {
        let b = get_buffer_dyn(&mut provider, 3).expect("block 3 is cached");
        assert_eq!(b.block_id(), 3);
        assert!(b.jbd_managed());
        b.mark_jbd_dirty();
    }
    let same = provider.get_buffer(3).expect("block 3 is cached");
    assert!(same.jbd_dirty());
    assert!(provider.get_buffer(4).is_none());
}

#[test]
fn block_cache_clear_all_returns_the_owed_writes() {
    let mut provider: CacheManagerWrapper<u32> = CacheManagerWrapper::new();
    block_cache_manager(&mut provider).load_block_cache(2, Ok([2u8; BLOCK_SZ])).unwrap().mark_dirty();
    block_cache_manager(&mut provider).load_block_cache(1, Ok([1u8; BLOCK_SZ])).unwrap();
    block_cache_manager(&mut provider).load_block_cache(0, Ok([0u8; BLOCK_SZ])).unwrap().mark_dirty();
    let writes = block_cache_clear_all(&mut provider);
    assert_eq!(writes.len(), 2);
    assert_eq!(writes[0].block_id, 0);
    assert_eq!(writes[0].data, [0u8; BLOCK_SZ]);
    assert_eq!(writes[1].block_id, 2);
    assert_eq!(writes[1].data, [2u8; BLOCK_SZ]);
    assert!(provider.get_buffer(0).is_none());
    assert!(provider.get_buffer(1).is_none());
    assert!(provider.get_buffer(2).is_none());
    assert!(block_cache_clear_all(&mut provider).is_empty());
}

#[test]
fn the_handle_slot_is_empty_at_startup() {
    let system: SystemProvider<u32, String> = SystemProvider::new();
    assert!(system.get_current_handle().is_none());
}

#[test]
fn the_handle_slot_stores_what_it_is_given() {
    let mut system: SystemProvider<u32, String> = SystemProvider::new();
    system.set_current_handle(Some(String::from("t1")));
    assert_eq!(system.get_current_handle().map(|h| h.as_str()), Some("t1"));
    assert_eq!(system.get_current_handle().map(|h| h.as_str()), Some("t1"));
    system.set_current_handle(Some(String::from("t2")));
    assert_eq!(system.get_current_handle().map(|h| h.as_str()), Some("t2"));
    system.set_current_handle(None);
    assert!(system.get_current_handle().is_none());
}

#[test]
fn the_handle_slot_and_the_cache_do_not_touch() {
    let mut system: SystemProvider<u32, u64> = SystemProvider::new();
    block_cache_manager(system.get_buffer_provider())
        .load_block_cache(11, Ok([1u8; BLOCK_SZ]))
        .unwrap()
        .mark_dirty();
    system.set_current_handle(Some(77));
    assert!(system.get_buffer_provider().get_buffer(11).unwrap().dirty());
    assert_eq!(system.get_current_handle(), Some(&77));
    let writes = block_cache_clear_all(system.get_buffer_provider());
    assert_eq!(writes.len(), 1);
    assert_eq!(system.get_current_handle(), Some(&77));
}

#[test]
fn the_clock_stands_at_zero() {
    let system: SystemProvider<u32, u64> = SystemProvider::new();
    assert_eq!(system.get_time(), 0);
}
