use aura_kernel::memory_manager::{MemoryError, MemoryManager};

#[test]
fn test_successful_allocation() {
    let mut manager = MemoryManager::new(1024);
    let region = manager.allocate_region(512).unwrap();
    assert_eq!(region.size_limit, 512);
    assert_eq!(manager.get_usage().0, 512);
}

#[test]
fn test_out_of_memory() {
    let mut manager = MemoryManager::new(100);
    let result = manager.allocate_region(150);
    assert_eq!(result.err(), Some(MemoryError::OutOfMemory));
}

#[test]
fn test_invalid_alignment() {
    let mut manager = MemoryManager::new(100);
    let result = manager.allocate_region(0);
    assert_eq!(result.err(), Some(MemoryError::InvalidAlignment));
}

#[test]
fn successful_allocation_reports_usage_and_base() {
    let mut manager = MemoryManager::new(1024);
    let region = manager.allocate_region(512).unwrap();
    assert_eq!(region.base_address, 0x4000_0000);
    assert_eq!(region.size_limit, 512);
    assert_eq!(manager.get_usage(), (512, 1024));
}

#[test]
fn out_of_memory_leaves_usage_unchanged() {
    let mut manager = MemoryManager::new(100);
    let result = manager.allocate_region(150);
    assert_eq!(result.err(), Some(MemoryError::OutOfMemory));
    assert_eq!(manager.get_usage(), (0, 100));
}

#[test]
fn invalid_alignment_leaves_usage_unchanged() {
    let mut manager = MemoryManager::new(100);
    let result = manager.allocate_region(0);
    assert_eq!(result.err(), Some(MemoryError::InvalidAlignment));
    assert_eq!(manager.get_usage(), (0, 100));
}

#[test]
fn zero_size_fails_even_with_zero_capacity() {
    let mut manager = MemoryManager::new(0);
    let result = manager.allocate_region(0);
    assert_eq!(result.err(), Some(MemoryError::InvalidAlignment));
    assert_eq!(manager.get_usage(), (0, 0));
}

#[test]
fn any_size_fails_on_zero_capacity() {
    let mut manager = MemoryManager::new(0);
    let result = manager.allocate_region(1);
    assert_eq!(result.err(), Some(MemoryError::OutOfMemory));
    assert_eq!(manager.get_usage(), (0, 0));
}

#[test]
fn alternating_success_and_failure() {
    let mut manager = MemoryManager::new(100);
    assert!(manager.allocate_region(60).is_ok());
    assert_eq!(manager.get_usage(), (60, 100));
    assert_eq!(manager.allocate_region(50).err(), Some(MemoryError::OutOfMemory));
    assert_eq!(manager.get_usage(), (60, 100));
    assert!(manager.allocate_region(40).is_ok());
    assert_eq!(manager.get_usage(), (100, 100));
    assert_eq!(manager.allocate_region(1).err(), Some(MemoryError::OutOfMemory));
    assert_eq!(manager.get_usage(), (100, 100));
}

#[test]
fn sequential_regions_do_not_overlap() {
    let mut manager = MemoryManager::new(1000);
    let first = manager.allocate_region(100).unwrap();
    let second = manager.allocate_region(250).unwrap();
    let third = manager.allocate_region(650).unwrap();
    assert_eq!(first.base_address, 0x4000_0000);
    assert_eq!(second.base_address, 0x4000_0000 + 100);
    assert_eq!(third.base_address, 0x4000_0000 + 350);
    assert!(first.base_address + first.size_limit <= second.base_address);
    assert!(second.base_address + second.size_limit <= third.base_address);
    assert_eq!(manager.get_usage(), (1000, 1000));
}

#[test]
fn exact_fit_succeeds_and_one_more_byte_fails() {
    let mut manager = MemoryManager::new(64);
    let region = manager.allocate_region(64).unwrap();
    assert_eq!(region.size_limit, 64);
    assert_eq!(manager.get_usage(), (64, 64));
    assert_eq!(manager.allocate_region(1).err(), Some(MemoryError::OutOfMemory));
}

#[test]
fn usage_is_sum_of_granted_sizes() {
    let mut manager = MemoryManager::new(500);
    let sizes = [200usize, 400, 100, 150, 300, 50];
    let mut granted_sum = 0usize;
    for size in sizes {
        if let Ok(region) = manager.allocate_region(size) {
            assert_eq!(region.size_limit, size);
            granted_sum += size;
        }
        assert_eq!(manager.get_usage(), (granted_sum, 500));
        assert!(granted_sum <= 500);
    }
    assert_eq!(manager.get_usage(), (500, 500));
}
