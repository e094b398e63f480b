use aura_kernel::power::{PowerCoreMode, PowerManager};
use aura_kernel::{AuraIdentity, KernelCore, PrivacyLevel};

#[test]
fn power_manager_starts_balanced() {
    let manager = PowerManager::new();
    assert!(matches!(manager.mode, PowerCoreMode::Balanced));
    assert_eq!(manager.get_optimization_factor(), 75);
    assert_eq!(manager.mode_label(), "BALANCED");
}

#[test]
fn optimization_factor_per_mode() {
    let performance = PowerManager { mode: PowerCoreMode::Performance };
    let balanced = PowerManager { mode: PowerCoreMode::Balanced };
    let efficient = PowerManager { mode: PowerCoreMode::Efficient };
    assert_eq!(performance.get_optimization_factor(), 100);
    assert_eq!(balanced.get_optimization_factor(), 75);
    assert_eq!(efficient.get_optimization_factor(), 40);
    assert_eq!(performance.mode_label(), "PERFORMANCE");
    assert_eq!(efficient.mode_label(), "EFFICIENT");
}

#[test]
fn identity_is_anonymous_and_unauthenticated() {
    let identity = AuraIdentity::new();
    assert_eq!(identity.id, "ANON-7x92-kLp1-0001");
    assert!(!identity.is_authenticated);
}

#[test]
fn boot_reserves_shield_region() {
    let core = KernelCore::boot();
    assert_eq!(core.version, "1.0.0-alpha.1");
    assert!(matches!(core.privacy_level, PrivacyLevel::High));
    assert!(matches!(core.privacy_shield.level, PrivacyLevel::High));
    assert!(matches!(core.power_manager.mode, PowerCoreMode::Balanced));
    assert!(!core.user_identity.is_authenticated);
    assert_eq!(core.memory_manager.get_usage(), (4096, 1024 * 1024));
}

#[test]
fn booted_core_masks_demonstration_data() {
    let core = KernelCore::boot();
    assert_eq!(core.privacy_shield.mask_data("user@example.com"), "***@masked.ch");
}
