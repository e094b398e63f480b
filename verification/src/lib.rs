//! Core of a minimal simulated device kernel: a bump-style region allocator,
//! a privacy-masking shield, a power-mode profile, and the kernel core that
//! wires them together.

use vstd::prelude::*;

pub mod memory_manager;
pub mod power;
pub mod privacy;

verus! {

/// How aggressively the privacy shield transforms input strings before
/// exposure.
#[derive(Debug, Clone, Copy)]
pub enum PrivacyLevel {
    Standard,
    High,
    Paranoid,
}

/// `std::time::Instant`, which vstd gives no specification; the identity
/// only stores one as an opaque session-start stamp.
#[verifier::external_type_specification]
#[verifier::external_body]
pub struct ExInstant(std::time::Instant);

/// Relies on `std::time::Instant::now`: a monotonic-clock reading. Nothing
/// is promised of the value, which depends on the time of the call.
pub assume_specification[ std::time::Instant::now ]() -> (stamp: std::time::Instant);

/// A locally generated user identity: an anonymous id, an authentication
/// flag (never set in current scope), and the session start time.
pub struct AuraIdentity {
    pub id: String,
    pub is_authenticated: bool,
    pub session_start: std::time::Instant,
}

/// A deterministic local stand-in for unique-id generation.
fn uuid_placeholder() -> (id: String)
    ensures
        id@ == "7x92-kLp1-0001"@,
{
    String::from_str("7x92-kLp1-0001")
}

impl AuraIdentity {
    /// A fresh anonymous, unauthenticated identity stamped with the current
    /// time.
    pub fn new() -> (identity: Self)
        ensures
            identity.id@ == "ANON-"@ + "7x92-kLp1-0001"@,
            !identity.is_authenticated,
    {
        Self {
            id: String::from_str("ANON-").concat(uuid_placeholder().as_str()),
            is_authenticated: false,
            session_start: std::time::Instant::now(),
        }
    }
}

/// The capacity the kernel core reserves for itself at boot.
pub const KERNEL_CAPACITY: usize = 1024 * 1024;

/// The fixed-size allocation boot performs for the security module.
pub const SHIELD_RESERVATION: usize = 4096;

/// Composition root: owns one instance of each subsystem and the generated
/// identity.
pub struct KernelCore {
    pub version: &'static str,
    pub privacy_level: PrivacyLevel,
    pub user_identity: AuraIdentity,
    pub privacy_shield: privacy::PrivacyShield,
    pub power_manager: power::PowerManager,
    pub memory_manager: memory_manager::MemoryManager,
}

impl KernelCore {
    /// Constructs the subsystems and reserves the security module's region.
    /// Reporting what was brought up is the caller's concern.
    pub fn boot() -> (core: Self)
        ensures
            core.version@ == "1.0.0-alpha.1"@,
            core.privacy_level is High,
            core.privacy_shield.level is High,
            core.power_manager.mode is Balanced,
            core.user_identity.id@ == "ANON-"@ + "7x92-kLp1-0001"@,
            !core.user_identity.is_authenticated,
            core.memory_manager.wf(),
            core.memory_manager.capacity() == KERNEL_CAPACITY,
            core.memory_manager.allocated() == SHIELD_RESERVATION,
    {
        let mut memory = memory_manager::MemoryManager::new(KERNEL_CAPACITY);
        let reservation = memory.allocate_region(SHIELD_RESERVATION);
        assert(reservation is Ok);
        Self {
            version: "1.0.0-alpha.1",
            privacy_level: PrivacyLevel::High,
            user_identity: AuraIdentity::new(),
            privacy_shield: privacy::PrivacyShield::new(PrivacyLevel::High),
            power_manager: power::PowerManager::new(),
            memory_manager: memory,
        }
    }
}

} // verus!
