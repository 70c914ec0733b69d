//! The life of a storage: first its driver or partition is set up, then its
//! file system is mounted. Each step is allowed once, and in that order.

use vstd::prelude::*;

verus! {

/// How far a storage has come.
#[derive(Debug, Copy, Clone, PartialEq, Eq, Structural)]
pub enum StoragePhase {
    /// Nothing is set up.
    Init,
    /// The driver is installed, or the partition initialized.
    Installed,
    /// The file system is mounted.
    Mounted,
}

/// What a storage is set up from.
#[derive(Debug, Copy, Clone, PartialEq, Eq, Structural)]
pub enum Medium {
    /// A card, reached through a driver.
    Card,
    /// The internal flash, reached through a partition.
    Flash,
}

/// Why a step is not allowed in the phase that the storage is in.
#[derive(Debug, Copy, Clone, PartialEq, Eq, Structural)]
pub enum PhaseError {
    AlreadyInstalled,
    AlreadyMounted,
    NotInstalled,
}

/// Whether the storage may be set up: only from `Init`.
pub open spec fn install_check(phase: StoragePhase) -> Result<(), PhaseError> {
    match phase {
        StoragePhase::Init => Ok(()),
        StoragePhase::Installed => Err(PhaseError::AlreadyInstalled),
        StoragePhase::Mounted => Err(PhaseError::AlreadyMounted),
    }
}

/// Whether the file system may be mounted: only once the storage is set up
/// and not yet mounted.
pub open spec fn mount_check(phase: StoragePhase) -> Result<(), PhaseError> {
    match phase {
        StoragePhase::Init => Err(PhaseError::NotInstalled),
        StoragePhase::Installed => Ok(()),
        StoragePhase::Mounted => Err(PhaseError::AlreadyMounted),
    }
}

/// What the owner of a storage reads when a step is refused.
pub open spec fn phase_error_message(error: PhaseError, medium: Medium) -> Seq<char> {
    match (error, medium) {
        (PhaseError::AlreadyInstalled, Medium::Card) => "Driver already installed"@,
        (PhaseError::AlreadyInstalled, Medium::Flash) => "Already installed"@,
        (PhaseError::AlreadyMounted, _) => "File system already mounted"@,
        (PhaseError::NotInstalled, Medium::Card) => "Driver not installed yet"@,
        (PhaseError::NotInstalled, Medium::Flash) => "Partition not initialized yet"@,
    }
}

impl StoragePhase {
    /// Whether the storage may be set up now.
    pub fn check_install(self) -> (allowed: Result<(), PhaseError>)
        ensures
            allowed == install_check(self),
    {
        match self {
            StoragePhase::Init => Ok(()),
            StoragePhase::Installed => Err(PhaseError::AlreadyInstalled),
            StoragePhase::Mounted => Err(PhaseError::AlreadyMounted),
        }
    }

    /// Whether the file system may be mounted now.
    pub fn check_mount(self) -> (allowed: Result<(), PhaseError>)
        ensures
            allowed == mount_check(self),
    {
        match self {
            StoragePhase::Init => Err(PhaseError::NotInstalled),
            StoragePhase::Installed => Ok(()),
            StoragePhase::Mounted => Err(PhaseError::AlreadyMounted),
        }
    }
}

impl PhaseError {
    /// What the owner of a storage reads when a step is refused.
    pub fn message(self, medium: Medium) -> (text: &'static str)
        ensures
            text@ == phase_error_message(self, medium),
    {
        match self {
            PhaseError::AlreadyInstalled => match medium {
                Medium::Card => "Driver already installed",
                Medium::Flash => "Already installed",
            },
            PhaseError::AlreadyMounted => "File system already mounted",
            PhaseError::NotInstalled => match medium {
                Medium::Card => "Driver not installed yet",
                Medium::Flash => "Partition not initialized yet",
            },
        }
    }
}

/// A storage is mounted only after it was set up: from `Init`, mounting is
/// refused until a set-up was allowed, and each step is allowed in exactly
/// one phase.
pub proof fn lemma_steps_in_order(phase: StoragePhase)
    ensures
        install_check(phase) is Ok <==> phase == StoragePhase::Init,
        mount_check(phase) is Ok <==> phase == StoragePhase::Installed,
        !(install_check(phase) is Ok && mount_check(phase) is Ok),
{
}

} // verus!
