use vstd::prelude::*;

verus! {

/// Whether the host gives files POSIX-style permission bits.
#[derive(Debug, Clone, Copy, PartialEq, Eq, Structural)]
pub enum PermissionModel {
    /// Permission bits for owner, group and others.
    PosixModeBits,
    /// No permission bits; access is left to the platform's defaults.
    NoModeBits,
}

/// Read and write for the owner, nothing for group or others.
pub const OWNER_ONLY_MODE: u32 = 0o600;

/// The bits that grant any access to group or others.
pub const GROUP_OTHER_BITS: u32 = 0o077;

/// The mode the configuration file is given after it is written, or `None`
/// where the host has no permission bits and hardening does nothing.
pub fn hardening_mode(model: PermissionModel) -> (r: Option<u32>)
    ensures
        model is PosixModeBits ==> r == Some(OWNER_ONLY_MODE),
        model is NoModeBits ==> r is None,
{
    match model {
        PermissionModel::PosixModeBits => Some(OWNER_ONLY_MODE),
        PermissionModel::NoModeBits => None,
    }
}

/// The hardened mode grants no access to group or others, and lets the owner
/// read and write.
pub proof fn lemma_owner_only_mode()
    ensures
        OWNER_ONLY_MODE & GROUP_OTHER_BITS == 0,
        OWNER_ONLY_MODE & 0o600u32 == 0o600u32,
{
    assert(0o600u32 & 0o077u32 == 0) by (bit_vector);
    assert(0o600u32 & 0o600u32 == 0o600u32) by (bit_vector);
}

} // verus!
