use vstd::prelude::*;

verus! {

/// A single named capability, representable as a bit position in a
/// capability set.
#[derive(Debug, Clone, Copy, PartialEq, Eq, Structural)]
pub enum Permission {
    ViewChannel,
    SendMessage,
    ManageChannel,
    ManageRole,
    SendEmbeds,
    UploadFiles,
    Masquerade,
    InviteOthers,
    React,
}

/// Why a request was refused.
///
/// `ValidationError` rejects malformed input before any domain logic runs.
/// `PermissionDenied` reports a missing capability. `NotOwner`, `NotInGroup`
/// and `InvalidOperation` are business-rule violations of channel mutation.
/// `NotFound` reports an absent entity, `DatabaseError` a storage failure,
/// and `NotSupported` a storage verb the selected backend does not implement.
#[derive(Debug, PartialEq, Eq)]
pub enum Error {
    ValidationError { errors: Vec<String> },
    PermissionDenied { permission: Permission },
    NotOwner,
    NotInGroup,
    InvalidOperation,
    NotFound,
    DatabaseError,
    NotSupported,
    IsBot,
    NotAllowed,
    MissingPermission,
    InvalidProperty,
}

} // verus!
