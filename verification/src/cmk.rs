//! Customer-managed keys: wrapping of data-encryption keys under a tenant's key.
use vstd::prelude::*;

use crate::newtypes::TenantId;

verus! {

/// Why wrapping or unwrapping a data-encryption key failed.
#[derive(Debug, Clone, PartialEq, Eq)]
pub enum CmkError {
    WrapFailed(String),
    UnwrapFailed(String),
}

/// The description of each error.
pub open spec fn cmk_error_message(e: CmkError) -> Seq<char> {
    match e {
        CmkError::WrapFailed(m) => "wrap failed: "@ + m@,
        CmkError::UnwrapFailed(m) => "unwrap failed: "@ + m@,
    }
}

impl CmkError {
    /// Human-readable description: `wrap failed: ` or `unwrap failed: `
    /// followed by the provider's message.
    pub fn message(&self) -> (r: String)
        ensures
            r@ == cmk_error_message(*self),
    {
        match self {
            CmkError::WrapFailed(m) => String::from_str("wrap failed: ").concat(m.as_str()),
            CmkError::UnwrapFailed(m) => String::from_str("unwrap failed: ").concat(m.as_str()),
        }
    }
}

/// Customer-Managed Key provider: wraps and unwraps data-encryption keys.
///
/// The CMK itself is held by the tenant, never stored by Pulse. A production
/// provider integrates with a cloud KMS.
pub trait CmkProvider {
    /// Wrap (encrypt) a 32-byte DEK under the tenant's CMK.
    fn wrap_dek(&self, tenant_id: &TenantId, plaintext_dek: &[u8; 32]) -> Result<Vec<u8>, CmkError>;

    /// Unwrap (decrypt) a wrapped DEK using the tenant's CMK.
    fn unwrap_dek(&self, tenant_id: &TenantId, wrapped_dek: &[u8]) -> Result<[u8; 32], CmkError>;
}

} // verus!
