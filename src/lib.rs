//! Request payloads for revocation-registry ledger transactions, and the
//! state-proof inputs (lookup key and timestamp window) derived from them.
pub mod envelope;
pub mod identifiers;
pub mod laws;
pub mod protocol;
pub mod rev_reg;

pub use envelope::{
    RevocationRegistry, RevocationRegistryDelta, RevocationRegistryDeltaV1, RevocationRegistryV1,
};
pub use identifiers::{RegistryType, RevocationRegistryId};
pub use protocol::{
    clamp_timestamp, get_sp_key_marker, ProtocolVersion, RequestType, VdrError, VdrResult,
    GET_REVOC_REG, GET_REVOC_REG_DELTA, REVOC_REG_ENTRY,
};
pub use rev_reg::{GetRevRegDeltaOperation, GetRevRegOperation, RevRegEntryOperation};
