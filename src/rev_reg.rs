use vstd::prelude::*;

use ursa::cl::RevocationRegistryDelta as CryptoRevocationRegistryDelta;

use crate::envelope::RevocationRegistryDeltaV1;
use crate::identifiers::{RegistryType, RevocationRegistryId};
use crate::protocol::{
    build_sp_key, clamp_spec, clamp_timestamp, sp_key_bytes, ProtocolVersion, RequestType,
    VdrError, VdrResult, GET_REVOC_REG, GET_REVOC_REG_DELTA, REVOC_REG_ENTRY,
};

verus! {

/// Request that appends an accumulator delta to a revocation registry.
#[derive(Debug)]
pub struct RevRegEntryOperation {
    pub _type: String,
    pub revoc_reg_def_id: RevocationRegistryId,
    pub revoc_def_type: String,
    pub value: CryptoRevocationRegistryDelta,
}

impl RevRegEntryOperation {
    pub fn new(
        rev_def_type: &RegistryType,
        revoc_reg_def_id: &RevocationRegistryId,
        value: RevocationRegistryDeltaV1,
    ) -> (r: RevRegEntryOperation)
        ensures
            r._type@ == Self::txn_type_spec(),
            r.revoc_def_type@ == rev_def_type.name_spec(),
            r.revoc_reg_def_id@ == revoc_reg_def_id@,
            r.value == value.value,
    {
        RevRegEntryOperation {
            _type: Self::get_txn_type().to_string(),
            revoc_def_type: rev_def_type.to_str().to_string(),
            revoc_reg_def_id: revoc_reg_def_id.duplicate(),
            value: value.value,
        }
    }
}

/// A write has no state proof to check: no key and an unbounded window.
impl RequestType for RevRegEntryOperation {
    open spec fn txn_type_spec() -> Seq<char> {
        seq!['1', '1', '4']
    }

    open spec fn sp_key_spec(&self, protocol_version: ProtocolVersion) -> Option<Seq<u8>> {
        None
    }

    open spec fn sp_timestamps_spec(&self) -> (Option<u64>, Option<u64>) {
        (None, None)
    }

    fn get_txn_type() -> (r: &'static str) {
        proof {
            reveal_strlit("114");
        }
        REVOC_REG_ENTRY
    }

    fn get_sp_key(&self, protocol_version: ProtocolVersion) -> (r: VdrResult<Option<Vec<u8>>>) {
        Ok(None)
    }

    fn get_sp_timestamps(&self) -> (r: VdrResult<(Option<u64>, Option<u64>)>) {
        Ok((None, None))
    }
}

/// Request for the full state of a revocation registry as of a moment.
#[derive(Debug)]
pub struct GetRevRegOperation {
    pub _type: String,
    pub revoc_reg_def_id: RevocationRegistryId,
    pub timestamp: i64,
}

impl GetRevRegOperation {
    pub fn new(revoc_reg_def_id: &RevocationRegistryId, timestamp: i64) -> (r: GetRevRegOperation)
        ensures
            r._type@ == Self::txn_type_spec(),
            r.revoc_reg_def_id@ == revoc_reg_def_id@,
            r.timestamp == timestamp,
    {
        GetRevRegOperation {
            _type: Self::get_txn_type().to_string(),
            revoc_reg_def_id: revoc_reg_def_id.duplicate(),
            timestamp,
        }
    }
}

impl RequestType for GetRevRegOperation {
    open spec fn txn_type_spec() -> Seq<char> {
        seq!['1', '1', '6']
    }

    open spec fn sp_key_spec(&self, protocol_version: ProtocolVersion) -> Option<Seq<u8>> {
        Some(sp_key_bytes(6, protocol_version, self.revoc_reg_def_id@))
    }

    open spec fn sp_timestamps_spec(&self) -> (Option<u64>, Option<u64>) {
        (None, Some(clamp_spec(self.timestamp)))
    }

    fn get_txn_type() -> (r: &'static str) {
        proof {
            reveal_strlit("116");
        }
        GET_REVOC_REG
    }

    fn get_sp_key(&self, protocol_version: ProtocolVersion) -> (r: VdrResult<Option<Vec<u8>>>) {
        Ok(Some(build_sp_key(6, protocol_version, &self.revoc_reg_def_id)))
    }

    fn get_sp_timestamps(&self) -> (r: VdrResult<(Option<u64>, Option<u64>)>) {
        Ok((None, Some(clamp_timestamp(self.timestamp))))
    }
}

/// Request for the change of a revocation registry between two moments, or
/// since its creation when no lower bound is given.
#[derive(Debug)]
pub struct GetRevRegDeltaOperation {
    pub _type: String,
    pub revoc_reg_def_id: RevocationRegistryId,
    pub from: Option<i64>,
    pub to: i64,
}

impl GetRevRegDeltaOperation {
    pub fn new(revoc_reg_def_id: &RevocationRegistryId, from: Option<i64>, to: i64) -> (r:
        GetRevRegDeltaOperation)
        ensures
            r._type@ == Self::txn_type_spec(),
            r.revoc_reg_def_id@ == revoc_reg_def_id@,
            r.from == from,
            r.to == to,
    {
        GetRevRegDeltaOperation {
            _type: Self::get_txn_type().to_string(),
            revoc_reg_def_id: revoc_reg_def_id.duplicate(),
            from,
            to,
        }
    }
}

impl RequestType for GetRevRegDeltaOperation {
    open spec fn txn_type_spec() -> Seq<char> {
        seq!['1', '1', '7']
    }

    /// Marker 6 for a bounded range, marker 5 for a range open at its start.
    open spec fn sp_key_spec(&self, protocol_version: ProtocolVersion) -> Option<Seq<u8>> {
        Some(sp_key_bytes(if self.from is Some { 6 } else { 5 }, protocol_version, self.revoc_reg_def_id@))
    }

    open spec fn sp_timestamps_spec(&self) -> (Option<u64>, Option<u64>) {
        (
            match self.from {
                Some(f) => Some(clamp_spec(f)),
                None => None,
            },
            Some(clamp_spec(self.to)),
        )
    }

    fn get_txn_type() -> (r: &'static str) {
        proof {
            reveal_strlit("117");
        }
        GET_REVOC_REG_DELTA
    }

    fn get_sp_key(&self, protocol_version: ProtocolVersion) -> (r: VdrResult<Option<Vec<u8>>>) {
        let code: u8 = if self.from.is_some() { 6 } else { 5 };
        Ok(Some(build_sp_key(code, protocol_version, &self.revoc_reg_def_id)))
    }

    fn get_sp_timestamps(&self) -> (r: VdrResult<(Option<u64>, Option<u64>)>) {
        let from = match self.from {
            Some(f) => Some(clamp_timestamp(f)),
            None => None,
        };
        Ok((from, Some(clamp_timestamp(self.to))))
    }
}

} // verus!
