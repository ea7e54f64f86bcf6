use vstd::prelude::*;

use crate::envelope::{
    version_1_0, RevocationRegistry, RevocationRegistryDelta, RevocationRegistryDeltaV1,
    RevocationRegistryV1,
};
use crate::protocol::{clamp_spec, sp_key_bytes, ProtocolVersion, RequestType, VdrError};
use crate::rev_reg::{GetRevRegDeltaOperation, GetRevRegOperation};

verus! {

/// The state-proof key of a state read is marker 6, a colon and the
/// registry identifier; it is the same for every timestamp.
pub proof fn lemma_state_key_ignores_timestamp(
    a: GetRevRegOperation,
    b: GetRevRegOperation,
    protocol_version: ProtocolVersion,
)
    requires
        a.revoc_reg_def_id@ == b.revoc_reg_def_id@,
    ensures
        a.sp_key_spec(protocol_version) == Some(
            sp_key_bytes(6, protocol_version, a.revoc_reg_def_id@),
        ),
        a.sp_key_spec(protocol_version) == b.sp_key_spec(protocol_version),
{
}

/// A delta read open at its start is keyed under marker 5; one with a lower
/// bound, whatever its value, under marker 6.
pub proof fn lemma_delta_key_marker(op: GetRevRegDeltaOperation, protocol_version: ProtocolVersion)
    ensures
        op.from is None ==> op.sp_key_spec(protocol_version) == Some(
            sp_key_bytes(5, protocol_version, op.revoc_reg_def_id@),
        ),
        op.from is Some ==> op.sp_key_spec(protocol_version) == Some(
            sp_key_bytes(6, protocol_version, op.revoc_reg_def_id@),
        ),
{
}

/// A delta read with a lower bound has the key of a state read of the same
/// registry, whatever the timestamps.
pub proof fn lemma_bounded_delta_key_is_state_key(
    delta: GetRevRegDeltaOperation,
    state: GetRevRegOperation,
    protocol_version: ProtocolVersion,
)
    requires
        delta.from is Some,
        delta.revoc_reg_def_id@ == state.revoc_reg_def_id@,
    ensures
        delta.sp_key_spec(protocol_version) == state.sp_key_spec(protocol_version),
{
}

/// A state read is bounded above by its clamped timestamp and not below.
pub proof fn lemma_state_timestamps(op: GetRevRegOperation)
    ensures
        op.sp_timestamps_spec() == (None::<u64>, Some(clamp_spec(op.timestamp))),
        op.timestamp < 0 ==> op.sp_timestamps_spec().1 == Some(0u64),
{
}

/// A delta read is bounded by its clamped "from", if any, and its clamped "to".
pub proof fn lemma_delta_timestamps(op: GetRevRegDeltaOperation)
    ensures
        op.sp_timestamps_spec().1 == Some(clamp_spec(op.to)),
        op.from is None ==> op.sp_timestamps_spec().0 is None,
        forall|f: i64| op.from == Some(f) ==> op.sp_timestamps_spec().0 == Some(clamp_spec(f)),
{
}

/// Taking a registry delta apart into its discriminant and body and decoding
/// them again gives back the same value; any other discriminant is a schema
/// error.
pub proof fn lemma_delta_version_round_trip(
    delta: RevocationRegistryDelta,
    ver: Seq<char>,
    body: RevocationRegistryDeltaV1,
)
    ensures
        RevocationRegistryDelta::decode_spec(delta.version_spec(), delta.inner_spec()) == Ok::<
            RevocationRegistryDelta,
            VdrError,
        >(delta),
        ver != version_1_0() ==> RevocationRegistryDelta::decode_spec(ver, body) == Err::<
            RevocationRegistryDelta,
            VdrError,
        >(VdrError::Schema),
{
}

/// Taking a registry state apart into its discriminant and body and decoding
/// them again gives back the same value; any other discriminant is a schema
/// error.
pub proof fn lemma_state_version_round_trip(
    rev_reg: RevocationRegistry,
    ver: Seq<char>,
    body: RevocationRegistryV1,
)
    ensures
        RevocationRegistry::decode_spec(rev_reg.version_spec(), rev_reg.inner_spec()) == Ok::<
            RevocationRegistry,
            VdrError,
        >(rev_reg),
        ver != version_1_0() ==> RevocationRegistry::decode_spec(ver, body) == Err::<
            RevocationRegistry,
            VdrError,
        >(VdrError::Schema),
{
}

} // verus!
