use std::collections::HashSet;

use indy_vdr::{
    clamp_timestamp, get_sp_key_marker, GetRevRegDeltaOperation, GetRevRegOperation,
    ProtocolVersion, RegistryType, RequestType, RevRegEntryOperation, RevocationRegistryDelta,
    RevocationRegistryDeltaV1, RevocationRegistryId, VdrError, GET_REVOC_REG, GET_REVOC_REG_DELTA,
    REVOC_REG_ENTRY,
};

fn reg_id() -> RevocationRegistryId {
    RevocationRegistryId("reg:123".to_string())
}

fn crypto_delta() -> ursa::cl::RevocationRegistryDelta {
    let point = ursa::pair::PointG2::new().unwrap();
    let json = format!("{{\"accum\":\"{}\"}}", point.to_string().unwrap());
    let reg: ursa::cl::RevocationRegistry = serde_json::from_str(&json).unwrap();
    ursa::cl::RevocationRegistryDelta::from_parts(None, &reg, &HashSet::new(), &HashSet::new())
}

#[test]
fn delta_read_open_range_end_to_end() {
    let op = GetRevRegDeltaOperation::new(&reg_id(), None, 1000);
    assert_eq!(GetRevRegDeltaOperation::get_txn_type(), GET_REVOC_REG_DELTA);
    assert_eq!(op._type, "117");
    let key = op.get_sp_key(ProtocolVersion::Node1_4).unwrap().unwrap();
    assert_eq!(key, b"5:reg:123".to_vec());
    assert_eq!(op.get_sp_timestamps().unwrap(), (None, Some(1000)));
}

#[test]
fn state_read_negative_timestamp_clamps_to_zero() {
    let op = GetRevRegOperation::new(&reg_id(), -5);
    assert_eq!(op.timestamp, -5);
    assert_eq!(op.get_sp_timestamps().unwrap(), (None, Some(0)));
}

#[test]
fn state_read_key_uses_marker_six_for_any_timestamp() {
    for t in [-5i64, 0, 1, 1000, i64::MAX, i64::MIN] {
        let op = GetRevRegOperation::new(&reg_id(), t);
        assert_eq!(
            op.get_sp_key(ProtocolVersion::Node1_4).unwrap().unwrap(),
            b"6:reg:123".to_vec()
        );
        assert_eq!(
            op.get_sp_key(ProtocolVersion::Node1_3).unwrap().unwrap(),
            b"\x06:reg:123".to_vec()
        );
    }
    assert_eq!(GetRevRegOperation::get_txn_type(), GET_REVOC_REG);
    assert_eq!(GetRevRegOperation::new(&reg_id(), 1)._type, "116");
}

#[test]
fn delta_read_key_marker_depends_on_lower_bound() {
    let open = GetRevRegDeltaOperation::new(&reg_id(), None, 100);
    let from_zero = GetRevRegDeltaOperation::new(&reg_id(), Some(0), 100);
    let from_fifty = GetRevRegDeltaOperation::new(&reg_id(), Some(50), 100);
    assert_eq!(
        open.get_sp_key(ProtocolVersion::Node1_3).unwrap().unwrap(),
        b"\x05:reg:123".to_vec()
    );
    assert_eq!(
        from_zero.get_sp_key(ProtocolVersion::Node1_4).unwrap().unwrap(),
        b"6:reg:123".to_vec()
    );
    assert_eq!(
        from_fifty.get_sp_key(ProtocolVersion::Node1_3).unwrap().unwrap(),
        b"\x06:reg:123".to_vec()
    );
    let state = GetRevRegOperation::new(&reg_id(), 7);
    assert_eq!(
        from_fifty.get_sp_key(ProtocolVersion::Node1_4).unwrap(),
        state.get_sp_key(ProtocolVersion::Node1_4).unwrap()
    );
}

#[test]
fn delta_read_bounds_are_clamped() {
    let op = GetRevRegDeltaOperation::new(&reg_id(), Some(-3), -1);
    assert_eq!(op.from, Some(-3));
    assert_eq!(op.to, -1);
    assert_eq!(op.get_sp_timestamps().unwrap(), (Some(0), Some(0)));
    let op = GetRevRegDeltaOperation::new(&reg_id(), Some(50), 100);
    assert_eq!(op.get_sp_timestamps().unwrap(), (Some(50), Some(100)));
}

#[test]
fn delta_read_inverted_range_is_passed_through() {
    let op = GetRevRegDeltaOperation::new(&reg_id(), Some(200), 100);
    assert_eq!(op.get_sp_timestamps().unwrap(), (Some(200), Some(100)));
}

#[test]
fn clamp_keeps_non_negative_values() {
    assert_eq!(clamp_timestamp(-1), 0);
    assert_eq!(clamp_timestamp(i64::MIN), 0);
    assert_eq!(clamp_timestamp(0), 0);
    assert_eq!(clamp_timestamp(42), 42);
    assert_eq!(clamp_timestamp(i64::MAX), i64::MAX as u64);
}

#[test]
fn marker_per_protocol_version() {
    assert_eq!(get_sp_key_marker(5, ProtocolVersion::Node1_3), '\u{5}');
    assert_eq!(get_sp_key_marker(6, ProtocolVersion::Node1_3), '\u{6}');
    assert_eq!(get_sp_key_marker(5, ProtocolVersion::Node1_4), '5');
    assert_eq!(get_sp_key_marker(6, ProtocolVersion::Node1_4), '6');
}

#[test]
fn key_holds_non_ascii_identifier_as_utf8() {
    let id = RevocationRegistryId("ré".to_string());
    let op = GetRevRegOperation::new(&id, 0);
    assert_eq!(
        op.get_sp_key(ProtocolVersion::Node1_4).unwrap().unwrap(),
        "6:ré".as_bytes().to_vec()
    );
}

#[test]
fn identifier_is_copied_into_payload() {
    let id = reg_id();
    let op = GetRevRegOperation::new(&id, 0);
    assert_eq!(op.revoc_reg_def_id.0, "reg:123");
    assert_eq!(id.to_string(), "reg:123");
}

#[test]
fn entry_write_carries_delta_and_has_no_key() {
    let delta = RevocationRegistryDeltaV1 { value: crypto_delta() };
    let op = RevRegEntryOperation::new(&RegistryType::CL_ACCUM, &reg_id(), delta);
    assert_eq!(op._type, "114");
    assert_eq!(RevRegEntryOperation::get_txn_type(), REVOC_REG_ENTRY);
    assert_eq!(op.revoc_def_type, "CL_ACCUM");
    assert_eq!(op.revoc_reg_def_id.0, "reg:123");
    assert!(op.get_sp_key(ProtocolVersion::Node1_4).unwrap().is_none());
    assert_eq!(op.get_sp_timestamps().unwrap(), (None, None));
}

#[test]
fn registry_type_name() {
    assert_eq!(RegistryType::CL_ACCUM.to_str(), "CL_ACCUM");
}

#[test]
fn envelope_version_round_trip() {
    let body = RevocationRegistryDeltaV1 { value: crypto_delta() };
    let wrapped = RevocationRegistryDelta::from_version("1.0", body).unwrap();
    assert_eq!(wrapped.version(), "1.0");
    let inner: RevocationRegistryDeltaV1 = wrapped.into();
    let again = RevocationRegistryDelta::from_version("1.0", inner);
    assert!(again.is_ok());
}

#[test]
fn envelope_unknown_version_is_schema_error() {
    for ver in ["2.0", "", "1.0 ", "1"] {
        let body = RevocationRegistryDeltaV1 { value: crypto_delta() };
        assert!(matches!(
            RevocationRegistryDelta::from_version(ver, body),
            Err(VdrError::Schema)
        ));
    }
}
