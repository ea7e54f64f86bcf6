use vstd::prelude::*;
use vstd::utf8::{encode_scalar, encode_utf8};

use crate::identifiers::RevocationRegistryId;

verus! {

/// Transaction type of a revocation-registry entry write.
pub const REVOC_REG_ENTRY: &'static str = "114";

/// Transaction type of a point-in-time registry state read.
pub const GET_REVOC_REG: &'static str = "116";

/// Transaction type of a registry delta read.
pub const GET_REVOC_REG_DELTA: &'static str = "117";

/// Generation of the ledger node wire protocol.
#[derive(Debug, Clone, Copy, PartialEq, Eq, Structural)]
pub enum ProtocolVersion {
    Node1_3,
    Node1_4,
}

/// Errors raised by this library.
#[derive(Debug, Clone, Copy, PartialEq, Eq, Structural)]
pub enum VdrError {
    /// A versioned value carried a discriminant that matches no known version.
    Schema,
}

pub type VdrResult<T> = Result<T, VdrError>;

/// The marker character that opens a state-proof key: the raw code under
/// protocol 1.3, its decimal digit under later versions.
pub open spec fn sp_key_marker(code: u8, protocol_version: ProtocolVersion) -> char {
    match protocol_version {
        ProtocolVersion::Node1_3 => code as char,
        ProtocolVersion::Node1_4 => (code + 48) as u8 as char,
    }
}

/// Text of a state-proof key: the marker, a colon, then the identifier.
pub open spec fn sp_key_text(marker: char, id: Seq<char>) -> Seq<char> {
    seq![marker, ':'] + id
}

/// Bytes of a state-proof key: the UTF-8 encoding of its text.
pub open spec fn sp_key_bytes(code: u8, protocol_version: ProtocolVersion, id: Seq<char>) -> Seq<u8> {
    encode_utf8(sp_key_text(sp_key_marker(code, protocol_version), id))
}

/// A signed timestamp as an unsigned bound: negative values become zero.
pub open spec fn clamp_spec(t: i64) -> u64 {
    if t < 0 {
        0
    } else {
        t as u64
    }
}

/// Converts a signed ledger timestamp to an unsigned one, mapping every negative value to zero.
pub fn clamp_timestamp(t: i64) -> (r: u64)
    ensures
        r == clamp_spec(t),
        t < 0 ==> r == 0,
        t >= 0 ==> r as int == t as int,
{
    if t < 0 {
        0
    } else {
        t as u64
    }
}

/// Selects the marker character for a state-proof key code under a protocol version.
pub fn get_sp_key_marker(code: u8, protocol_version: ProtocolVersion) -> (r: char)
    requires
        code + 48 <= u8::MAX,
    ensures
        r == sp_key_marker(code, protocol_version),
{
    match protocol_version {
        ProtocolVersion::Node1_3 => code as char,
        ProtocolVersion::Node1_4 => (code + 48) as char,
    }
}

/// What every ledger request payload declares about itself.
pub trait RequestType {
    /// The transaction type tag of this kind of request.
    spec fn txn_type_spec() -> Seq<char>;

    /// The state-proof lookup key of this request, if it is a read.
    spec fn sp_key_spec(&self, protocol_version: ProtocolVersion) -> Option<Seq<u8>>;

    /// The window, inclusive at both ends, in which a state proof's time must fall.
    spec fn sp_timestamps_spec(&self) -> (Option<u64>, Option<u64>);

    /// The transaction type tag, as sent on the wire.
    fn get_txn_type() -> (r: &'static str)
        ensures
            r@ == Self::txn_type_spec(),
    ;

    /// The state-proof lookup key; always `Ok`.
    fn get_sp_key(&self, protocol_version: ProtocolVersion) -> (r: VdrResult<Option<Vec<u8>>>)
        ensures
            r is Ok,
            r matches Ok(k) ==> match k {
                Some(v) => self.sp_key_spec(protocol_version) == Some(v@),
                None => self.sp_key_spec(protocol_version) is None,
            },
    ;

    /// The state-proof timestamp window; always `Ok`.
    fn get_sp_timestamps(&self) -> (r: VdrResult<(Option<u64>, Option<u64>)>)
        ensures
            r == Ok::<(Option<u64>, Option<u64>), VdrError>(self.sp_timestamps_spec()),
    ;
}

/// Builds the state-proof key for `id` under the marker of `code`: the
/// UTF-8 bytes of the marker, a colon and the identifier's text.
pub(crate) fn build_sp_key(code: u8, protocol_version: ProtocolVersion, id: &RevocationRegistryId) -> (r: Vec<u8>)
    requires
        code < 10,
    ensures
        r@ == sp_key_bytes(code, protocol_version, id@),
{
    let marker = get_sp_key_marker(code, protocol_version);
    let text = id.to_string();
    let mut key: Vec<u8> = Vec::new();
    key.push(marker as u8);
    key.push(':' as u8);
    let mut rest = vstd::slice::slice_to_vec(text.as_str().as_bytes());
    key.append(&mut rest);
    proof {
        lemma_encode_ascii_prefix(marker, ':', id@);
    }
    key
}

/// An ASCII character is encoded as the one byte of its code.
proof fn lemma_encode_ascii_char(c: char)
    requires
        (c as u32) < 0x80,
    ensures
        encode_scalar(c as u32) == seq![c as u8],
{
    let v = c as u32;
    assert(v & 0x7F == v) by (bit_vector)
        requires
            v < 0x80,
    ;
    assert(v as u8 == c as u8);
}

/// Two ASCII characters in front of a text add one byte each to its encoding.
proof fn lemma_encode_ascii_prefix(a: char, b: char, s: Seq<char>)
    requires
        (a as u32) < 0x80,
        (b as u32) < 0x80,
    ensures
        encode_utf8(seq![a, b] + s) == seq![a as u8, b as u8] + encode_utf8(s),
{
    let t = seq![a, b] + s;
    let u = seq![b] + s;
    assert(t[0] == a);
    assert(t.drop_first() =~= u);
    assert(u[0] == b);
    assert(u.drop_first() =~= s);
    lemma_encode_ascii_char(a);
    lemma_encode_ascii_char(b);
    assert(encode_utf8(u) == seq![b as u8] + encode_utf8(s));
    assert(encode_utf8(t) == seq![a as u8] + encode_utf8(u));
    assert(seq![a as u8, b as u8] + encode_utf8(s) =~= seq![a as u8] + (seq![b as u8]
        + encode_utf8(s)));
}

} // verus!
