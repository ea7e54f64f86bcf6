use vstd::prelude::*;

use ursa::cl::{
    RevocationRegistry as CryptoRevocationRegistry,
    RevocationRegistryDelta as CryptoRevocationRegistryDelta,
};

use crate::protocol::{VdrError, VdrResult};

verus! {

/// Declares ursa's `cl::RevocationRegistry` (an accumulator state) so that it
/// can be held in a field; nothing is assumed of what it contains.
#[verifier::external_type_specification]
#[verifier::external_body]
pub struct ExCryptoRevocationRegistry(CryptoRevocationRegistry);

/// Declares ursa's `cl::RevocationRegistryDelta` (an accumulator change) so
/// that it can be held in a field; nothing is assumed of what it contains.
#[verifier::external_type_specification]
#[verifier::external_body]
pub struct ExCryptoRevocationRegistryDelta(CryptoRevocationRegistryDelta);

/// The discriminant of the first, and so far only, schema version.
pub open spec fn version_1_0() -> Seq<char> {
    seq!['1', '.', '0']
}

/// Whether `ver` is the discriminant of schema version 1.0.
fn is_version_1_0(ver: &str) -> (r: bool)
    ensures
        r == (ver@ == version_1_0()),
{
    let given: String = ver.to_owned();
    let known: String = "1.0".to_owned();
    proof {
        reveal_strlit("1.0");
        assert(known@ =~= version_1_0());
    }
    given == known
}

/// The discriminant of schema version 1.0.
fn version_1_0_tag() -> (r: &'static str)
    ensures
        r@ == version_1_0(),
{
    proof {
        reveal_strlit("1.0");
    }
    "1.0"
}

/// Revocation registry state, version 1.0.
#[derive(Debug)]
pub struct RevocationRegistryV1 {
    pub value: CryptoRevocationRegistry,
}

/// Revocation registry delta, version 1.0.
#[derive(Debug)]
pub struct RevocationRegistryDeltaV1 {
    pub value: CryptoRevocationRegistryDelta,
}

/// A revocation registry state under the schema version it was written in.
#[derive(Debug)]
pub enum RevocationRegistry {
    RevocationRegistryV1(RevocationRegistryV1),
}

/// A revocation registry delta under the schema version it was written in.
#[derive(Debug)]
pub enum RevocationRegistryDelta {
    RevocationRegistryDeltaV1(RevocationRegistryDeltaV1),
}

impl RevocationRegistry {
    /// The version discriminant that this value is written under.
    pub open spec fn version_spec(&self) -> Seq<char> {
        match self {
            RevocationRegistry::RevocationRegistryV1(_) => version_1_0(),
        }
    }

    /// The state inside, as version 1.0 has it.
    pub open spec fn inner_spec(self) -> RevocationRegistryV1 {
        match self {
            RevocationRegistry::RevocationRegistryV1(r) => r,
        }
    }

    /// The value that decoding a body under discriminant `ver` yields.
    pub open spec fn decode_spec(ver: Seq<char>, body: RevocationRegistryV1) -> VdrResult<
        RevocationRegistry,
    > {
        if ver == version_1_0() {
            Ok(RevocationRegistry::RevocationRegistryV1(body))
        } else {
            Err(VdrError::Schema)
        }
    }

    pub fn version(&self) -> (r: &'static str)
        ensures
            r@ == self.version_spec(),
    {
        match self {
            RevocationRegistry::RevocationRegistryV1(_) => version_1_0_tag(),
        }
    }

    /// Selects the variant that the discriminant `ver` names; a discriminant
    /// that no version has is a schema error.
    pub fn from_version(ver: &str, body: RevocationRegistryV1) -> (r: VdrResult<RevocationRegistry>)
        ensures
            r == Self::decode_spec(ver@, body),
    {
        if is_version_1_0(ver) {
            Ok(RevocationRegistry::RevocationRegistryV1(body))
        } else {
            Err(VdrError::Schema)
        }
    }
}

impl RevocationRegistryDelta {
    /// The version discriminant that this value is written under.
    pub open spec fn version_spec(&self) -> Seq<char> {
        match self {
            RevocationRegistryDelta::RevocationRegistryDeltaV1(_) => version_1_0(),
        }
    }

    /// The delta inside, as version 1.0 has it.
    pub open spec fn inner_spec(self) -> RevocationRegistryDeltaV1 {
        match self {
            RevocationRegistryDelta::RevocationRegistryDeltaV1(d) => d,
        }
    }

    /// The value that decoding a body under discriminant `ver` yields.
    pub open spec fn decode_spec(ver: Seq<char>, body: RevocationRegistryDeltaV1) -> VdrResult<
        RevocationRegistryDelta,
    > {
        if ver == version_1_0() {
            Ok(RevocationRegistryDelta::RevocationRegistryDeltaV1(body))
        } else {
            Err(VdrError::Schema)
        }
    }

    pub fn version(&self) -> (r: &'static str)
        ensures
            r@ == self.version_spec(),
    {
        match self {
            RevocationRegistryDelta::RevocationRegistryDeltaV1(_) => version_1_0_tag(),
        }
    }

    /// Selects the variant that the discriminant `ver` names; a discriminant
    /// that no version has is a schema error.
    pub fn from_version(ver: &str, body: RevocationRegistryDeltaV1) -> (r: VdrResult<
        RevocationRegistryDelta,
    >)
        ensures
            r == Self::decode_spec(ver@, body),
    {
        if is_version_1_0(ver) {
            Ok(RevocationRegistryDelta::RevocationRegistryDeltaV1(body))
        } else {
            Err(VdrError::Schema)
        }
    }
}

impl From<RevocationRegistry> for RevocationRegistryV1 {
    fn from(rev_reg: RevocationRegistry) -> (r: RevocationRegistryV1) {
        match rev_reg {
            RevocationRegistry::RevocationRegistryV1(rev_reg) => rev_reg,
        }
    }
}

impl vstd::std_specs::convert::FromSpecImpl<RevocationRegistry> for RevocationRegistryV1 {
    open spec fn obeys_from_spec() -> bool {
        true
    }

    open spec fn from_spec(v: RevocationRegistry) -> RevocationRegistryV1 {
        v.inner_spec()
    }
}

impl From<RevocationRegistryDelta> for RevocationRegistryDeltaV1 {
    fn from(rev_reg_delta: RevocationRegistryDelta) -> (r: RevocationRegistryDeltaV1) {
        match rev_reg_delta {
            RevocationRegistryDelta::RevocationRegistryDeltaV1(rev_reg_delta) => rev_reg_delta,
        }
    }
}

impl vstd::std_specs::convert::FromSpecImpl<RevocationRegistryDelta> for RevocationRegistryDeltaV1 {
    open spec fn obeys_from_spec() -> bool {
        true
    }

    open spec fn from_spec(v: RevocationRegistryDelta) -> RevocationRegistryDeltaV1 {
        v.inner_spec()
    }
}

} // verus!
