use vstd::prelude::*;

verus! {

/// Ledger-global identifier of a revocation registry.
#[derive(Debug, Clone)]
pub struct RevocationRegistryId(pub String);

impl View for RevocationRegistryId {
    type V = Seq<char>;

    open spec fn view(&self) -> Seq<char> {
        self.0@
    }
}

impl RevocationRegistryId {
    /// The identifier's text form.
    pub fn to_string(&self) -> (r: String)
        ensures
            r@ == self@,
    {
        self.0.clone()
    }

    /// A new identifier with the same text.
    pub fn duplicate(&self) -> (r: RevocationRegistryId)
        ensures
            r@ == self@,
    {
        RevocationRegistryId(self.0.clone())
    }
}

/// Accumulator scheme of a revocation registry.
#[allow(non_camel_case_types)]
#[derive(Debug, Clone, Copy, PartialEq, Eq, Structural)]
pub enum RegistryType {
    CL_ACCUM,
}

impl RegistryType {
    /// The scheme's name as the ledger spells it.
    pub open spec fn name_spec(self) -> Seq<char> {
        match self {
            RegistryType::CL_ACCUM => seq!['C', 'L', '_', 'A', 'C', 'C', 'U', 'M'],
        }
    }

    pub fn to_str(&self) -> (r: &'static str)
        ensures
            r@ == self.name_spec(),
    {
        match self {
            RegistryType::CL_ACCUM => {
                proof {
                    reveal_strlit("CL_ACCUM");
                }
                "CL_ACCUM"
            },
        }
    }
}

} // verus!
