//! Source metadata of the protocol: its version, where its source lives,
//! and the standards it implements.
use crate::contract::PhoenixBonds;
use vstd::prelude::*;

verus! {

/// A standard by name and version.
pub struct Standard {
    /// the standard's name, e.g. "nep141"
    pub standard: String,
    /// the standard's semantic version, e.g. "1.0.0"
    pub version: String,
}

pub struct ContractSourceMetadata {
    pub version: String,
    pub link: String,
    pub standards: Vec<Standard>,
}

pub trait ContractSourceMetadataTrait {
    fn contract_source_metadata(&self) -> ContractSourceMetadata;
}

/// The protocol's version.
pub const CONTRACT_VERSION: &'static str = "0.1.0";

/// Where the protocol's source lives.
pub const SOURCE_LINK: &'static str = "https://github.com/linear-protocol/phoenix-bonds";

fn standard(name: &str, version: &str) -> (r: Standard)
    ensures
        r.standard@ == name@,
        r.version@ == version@,
{
    Standard { standard: name.to_owned(), version: version.to_owned() }
}

impl ContractSourceMetadataTrait for PhoenixBonds {
    fn contract_source_metadata(&self) -> ContractSourceMetadata {
        let mut standards: Vec<Standard> = Vec::new();
        standards.push(standard("nep141", "1.0.0"));
        standards.push(standard("nep145", "1.0.0"));
        standards.push(standard("nep148", "1.0.0"));
        standards.push(standard("nep297", "1.0.0"));
        standards.push(standard("nep330", "1.1.0"));
        ContractSourceMetadata {
            version: CONTRACT_VERSION.to_owned(),
            link: SOURCE_LINK.to_owned(),
            standards,
        }
    }
}

} // verus!
