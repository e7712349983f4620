//! Fungible token metadata (NEP-148) of the Cheddar token.
use vstd::prelude::*;
use vstd::string::StringExecFns;

verus! {

/// The metadata standard version.
pub const FT_METADATA_SPEC: &'static str = "ft-1.0.0";

/// Fungible token metadata.
pub struct FtMetadata {
    pub spec: String,
    pub name: String,
    pub symbol: String,
    pub icon: Option<String>,
    pub reference: Option<String>,
    pub reference_hash: Option<Vec<u8>>,
    pub decimals: u8,
}

/// Fungible token metadata as mathematical values.
pub struct FtMetadataView {
    pub spec: Seq<char>,
    pub name: Seq<char>,
    pub symbol: Seq<char>,
    pub icon: Option<Seq<char>>,
    pub reference: Option<Seq<char>>,
    pub reference_hash: Option<Seq<u8>>,
    pub decimals: u8,
}

/// The view of an optional string.
pub open spec fn opt_str_view(s: Option<String>) -> Option<Seq<char>> {
    match s {
        Some(x) => Some(x@),
        None => None,
    }
}

impl View for FtMetadata {
    type V = FtMetadataView;

    open spec fn view(&self) -> FtMetadataView {
        FtMetadataView {
            spec: self.spec@,
            name: self.name@,
            symbol: self.symbol@,
            icon: opt_str_view(self.icon),
            reference: opt_str_view(self.reference),
            reference_hash: match self.reference_hash {
                Some(h) => Some(h@),
                None => None,
            },
            decimals: self.decimals,
        }
    }
}

/// The metadata is valid: the right spec version, a reference exactly when a
/// reference hash is given, and a hash of 32 bytes.
pub open spec fn metadata_valid(m: FtMetadataView) -> bool {
    &&& m.spec == FT_METADATA_SPEC@
    &&& (m.reference is Some) == (m.reference_hash is Some)
    &&& (m.reference_hash matches Some(h) ==> h.len() == 32)
}

impl FtMetadata {
    /// Whether the metadata is valid.
    pub fn is_valid(&self) -> (r: bool)
        ensures
            r == metadata_valid(self@),
    {
        let spec_ok = self.spec == String::from_str(FT_METADATA_SPEC);
        let refs_ok = self.reference.is_some() == self.reference_hash.is_some();
        let hash_ok = match &self.reference_hash {
            Some(h) => h.len() == 32,
            None => true,
        };
        spec_ok && refs_ok && hash_ok
    }
}

} // verus!
