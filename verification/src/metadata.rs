//! The metadata record of the token: descriptive fields fixed at
//! construction, plus the icon, the one field that may change afterwards.
//!
//! A record is accepted at construction only if it passes the validity
//! check: the specification tag names the supported standard, and a content
//! reference and its hash are either both present (with a 32-byte hash) or
//! both absent.

use vstd::prelude::*;

verus! {

/// The abstract value of a metadata record: every field by content.
pub struct MetadataView {
    pub spec_version: Seq<char>,
    pub name: Seq<char>,
    pub symbol: Seq<char>,
    pub icon: Option<Seq<char>>,
    pub reference: Option<Seq<char>>,
    pub reference_hash: Option<Seq<u8>>,
    pub decimals: u8,
}

/// The descriptive fields of the token.
pub struct FungibleTokenMetadata {
    /// The version tag of the metadata standard the record follows.
    pub spec_version: String,
    /// The human-readable token name.
    pub name: String,
    /// The ticker symbol.
    pub symbol: String,
    /// Free-form icon data; the only field that may change after construction.
    pub icon: Option<String>,
    /// A link to further off-contract metadata.
    pub reference: Option<String>,
    /// The hash of the referenced content, exactly 32 bytes when present.
    pub reference_hash: Option<Vec<u8>>,
    /// The number of decimals the token amounts carry.
    pub decimals: u8,
}

impl View for FungibleTokenMetadata {
    type V = MetadataView;

    open spec fn view(&self) -> MetadataView {
        MetadataView {
            spec_version: self.spec_version@,
            name: self.name@,
            symbol: self.symbol@,
            icon: match self.icon {
                Some(s) => Some(s@),
                None => None,
            },
            reference: match self.reference {
                Some(s) => Some(s@),
                None => None,
            },
            reference_hash: match self.reference_hash {
                Some(h) => Some(h@),
                None => None,
            },
            decimals: self.decimals,
        }
    }
}

/// The version tag a valid record must carry.
pub open spec fn supported_spec_version() -> Seq<char> {
    "ft-1.0.0"@
}

fn copy_bytes(v: &Vec<u8>) -> (r: Vec<u8>)
    ensures
        r@ == v@,
{
    let mut r: Vec<u8> = Vec::new();
    let n = v.len();
    let mut i: usize = 0;
    while i < n
        invariant
            n == v@.len(),
            i <= n,
            r@ == v@.take(i as int),
        decreases n - i,
    {
        r.push(v[i]);
        proof {
            assert(r@ =~= v@.take(i as int + 1));
        }
        i = i + 1;
    }
    proof {
        assert(v@.take(n as int) =~= v@);
    }
    r
}

impl Clone for FungibleTokenMetadata {
    /// A copy with the same content in every field.
    fn clone(&self) -> (r: Self)
        ensures
            r@ == self@,
    {
        FungibleTokenMetadata {
            spec_version: self.spec_version.clone(),
            name: self.name.clone(),
            symbol: self.symbol.clone(),
            icon: match &self.icon {
                Some(s) => Some(s.clone()),
                None => None,
            },
            reference: match &self.reference {
                Some(s) => Some(s.clone()),
                None => None,
            },
            reference_hash: match &self.reference_hash {
                Some(h) => Some(copy_bytes(h)),
                None => None,
            },
            decimals: self.decimals,
        }
    }
}

impl FungibleTokenMetadata {
    /// Validity: the record follows the supported standard, and reference
    /// and reference hash are both present (with a 32-byte hash) or both
    /// absent.
    pub open spec fn spec_valid(self) -> bool {
        &&& self@.spec_version == supported_spec_version()
        &&& (self@.reference is Some <==> self@.reference_hash is Some)
        &&& (self@.reference_hash matches Some(h) ==> h.len() == 32)
    }

    /// Checks the validity of the record.
    pub fn is_valid(&self) -> (r: bool)
        ensures
            r == self.spec_valid(),
    {
        let expected = "ft-1.0.0".to_owned();
        let version_ok = self.spec_version == expected;
        let reference_ok = self.reference.is_some() == self.reference_hash.is_some();
        let hash_ok = match &self.reference_hash {
            Some(h) => h.len() == 32,
            None => true,
        };
        version_ok && reference_ok && hash_ok
    }
}

} // verus!
