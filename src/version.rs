use crate::text::{decimal, decimal_spec};
use vstd::prelude::*;
use vstd::string::StringExecFns;

verus! {

/// The packing of a Vulkan version number: major in the top ten bits, minor in
/// the next ten, patch in the low twelve.
pub open spec fn pack_version(major: u32, minor: u32, patch: u32) -> u32 {
    (major << 22u32) | ((minor & 0x3FFu32) << 12u32) | (patch & 0xFFFu32)
}

pub open spec fn major_of(v: u32) -> u32 {
    (v & 0xFFC0_0000u32) >> 22u32
}

pub open spec fn minor_of(v: u32) -> u32 {
    (v & 0x003F_F000u32) >> 12u32
}

pub open spec fn patch_of(v: u32) -> u32 {
    v & 0x0000_0FFFu32
}

/// A packed API version number.
#[derive(Copy, Clone, PartialEq, Eq, PartialOrd, Ord, Hash, Debug, Default, Structural)]
pub struct ApiVersion(pub u32);

impl ApiVersion {
    pub fn new(major: u32, minor: u32, patch: u32) -> (r: ApiVersion)
        ensures
            r.0 == pack_version(major, minor, patch),
    {
        ApiVersion((major << 22u32) | ((minor & 0x0000_03FFu32) << 12u32) | (patch & 0x0000_0FFFu32))
    }

    pub fn major(&self) -> (r: u32)
        ensures
            r == major_of(self.0),
            r < 1024,
    {
        let v = self.0;
        assert(((v & 0xFFC0_0000u32) >> 22u32) < 1024u32) by (bit_vector);
        (v & 0xFFC0_0000u32) >> 22u32
    }

    pub fn minor(&self) -> (r: u32)
        ensures
            r == minor_of(self.0),
            r < 1024,
    {
        let v = self.0;
        assert(((v & 0x003F_F000u32) >> 12u32) < 1024u32) by (bit_vector);
        (v & 0x003F_F000u32) >> 12u32
    }

    pub fn patch(&self) -> (r: u32)
        ensures
            r == patch_of(self.0),
            r < 4096,
    {
        let v = self.0;
        assert((v & 0x0000_0FFFu32) < 4096u32) by (bit_vector);
        v & 0x0000_0FFFu32
    }
}

impl ApiVersion {
    /// The version as "major.minor.patch", each in decimal.
    pub fn to_string(&self) -> (r: String)
        ensures
            r@ == decimal_spec(major_of(self.0) as nat) + "."@ + decimal_spec(
                minor_of(self.0) as nat,
            ) + "."@ + decimal_spec(patch_of(self.0) as nat),
    {
        let mut r = decimal(self.major() as u64);
        r.append(".");
        let minor = decimal(self.minor() as u64);
        r.append(minor.as_str());
        r.append(".");
        let patch = decimal(self.patch() as u64);
        r.append(patch.as_str());
        r
    }
}

impl From<u32> for ApiVersion {
    fn from(api_version: u32) -> (r: ApiVersion) {
        ApiVersion(api_version)
    }
}

impl vstd::std_specs::convert::FromSpecImpl<u32> for ApiVersion {
    open spec fn obeys_from_spec() -> bool {
        true
    }

    open spec fn from_spec(api_version: u32) -> ApiVersion {
        ApiVersion(api_version)
    }
}

impl From<ApiVersion> for u32 {
    fn from(api_version: ApiVersion) -> (r: u32) {
        api_version.0
    }
}

impl vstd::std_specs::convert::FromSpecImpl<ApiVersion> for u32 {
    open spec fn obeys_from_spec() -> bool {
        true
    }

    open spec fn from_spec(api_version: ApiVersion) -> u32 {
        api_version.0
    }
}

/// Packing three in-range fields and reading them back gives the same fields.
pub proof fn lemma_version_round_trip(major: u32, minor: u32, patch: u32)
    requires
        major < 1024,
        minor < 1024,
        patch < 4096,
    ensures
        major_of(pack_version(major, minor, patch)) == major,
        minor_of(pack_version(major, minor, patch)) == minor,
        patch_of(pack_version(major, minor, patch)) == patch,
{
    assert(major < 1024u32 && minor < 1024u32 && patch < 4096u32 ==> (((major << 22u32) | ((minor & 0x3FFu32) << 12u32) | (patch & 0xFFFu32)) & 0xFFC0_0000u32) >> 22u32 == major) by (bit_vector);
    assert(major < 1024u32 && minor < 1024u32 && patch < 4096u32 ==> (((major << 22u32) | ((minor & 0x3FFu32) << 12u32) | (patch & 0xFFFu32)) & 0x003F_F000u32) >> 12u32 == minor) by (bit_vector);
    assert(major < 1024u32 && minor < 1024u32 && patch < 4096u32 ==> ((major << 22u32) | ((minor & 0x3FFu32) << 12u32) | (patch & 0xFFFu32)) & 0x0000_0FFFu32 == patch) by (bit_vector);
}

} // verus!
