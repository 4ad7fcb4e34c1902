use crate::version::{pack_version, ApiVersion};
use vstd::prelude::*;
use vstd::std_specs::convert::FromSpec;
use vstd::string::StringExecFns;

verus! {

pub type VkSampleMask = u32;

pub type VkFlags = u32;

pub type VkFlags64 = u64;

pub type VkDeviceSize = u64;

pub type VkDeviceAddress = u64;

pub type HANDLE = usize;

pub type HINSTANCE = usize;

pub type HWND = usize;

pub type DWORD = u32;

pub const VK_MAX_PHYSICAL_DEVICE_NAME_SIZE: usize = 256;

pub const VK_UUID_SIZE: usize = 16;

pub const VK_LUID_SIZE: usize = 8;

pub const VK_MAX_EXTENSION_NAME_SIZE: usize = 256;

pub const VK_MAX_DESCRIPTION_SIZE: usize = 256;

pub const VK_MAX_MEMORY_TYPES: usize = 32;

pub const VK_MAX_MEMORY_HEAPS: usize = 16;

pub const VK_REMAINING_MIP_LEVELS: u32 = 0xFFFF_FFFF;

pub const VK_REMAINING_ARRAY_LAYERS: u32 = 0xFFFF_FFFF;

pub const VK_WHOLE_SIZE: u64 = 0xFFFF_FFFF_FFFF_FFFF;

pub const VK_ATTACHMENT_UNUSED: u32 = 0xFFFF_FFFF;

pub const VK_SHADER_UNUSED_KHR: u32 = 0xFFFF_FFFF;

pub const VK_QUEUE_FAMILY_IGNORED: u32 = 0xFFFF_FFFF;

pub const VK_QUEUE_FAMILY_EXTERNAL: u32 = VK_QUEUE_FAMILY_IGNORED - 1;

pub const VK_SUBPASS_EXTERNAL: u32 = 0xFFFF_FFFF;

pub const VK_MAX_DEVICE_GROUP_SIZE: usize = 32;

pub const VK_MAX_DRIVER_NAME_SIZE: usize = 256;

pub const VK_MAX_DRIVER_INFO_SIZE: usize = 256;

/// The core API versions, each a packed version number with patch 0.
#[derive(Copy, Clone, Eq, PartialEq, Ord, PartialOrd, Hash, Debug, Structural)]
pub enum VkVersion {
    V1_0,
    V1_1,
    V1_2,
    V1_3,
    V1_4,
}

impl VkVersion {
    pub open spec fn minor_spec(&self) -> u32 {
        match self {
            VkVersion::V1_0 => 0,
            VkVersion::V1_1 => 1,
            VkVersion::V1_2 => 2,
            VkVersion::V1_3 => 3,
            VkVersion::V1_4 => 4,
        }
    }

    /// The packed version number: major 1, the variant's minor, patch 0.
    pub fn value(&self) -> (r: u32)
        ensures
            r == pack_version(1, self.minor_spec(), 0),
    {
        let r: u32 = match self {
            VkVersion::V1_0 => 0x0040_0000,
            VkVersion::V1_1 => 0x0040_1000,
            VkVersion::V1_2 => 0x0040_2000,
            VkVersion::V1_3 => 0x0040_3000,
            VkVersion::V1_4 => 0x0040_4000,
        };
        assert(pack_version(1, 0, 0) == 0x0040_0000u32) by (bit_vector);
        assert(pack_version(1, 1, 0) == 0x0040_1000u32) by (bit_vector);
        assert(pack_version(1, 2, 0) == 0x0040_2000u32) by (bit_vector);
        assert(pack_version(1, 3, 0) == 0x0040_3000u32) by (bit_vector);
        assert(pack_version(1, 4, 0) == 0x0040_4000u32) by (bit_vector);
        r
    }

    pub fn api_version(&self) -> (r: ApiVersion)
        ensures
            r.0 == pack_version(1, self.minor_spec(), 0),
    {
        ApiVersion(self.value())
    }
}

/// The structure type discriminants that the structures of this crate carry.
#[derive(Copy, Clone, Eq, PartialEq, Ord, PartialOrd, Hash, Debug, Structural)]
pub enum VkStructureType {
    APPLICATION_INFO,
    INSTANCE_CREATE_INFO,
    DEVICE_QUEUE_CREATE_INFO,
    DEVICE_CREATE_INFO,
    XLIB_SURFACE_CREATE_INFO_KHR,
    XCB_SURFACE_CREATE_INFO_KHR,
    WAYLAND_SURFACE_CREATE_INFO_KHR,
    ANDROID_SURFACE_CREATE_INFO_KHR,
    WIN32_SURFACE_CREATE_INFO_KHR,
}

impl VkStructureType {
    pub open spec fn value_spec(&self) -> u32 {
        match self {
            VkStructureType::APPLICATION_INFO => 0,
            VkStructureType::INSTANCE_CREATE_INFO => 1,
            VkStructureType::DEVICE_QUEUE_CREATE_INFO => 2,
            VkStructureType::DEVICE_CREATE_INFO => 3,
            VkStructureType::XLIB_SURFACE_CREATE_INFO_KHR => 1000004000,
            VkStructureType::XCB_SURFACE_CREATE_INFO_KHR => 1000005000,
            VkStructureType::WAYLAND_SURFACE_CREATE_INFO_KHR => 1000006000,
            VkStructureType::ANDROID_SURFACE_CREATE_INFO_KHR => 1000008000,
            VkStructureType::WIN32_SURFACE_CREATE_INFO_KHR => 1000009000,
        }
    }

    /// The native value of the discriminant.
    pub fn value(&self) -> (r: u32)
        ensures
            r == self.value_spec(),
    {
        match self {
            VkStructureType::APPLICATION_INFO => 0,
            VkStructureType::INSTANCE_CREATE_INFO => 1,
            VkStructureType::DEVICE_QUEUE_CREATE_INFO => 2,
            VkStructureType::DEVICE_CREATE_INFO => 3,
            VkStructureType::XLIB_SURFACE_CREATE_INFO_KHR => 1000004000,
            VkStructureType::XCB_SURFACE_CREATE_INFO_KHR => 1000005000,
            VkStructureType::WAYLAND_SURFACE_CREATE_INFO_KHR => 1000006000,
            VkStructureType::ANDROID_SURFACE_CREATE_INFO_KHR => 1000008000,
            VkStructureType::WIN32_SURFACE_CREATE_INFO_KHR => 1000009000,
        }
    }
}

/// The native boolean: 1 for true, 0 for false.
#[derive(Copy, Clone, Eq, PartialEq, Ord, PartialOrd, Hash, Debug, Structural)]
pub struct VkBool32(u32);

impl VkBool32 {
    pub closed spec fn view(&self) -> u32 {
        self.0
    }

    pub fn value(&self) -> (r: u32)
        ensures
            r == self.view(),
    {
        self.0
    }
}

impl VkBool32 {
    /// "true" for the native true, "false" for anything else.
    pub fn to_string(&self) -> (r: String)
        ensures
            r@ == (if self.view() == 1 {
                "true"@
            } else {
                "false"@
            }),
    {
        if self.0 == 1 {
            String::from_str("true")
        } else {
            String::from_str("false")
        }
    }
}

impl VkBool32 {
    /// "VkBool32::TRUE" for the native true, "VkBool32::FALSE" for anything else.
    pub fn debug_string(&self) -> (r: String)
        ensures
            r@ == (if self.view() == 1 {
                "VkBool32::TRUE"@
            } else {
                "VkBool32::FALSE"@
            }),
    {
        if self.0 == 1 {
            String::from_str("VkBool32::TRUE")
        } else {
            String::from_str("VkBool32::FALSE")
        }
    }
}

impl Default for VkBool32 {
    fn default() -> (r: Self)
        ensures
            r.view() == 0,
    {
        VkBool32(0)
    }
}

impl From<bool> for VkBool32 {
    fn from(value: bool) -> (r: VkBool32) {
        if value {
            VkBool32(1)
        } else {
            VkBool32(0)
        }
    }
}

impl vstd::std_specs::convert::FromSpecImpl<bool> for VkBool32 {
    open spec fn obeys_from_spec() -> bool {
        true
    }

    closed spec fn from_spec(value: bool) -> VkBool32 {
        VkBool32(if value { 1 } else { 0 })
    }
}

impl From<VkBool32> for bool {
    fn from(value: VkBool32) -> (r: bool) {
        value.0 == 1
    }
}

impl vstd::std_specs::convert::FromSpecImpl<VkBool32> for bool {
    open spec fn obeys_from_spec() -> bool {
        true
    }

    open spec fn from_spec(value: VkBool32) -> bool {
        value.view() == 1
    }
}

/// A command that the driver could not resolve.
#[derive(Copy, Clone, Eq, PartialEq, Debug, Structural)]
pub struct LoadingError();

/// The native boolean made from `b` is 1 for true and 0 for false, so it
/// converts back to `b`; two with the same value are equal.
pub proof fn lemma_bool32_from(b: bool, v: VkBool32, w: VkBool32)
    ensures
        <VkBool32 as FromSpec<bool>>::from_spec(b).view() == (if b {
            1u32
        } else {
            0u32
        }),
        <bool as FromSpec<VkBool32>>::from_spec(<VkBool32 as FromSpec<bool>>::from_spec(b)) == b,
        v.view() == w.view() ==> v == w,
{
}

} // verus!
