use vk_bindings::flags::{Flags, VkAndroidSurfaceCreateFlagsKHR, XcbSurfaceCreate};
use vk_bindings::types::{VkBool32, VkStructureType, VK_QUEUE_FAMILY_EXTERNAL};

#[test]
fn union_of_two_bits_contains_each() {
    let a = Flags::<XcbSurfaceCreate>::from_bits_retain(0x1);
    let b = Flags::<XcbSurfaceCreate>::from_bits_retain(0x4);
    let both = a.union(b);
    assert_eq!(both.bits(), 0x5);
    assert!(both.contains(a));
    assert!(both.contains(b));
    assert!(!both.contains(Flags::from_bits_retain(0x8)));
    assert!(both.intersects(b));
}

#[test]
fn flag_set_operations() {
    let a = Flags::<XcbSurfaceCreate>::from_bits_retain(0b1100);
    let b = Flags::<XcbSurfaceCreate>::from_bits_retain(0b1010);
    assert_eq!(a.intersection(b).bits(), 0b1000);
    assert_eq!(a.difference(b).bits(), 0b0100);
    assert_eq!(a.symmetric_difference(b).bits(), 0b0110);
    let mut c = a;
    c.insert(Flags::from_bits_retain(0b0001));
    assert_eq!(c.bits(), 0b1101);
    c.remove(Flags::from_bits_retain(0b1000));
    assert_eq!(c.bits(), 0b0101);
    assert!(Flags::<XcbSurfaceCreate>::empty().is_empty());
    assert_eq!(a.complement().bits(), !0b1100u32);
    assert_eq!(Flags::<XcbSurfaceCreate>::empty().complement().bits(), 0xFFFF_FFFF);
    assert!(VkAndroidSurfaceCreateFlagsKHR::default().is_empty());
}

#[test]
fn bool32_conversions() {
    assert_eq!(VkBool32::from(true).value(), 1);
    assert_eq!(VkBool32::from(false).value(), 0);
    assert!(bool::from(VkBool32::from(true)));
    assert!(!bool::from(VkBool32::from(false)));
    assert_eq!(VkBool32::default(), VkBool32::from(false));
    assert_eq!(VkBool32::from(true).to_string(), "true");
    assert_eq!(VkBool32::default().to_string(), "false");
    assert_eq!(VkBool32::from(true).debug_string(), "VkBool32::TRUE");
    assert_eq!(VkBool32::from(false).debug_string(), "VkBool32::FALSE");
}

#[test]
fn structure_type_values() {
    assert_eq!(VkStructureType::APPLICATION_INFO.value(), 0);
    assert_eq!(VkStructureType::XLIB_SURFACE_CREATE_INFO_KHR.value(), 1000004000);
    assert_eq!(VkStructureType::XCB_SURFACE_CREATE_INFO_KHR.value(), 1000005000);
    assert_eq!(VkStructureType::WAYLAND_SURFACE_CREATE_INFO_KHR.value(), 1000006000);
    assert_eq!(VkStructureType::ANDROID_SURFACE_CREATE_INFO_KHR.value(), 1000008000);
    assert_eq!(VK_QUEUE_FAMILY_EXTERNAL, 0xFFFF_FFFE);
}
