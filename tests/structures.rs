use vk_bindings::chain::link_vulkan_structures;
use vk_bindings::structures::{
    VkAndroidSurfaceCreateInfoKHR, VkBaseOutStructure, VkWaylandSurfaceCreateInfoKHR,
    VkXcbSurfaceCreateInfoKHR, VkXlibSurfaceCreateInfoKHR,
};
use vk_bindings::types::VkStructureType;

#[test]
fn surface_defaults_carry_type_and_nulls() {
    let a = VkAndroidSurfaceCreateInfoKHR::default();
    assert_eq!(a.sType, VkStructureType::ANDROID_SURFACE_CREATE_INFO_KHR);
    assert_eq!(a.pNext, None);
    assert_eq!(a.window, 0);
    assert!(a.flags.is_empty());
    let x = VkXcbSurfaceCreateInfoKHR::default();
    assert_eq!(x.sType, VkStructureType::XCB_SURFACE_CREATE_INFO_KHR);
    assert_eq!((x.pNext, x.connection, x.window), (None, 0, 0));
    let l = VkXlibSurfaceCreateInfoKHR::default();
    assert_eq!(l.sType, VkStructureType::XLIB_SURFACE_CREATE_INFO_KHR);
    assert_eq!((l.pNext, l.dpy, l.window), (None, 0, 0));
    let w = VkWaylandSurfaceCreateInfoKHR::default();
    assert_eq!(w.sType, VkStructureType::WAYLAND_SURFACE_CREATE_INFO_KHR);
    assert_eq!((w.pNext, w.display, w.surface), (None, 0, 0));
}

fn header(s: VkStructureType) -> VkBaseOutStructure {
    VkBaseOutStructure { sType: s, pNext: None }
}

#[test]
fn linking_three_structures_forms_a_chain() {
    let mut store = vec![
        header(VkStructureType::INSTANCE_CREATE_INFO),
        header(VkStructureType::APPLICATION_INFO),
        header(VkStructureType::DEVICE_QUEUE_CREATE_INFO),
        header(VkStructureType::DEVICE_CREATE_INFO),
    ];
    link_vulkan_structures(&mut store, 0, &vec![1, 2, 3]);
    assert_eq!(store[0].pNext, Some(1));
    assert_eq!(store[1].pNext, Some(2));
    assert_eq!(store[2].pNext, Some(3));
    assert_eq!(store[3].pNext, None);
    assert_eq!(store[2].sType, VkStructureType::DEVICE_QUEUE_CREATE_INFO);
}

#[test]
fn linking_one_structure_leaves_the_rest() {
    let mut store = vec![
        header(VkStructureType::APPLICATION_INFO),
        header(VkStructureType::INSTANCE_CREATE_INFO),
        header(VkStructureType::DEVICE_CREATE_INFO),
    ];
    link_vulkan_structures(&mut store, 2, &vec![0]);
    assert_eq!(store[2].pNext, Some(0));
    assert_eq!(store[0].pNext, None);
    assert_eq!(store[1].pNext, None);
}

#[test]
fn surface_header_joins_a_chain() {
    let surface = VkXcbSurfaceCreateInfoKHR::default();
    let mut store = vec![
        surface.header(),
        header(VkStructureType::APPLICATION_INFO),
    ];
    assert_eq!(store[0].sType, VkStructureType::XCB_SURFACE_CREATE_INFO_KHR);
    link_vulkan_structures(&mut store, 0, &vec![1]);
    let mut linked = surface.clone();
    linked.pNext = store[0].pNext;
    assert_eq!(linked.pNext, Some(1));
    assert_ne!(linked, surface);
    assert_eq!(VkXcbSurfaceCreateInfoKHR::default(), surface);
}
