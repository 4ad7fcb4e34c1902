use vk_bindings::handle::{
    DispatchableHandle, Handle, NonDispatchableHandle, VkDevice, VkInstance, VkPhysicalDevice,
    VkQueue, VkSurfaceKHR,
};

#[test]
fn handle_round_trips_through_u64() {
    let raw: u64 = 0xDEAD_BEEF_0000_1234;
    assert_eq!(u64::from(VkInstance::from(raw)), raw);
    assert_eq!(u64::from(VkDevice::from(raw)), raw);
    assert_eq!(u64::from(VkPhysicalDevice::from(raw)), raw);
    assert_eq!(u64::from(VkQueue::from(raw)), raw);
    assert_eq!(u64::from(VkSurfaceKHR::from(raw)), raw);
    let s = VkSurfaceKHR::from(raw);
    assert_eq!(Handle::addr(&s), s.handle().addr());
    assert_eq!(s.handle().addr(), u64::from(s));
    assert_eq!(VkInstance::from(raw).to_string(), "0xdeadbeef00001234");
    assert_eq!(VkSurfaceKHR::from(7u64).to_string(), "7");
    let h = VkDevice::from(77u64);
    assert_eq!(VkDevice::from(u64::from(h)), h);
}

#[test]
fn none_handle_is_zero_and_default() {
    assert_eq!(u64::from(VkInstance::none()), 0);
    assert_eq!(u64::from(VkSurfaceKHR::none()), 0);
    assert_eq!(VkInstance::default(), VkInstance::none());
    assert_eq!(VkSurfaceKHR::default(), VkSurfaceKHR::from(0u64));
    assert_eq!(DispatchableHandle::none().addr(), 0);
    assert_eq!(NonDispatchableHandle::none().addr(), 0);
    assert_eq!(u64::from(DispatchableHandle::none()), 0);
}

#[test]
fn handle_addr_and_inner() {
    let s = VkSurfaceKHR::from(99u64);
    assert_eq!(s.addr(), 99);
    assert_eq!(s.handle().addr(), 99);
    let q = VkQueue::from(5u64);
    assert_eq!(q.addr(), 5);
    assert_eq!(q.handle().addr(), 5);
    assert_ne!(VkQueue::from(5u64), VkQueue::from(6u64));
}

#[test]
fn handle_text() {
    assert_eq!(VkInstance::from(0x1234u64).to_string(), "0x1234");
    assert_eq!(VkInstance::none().to_string(), "0x0");
    assert_eq!(VkSurfaceKHR::from(42u64).to_string(), "42");
    assert_eq!(NonDispatchableHandle::none().to_string(), "0");
}
