use crate::text::{decimal, decimal_spec, hex_spec, prefixed_hex};
use vstd::prelude::*;
use vstd::std_specs::convert::FromSpec;

verus! {

/// What every handle type offers: its numeric identity as a 64-bit address.
pub trait Handle {
    spec fn raw(&self) -> u64;

    fn addr(&self) -> (r: u64)
        ensures
            r == self.raw(),
    ;
}

/// The representation of a dispatchable handle: a pointer-sized identity, kept as 64 bits.
#[derive(Copy, Clone, Eq, PartialEq, Ord, PartialOrd, Hash, Debug, Structural)]
pub struct DispatchableHandle(u64);

impl DispatchableHandle {
    pub closed spec fn raw(&self) -> u64 {
        self.0
    }

    pub fn none() -> (r: Self)
        ensures
            r.raw() == 0,
    {
        DispatchableHandle(0)
    }

    pub fn addr(&self) -> (r: u64)
        ensures
            r == self.raw(),
    {
        self.0
    }
}

impl DispatchableHandle {
    pub fn to_string(&self) -> (r: String)
        ensures
            r@ == "0x"@ + hex_spec(self.raw() as nat),
    {
        prefixed_hex(self.0)
    }
}

impl From<DispatchableHandle> for u64 {
    fn from(handle: DispatchableHandle) -> (r: u64) {
        handle.0
    }
}

impl vstd::std_specs::convert::FromSpecImpl<DispatchableHandle> for u64 {
    open spec fn obeys_from_spec() -> bool {
        true
    }

    open spec fn from_spec(handle: DispatchableHandle) -> u64 {
        handle.raw()
    }
}

/// The representation of a non-dispatchable handle: an opaque 64-bit value.
#[derive(Copy, Clone, Eq, PartialEq, Ord, PartialOrd, Hash, Debug, Structural)]
pub struct NonDispatchableHandle(u64);

impl NonDispatchableHandle {
    pub closed spec fn raw(&self) -> u64 {
        self.0
    }

    pub fn none() -> (r: Self)
        ensures
            r.raw() == 0,
    {
        NonDispatchableHandle(0)
    }

    pub fn addr(&self) -> (r: u64)
        ensures
            r == self.raw(),
    {
        self.0
    }
}

impl NonDispatchableHandle {
    pub fn to_string(&self) -> (r: String)
        ensures
            r@ == decimal_spec(self.raw() as nat),
    {
        decimal(self.0)
    }
}

impl From<NonDispatchableHandle> for u64 {
    fn from(handle: NonDispatchableHandle) -> (r: u64) {
        handle.0
    }
}

impl vstd::std_specs::convert::FromSpecImpl<NonDispatchableHandle> for u64 {
    open spec fn obeys_from_spec() -> bool {
        true
    }

    open spec fn from_spec(handle: NonDispatchableHandle) -> u64 {
        handle.raw()
    }
}

/// A Vulkan instance.
#[derive(Copy, Clone, Eq, PartialEq, Ord, PartialOrd, Hash, Debug, Structural)]
pub struct VkInstance(DispatchableHandle);

impl VkInstance {
    pub closed spec fn raw(&self) -> u64 {
        self.0.raw()
    }

    pub fn none() -> (r: Self)
        ensures
            r.raw() == 0,
    {
        VkInstance(DispatchableHandle::none())
    }

    pub fn handle(&self) -> (r: DispatchableHandle)
        ensures
            r.raw() == self.raw(),
    {
        self.0
    }
}

impl VkInstance {
    pub fn to_string(&self) -> (r: String)
        ensures
            r@ == "0x"@ + hex_spec(self.raw() as nat),
    {
        self.0.to_string()
    }
}

impl Default for VkInstance {
    fn default() -> (r: Self)
        ensures
            r.raw() == 0,
    {
        VkInstance(DispatchableHandle::none())
    }
}

impl From<VkInstance> for u64 {
    fn from(handle: VkInstance) -> (r: u64) {
        handle.0.addr()
    }
}

impl vstd::std_specs::convert::FromSpecImpl<VkInstance> for u64 {
    open spec fn obeys_from_spec() -> bool {
        true
    }

    open spec fn from_spec(handle: VkInstance) -> u64 {
        handle.raw()
    }
}

impl From<u64> for VkInstance {
    fn from(handle: u64) -> (r: VkInstance) {
        VkInstance(DispatchableHandle(handle))
    }
}

impl vstd::std_specs::convert::FromSpecImpl<u64> for VkInstance {
    open spec fn obeys_from_spec() -> bool {
        true
    }

    closed spec fn from_spec(handle: u64) -> VkInstance {
        VkInstance(DispatchableHandle(handle))
    }
}

impl Handle for VkInstance {
    closed spec fn raw(&self) -> u64 {
        self.0.raw()
    }

    fn addr(&self) -> (r: u64) {
        self.0.addr()
    }
}

/// A physical device.
#[derive(Copy, Clone, Eq, PartialEq, Ord, PartialOrd, Hash, Debug, Structural)]
pub struct VkPhysicalDevice(DispatchableHandle);

impl VkPhysicalDevice {
    pub closed spec fn raw(&self) -> u64 {
        self.0.raw()
    }

    pub fn none() -> (r: Self)
        ensures
            r.raw() == 0,
    {
        VkPhysicalDevice(DispatchableHandle::none())
    }

    pub fn handle(&self) -> (r: DispatchableHandle)
        ensures
            r.raw() == self.raw(),
    {
        self.0
    }
}

impl VkPhysicalDevice {
    pub fn to_string(&self) -> (r: String)
        ensures
            r@ == "0x"@ + hex_spec(self.raw() as nat),
    {
        self.0.to_string()
    }
}

impl Default for VkPhysicalDevice {
    fn default() -> (r: Self)
        ensures
            r.raw() == 0,
    {
        VkPhysicalDevice(DispatchableHandle::none())
    }
}

impl From<VkPhysicalDevice> for u64 {
    fn from(handle: VkPhysicalDevice) -> (r: u64) {
        handle.0.addr()
    }
}

impl vstd::std_specs::convert::FromSpecImpl<VkPhysicalDevice> for u64 {
    open spec fn obeys_from_spec() -> bool {
        true
    }

    open spec fn from_spec(handle: VkPhysicalDevice) -> u64 {
        handle.raw()
    }
}

impl From<u64> for VkPhysicalDevice {
    fn from(handle: u64) -> (r: VkPhysicalDevice) {
        VkPhysicalDevice(DispatchableHandle(handle))
    }
}

impl vstd::std_specs::convert::FromSpecImpl<u64> for VkPhysicalDevice {
    open spec fn obeys_from_spec() -> bool {
        true
    }

    closed spec fn from_spec(handle: u64) -> VkPhysicalDevice {
        VkPhysicalDevice(DispatchableHandle(handle))
    }
}

impl Handle for VkPhysicalDevice {
    closed spec fn raw(&self) -> u64 {
        self.0.raw()
    }

    fn addr(&self) -> (r: u64) {
        self.0.addr()
    }
}

/// A logical device.
#[derive(Copy, Clone, Eq, PartialEq, Ord, PartialOrd, Hash, Debug, Structural)]
pub struct VkDevice(DispatchableHandle);

impl VkDevice {
    pub closed spec fn raw(&self) -> u64 {
        self.0.raw()
    }

    pub fn none() -> (r: Self)
        ensures
            r.raw() == 0,
    {
        VkDevice(DispatchableHandle::none())
    }

    pub fn handle(&self) -> (r: DispatchableHandle)
        ensures
            r.raw() == self.raw(),
    {
        self.0
    }
}

impl VkDevice {
    pub fn to_string(&self) -> (r: String)
        ensures
            r@ == "0x"@ + hex_spec(self.raw() as nat),
    {
        self.0.to_string()
    }
}

impl Default for VkDevice {
    fn default() -> (r: Self)
        ensures
            r.raw() == 0,
    {
        VkDevice(DispatchableHandle::none())
    }
}

impl From<VkDevice> for u64 {
    fn from(handle: VkDevice) -> (r: u64) {
        handle.0.addr()
    }
}

impl vstd::std_specs::convert::FromSpecImpl<VkDevice> for u64 {
    open spec fn obeys_from_spec() -> bool {
        true
    }

    open spec fn from_spec(handle: VkDevice) -> u64 {
        handle.raw()
    }
}

impl From<u64> for VkDevice {
    fn from(handle: u64) -> (r: VkDevice) {
        VkDevice(DispatchableHandle(handle))
    }
}

impl vstd::std_specs::convert::FromSpecImpl<u64> for VkDevice {
    open spec fn obeys_from_spec() -> bool {
        true
    }

    closed spec fn from_spec(handle: u64) -> VkDevice {
        VkDevice(DispatchableHandle(handle))
    }
}

impl Handle for VkDevice {
    closed spec fn raw(&self) -> u64 {
        self.0.raw()
    }

    fn addr(&self) -> (r: u64) {
        self.0.addr()
    }
}

/// A device queue.
#[derive(Copy, Clone, Eq, PartialEq, Ord, PartialOrd, Hash, Debug, Structural)]
pub struct VkQueue(DispatchableHandle);

impl VkQueue {
    pub closed spec fn raw(&self) -> u64 {
        self.0.raw()
    }

    pub fn none() -> (r: Self)
        ensures
            r.raw() == 0,
    {
        VkQueue(DispatchableHandle::none())
    }

    pub fn handle(&self) -> (r: DispatchableHandle)
        ensures
            r.raw() == self.raw(),
    {
        self.0
    }
}

impl VkQueue {
    pub fn to_string(&self) -> (r: String)
        ensures
            r@ == "0x"@ + hex_spec(self.raw() as nat),
    {
        self.0.to_string()
    }
}

impl Default for VkQueue {
    fn default() -> (r: Self)
        ensures
            r.raw() == 0,
    {
        VkQueue(DispatchableHandle::none())
    }
}

impl From<VkQueue> for u64 {
    fn from(handle: VkQueue) -> (r: u64) {
        handle.0.addr()
    }
}

impl vstd::std_specs::convert::FromSpecImpl<VkQueue> for u64 {
    open spec fn obeys_from_spec() -> bool {
        true
    }

    open spec fn from_spec(handle: VkQueue) -> u64 {
        handle.raw()
    }
}

impl From<u64> for VkQueue {
    fn from(handle: u64) -> (r: VkQueue) {
        VkQueue(DispatchableHandle(handle))
    }
}

impl vstd::std_specs::convert::FromSpecImpl<u64> for VkQueue {
    open spec fn obeys_from_spec() -> bool {
        true
    }

    closed spec fn from_spec(handle: u64) -> VkQueue {
        VkQueue(DispatchableHandle(handle))
    }
}

impl Handle for VkQueue {
    closed spec fn raw(&self) -> u64 {
        self.0.raw()
    }

    fn addr(&self) -> (r: u64) {
        self.0.addr()
    }
}

/// A presentation surface.
#[derive(Copy, Clone, Eq, PartialEq, Ord, PartialOrd, Hash, Debug, Structural)]
pub struct VkSurfaceKHR(NonDispatchableHandle);

impl VkSurfaceKHR {
    pub closed spec fn raw(&self) -> u64 {
        self.0.raw()
    }

    pub fn none() -> (r: Self)
        ensures
            r.raw() == 0,
    {
        VkSurfaceKHR(NonDispatchableHandle::none())
    }

    pub fn handle(&self) -> (r: NonDispatchableHandle)
        ensures
            r.raw() == self.raw(),
    {
        self.0
    }
}

impl VkSurfaceKHR {
    pub fn to_string(&self) -> (r: String)
        ensures
            r@ == decimal_spec(self.raw() as nat),
    {
        self.0.to_string()
    }
}

impl Default for VkSurfaceKHR {
    fn default() -> (r: Self)
        ensures
            r.raw() == 0,
    {
        VkSurfaceKHR(NonDispatchableHandle::none())
    }
}

impl From<VkSurfaceKHR> for u64 {
    fn from(handle: VkSurfaceKHR) -> (r: u64) {
        handle.0.addr()
    }
}

impl vstd::std_specs::convert::FromSpecImpl<VkSurfaceKHR> for u64 {
    open spec fn obeys_from_spec() -> bool {
        true
    }

    open spec fn from_spec(handle: VkSurfaceKHR) -> u64 {
        handle.raw()
    }
}

impl From<u64> for VkSurfaceKHR {
    fn from(handle: u64) -> (r: VkSurfaceKHR) {
        VkSurfaceKHR(NonDispatchableHandle(handle))
    }
}

impl vstd::std_specs::convert::FromSpecImpl<u64> for VkSurfaceKHR {
    open spec fn obeys_from_spec() -> bool {
        true
    }

    closed spec fn from_spec(handle: u64) -> VkSurfaceKHR {
        VkSurfaceKHR(NonDispatchableHandle(handle))
    }
}

impl Handle for VkSurfaceKHR {
    closed spec fn raw(&self) -> u64 {
        self.0.raw()
    }

    fn addr(&self) -> (r: u64) {
        self.0.addr()
    }
}

/// Turning a handle into its 64-bit value and back gives the same handle, and
/// the empty handle of each type is the value 0.
pub proof fn lemma_handle_round_trip(
    instance: VkInstance,
    physical_device: VkPhysicalDevice,
    device: VkDevice,
    queue: VkQueue,
    surface: VkSurfaceKHR,
)
    ensures
        <VkInstance as FromSpec<u64>>::from_spec(<u64 as FromSpec<VkInstance>>::from_spec(instance)) == instance,
        <u64 as FromSpec<VkInstance>>::from_spec(<VkInstance as FromSpec<u64>>::from_spec(0u64)) == 0,
        forall|h: VkInstance| h.raw() == 0 ==> <u64 as FromSpec<VkInstance>>::from_spec(h) == 0,
        <VkPhysicalDevice as FromSpec<u64>>::from_spec(<u64 as FromSpec<VkPhysicalDevice>>::from_spec(physical_device)) == physical_device,
        <u64 as FromSpec<VkPhysicalDevice>>::from_spec(<VkPhysicalDevice as FromSpec<u64>>::from_spec(0u64)) == 0,
        forall|h: VkPhysicalDevice| h.raw() == 0 ==> <u64 as FromSpec<VkPhysicalDevice>>::from_spec(h) == 0,
        <VkDevice as FromSpec<u64>>::from_spec(<u64 as FromSpec<VkDevice>>::from_spec(device)) == device,
        <u64 as FromSpec<VkDevice>>::from_spec(<VkDevice as FromSpec<u64>>::from_spec(0u64)) == 0,
        forall|h: VkDevice| h.raw() == 0 ==> <u64 as FromSpec<VkDevice>>::from_spec(h) == 0,
        <VkQueue as FromSpec<u64>>::from_spec(<u64 as FromSpec<VkQueue>>::from_spec(queue)) == queue,
        <u64 as FromSpec<VkQueue>>::from_spec(<VkQueue as FromSpec<u64>>::from_spec(0u64)) == 0,
        forall|h: VkQueue| h.raw() == 0 ==> <u64 as FromSpec<VkQueue>>::from_spec(h) == 0,
        <VkSurfaceKHR as FromSpec<u64>>::from_spec(<u64 as FromSpec<VkSurfaceKHR>>::from_spec(surface)) == surface,
        <u64 as FromSpec<VkSurfaceKHR>>::from_spec(<VkSurfaceKHR as FromSpec<u64>>::from_spec(0u64)) == 0,
        forall|h: VkSurfaceKHR| h.raw() == 0 ==> <u64 as FromSpec<VkSurfaceKHR>>::from_spec(h) == 0,
{
}

/// A DispatchableHandle is its 64-bit value: two with the same value are equal.
pub proof fn lemma_dispatchable_raw_injective(a: DispatchableHandle, b: DispatchableHandle)
    ensures
        a.raw() == b.raw() ==> a == b,
        <u64 as FromSpec<DispatchableHandle>>::from_spec(a) == a.raw(),
{
}

/// A NonDispatchableHandle is its 64-bit value: two with the same value are equal.
pub proof fn lemma_non_dispatchable_raw_injective(a: NonDispatchableHandle, b: NonDispatchableHandle)
    ensures
        a.raw() == b.raw() ==> a == b,
        <u64 as FromSpec<NonDispatchableHandle>>::from_spec(a) == a.raw(),
{
}

/// The address that the `Handle` capability of a VkInstance gives is its 64-bit
/// value, the address of its inner handle, and what `u64::from` gives; a
/// VkInstance made from a value holds that value, and the value determines it.
pub proof fn lemma_instance_addr(h: VkInstance, other: VkInstance, x: u64)
    ensures
        <VkInstance as Handle>::raw(&h) == h.raw(),
        <u64 as FromSpec<VkInstance>>::from_spec(h) == h.raw(),
        <VkInstance as FromSpec<u64>>::from_spec(x).raw() == x,
        h.raw() == other.raw() ==> h == other,
{
}

/// The address that the `Handle` capability of a VkPhysicalDevice gives is its 64-bit
/// value, the address of its inner handle, and what `u64::from` gives; a
/// VkPhysicalDevice made from a value holds that value, and the value determines it.
pub proof fn lemma_physical_device_addr(h: VkPhysicalDevice, other: VkPhysicalDevice, x: u64)
    ensures
        <VkPhysicalDevice as Handle>::raw(&h) == h.raw(),
        <u64 as FromSpec<VkPhysicalDevice>>::from_spec(h) == h.raw(),
        <VkPhysicalDevice as FromSpec<u64>>::from_spec(x).raw() == x,
        h.raw() == other.raw() ==> h == other,
{
}

/// The address that the `Handle` capability of a VkDevice gives is its 64-bit
/// value, the address of its inner handle, and what `u64::from` gives; a
/// VkDevice made from a value holds that value, and the value determines it.
pub proof fn lemma_device_addr(h: VkDevice, other: VkDevice, x: u64)
    ensures
        <VkDevice as Handle>::raw(&h) == h.raw(),
        <u64 as FromSpec<VkDevice>>::from_spec(h) == h.raw(),
        <VkDevice as FromSpec<u64>>::from_spec(x).raw() == x,
        h.raw() == other.raw() ==> h == other,
{
}

/// The address that the `Handle` capability of a VkQueue gives is its 64-bit
/// value, the address of its inner handle, and what `u64::from` gives; a
/// VkQueue made from a value holds that value, and the value determines it.
pub proof fn lemma_queue_addr(h: VkQueue, other: VkQueue, x: u64)
    ensures
        <VkQueue as Handle>::raw(&h) == h.raw(),
        <u64 as FromSpec<VkQueue>>::from_spec(h) == h.raw(),
        <VkQueue as FromSpec<u64>>::from_spec(x).raw() == x,
        h.raw() == other.raw() ==> h == other,
{
}

/// The address that the `Handle` capability of a VkSurfaceKHR gives is its 64-bit
/// value, the address of its inner handle, and what `u64::from` gives; a
/// VkSurfaceKHR made from a value holds that value, and the value determines it.
pub proof fn lemma_surface_addr(h: VkSurfaceKHR, other: VkSurfaceKHR, x: u64)
    ensures
        <VkSurfaceKHR as Handle>::raw(&h) == h.raw(),
        <u64 as FromSpec<VkSurfaceKHR>>::from_spec(h) == h.raw(),
        <VkSurfaceKHR as FromSpec<u64>>::from_spec(x).raw() == x,
        h.raw() == other.raw() ==> h == other,
{
}

} // verus!
