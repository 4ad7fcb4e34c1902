use crate::flags::{
    VkAndroidSurfaceCreateFlagsKHR, VkWaylandSurfaceCreateFlagsKHR, VkXcbSurfaceCreateFlagsKHR,
    VkXlibSurfaceCreateFlagsKHR,
};
use crate::types::VkStructureType;
use vstd::prelude::*;

verus! {

/// An extension pointer: the position of the next structure of the chain in
/// the caller's store of structures, or `None` for the null pointer.
pub type NextLink = Option<usize>;

/// The common header of structures that the driver writes.
#[derive(Copy, Clone, Eq, PartialEq, Ord, PartialOrd, Hash, Debug, Structural)]
pub struct VkBaseOutStructure {
    pub sType: VkStructureType,
    pub pNext: NextLink,
}

/// The common header of structures that the driver reads.
#[derive(Copy, Clone, Eq, PartialEq, Ord, PartialOrd, Hash, Debug, Structural)]
pub struct VkBaseInStructure {
    pub sType: VkStructureType,
    pub pNext: NextLink,
}

/// Native window and display handles are kept by their address; 0 is null.
pub type ANativeWindow = usize;

pub type xcb_window_t = u32;

pub type xcb_connection_t = usize;

pub type Window = usize;

pub type Display = usize;

pub type wl_display = usize;

pub type wl_surface = usize;

/// Parameters of a surface's creation on an Android window.
#[derive(Copy, Clone, Eq, PartialEq, Ord, PartialOrd, Hash, Debug)]
pub struct VkAndroidSurfaceCreateInfoKHR {
    pub sType: VkStructureType,
    pub pNext: NextLink,
    pub flags: VkAndroidSurfaceCreateFlagsKHR,
    pub window: ANativeWindow,
}

impl VkAndroidSurfaceCreateInfoKHR {
    /// The structure's header, to place it in a store of chained structures.
    pub fn header(&self) -> (r: VkBaseOutStructure)
        ensures
            r.sType == self.sType,
            r.pNext == self.pNext,
    {
        VkBaseOutStructure { sType: self.sType, pNext: self.pNext }
    }
}

impl Default for VkAndroidSurfaceCreateInfoKHR {
    fn default() -> (r: Self)
        ensures
            r.sType == VkStructureType::ANDROID_SURFACE_CREATE_INFO_KHR,
            r.pNext.is_none(),
            r.flags.view() == 0,
            r.window == 0,
    {
        VkAndroidSurfaceCreateInfoKHR {
            sType: VkStructureType::ANDROID_SURFACE_CREATE_INFO_KHR,
            pNext: None,
            flags: VkAndroidSurfaceCreateFlagsKHR::empty(),
            window: 0,
        }
    }
}

/// Parameters of a surface's creation on an Xcb window.
#[derive(Copy, Clone, Eq, PartialEq, Ord, PartialOrd, Hash, Debug)]
pub struct VkXcbSurfaceCreateInfoKHR {
    pub sType: VkStructureType,
    pub pNext: NextLink,
    pub flags: VkXcbSurfaceCreateFlagsKHR,
    pub connection: xcb_connection_t,
    pub window: xcb_window_t,
}

impl VkXcbSurfaceCreateInfoKHR {
    /// The structure's header, to place it in a store of chained structures.
    pub fn header(&self) -> (r: VkBaseOutStructure)
        ensures
            r.sType == self.sType,
            r.pNext == self.pNext,
    {
        VkBaseOutStructure { sType: self.sType, pNext: self.pNext }
    }
}

impl Default for VkXcbSurfaceCreateInfoKHR {
    fn default() -> (r: Self)
        ensures
            r.sType == VkStructureType::XCB_SURFACE_CREATE_INFO_KHR,
            r.pNext.is_none(),
            r.flags.view() == 0,
            r.connection == 0,
            r.window == 0,
    {
        VkXcbSurfaceCreateInfoKHR {
            sType: VkStructureType::XCB_SURFACE_CREATE_INFO_KHR,
            pNext: None,
            flags: VkXcbSurfaceCreateFlagsKHR::empty(),
            connection: 0,
            window: 0,
        }
    }
}

/// Parameters of a surface's creation on an Xlib window.
#[derive(Copy, Clone, Eq, PartialEq, Ord, PartialOrd, Hash, Debug)]
pub struct VkXlibSurfaceCreateInfoKHR {
    pub sType: VkStructureType,
    pub pNext: NextLink,
    pub flags: VkXlibSurfaceCreateFlagsKHR,
    pub dpy: Display,
    pub window: Window,
}

impl VkXlibSurfaceCreateInfoKHR {
    /// The structure's header, to place it in a store of chained structures.
    pub fn header(&self) -> (r: VkBaseOutStructure)
        ensures
            r.sType == self.sType,
            r.pNext == self.pNext,
    {
        VkBaseOutStructure { sType: self.sType, pNext: self.pNext }
    }
}

impl Default for VkXlibSurfaceCreateInfoKHR {
    fn default() -> (r: Self)
        ensures
            r.sType == VkStructureType::XLIB_SURFACE_CREATE_INFO_KHR,
            r.pNext.is_none(),
            r.flags.view() == 0,
            r.dpy == 0,
            r.window == 0,
    {
        VkXlibSurfaceCreateInfoKHR {
            sType: VkStructureType::XLIB_SURFACE_CREATE_INFO_KHR,
            pNext: None,
            flags: VkXlibSurfaceCreateFlagsKHR::empty(),
            dpy: 0,
            window: 0,
        }
    }
}

/// Parameters of a surface's creation on a Wayland surface.
#[derive(Copy, Clone, Eq, PartialEq, Ord, PartialOrd, Hash, Debug)]
pub struct VkWaylandSurfaceCreateInfoKHR {
    pub sType: VkStructureType,
    pub pNext: NextLink,
    pub flags: VkWaylandSurfaceCreateFlagsKHR,
    pub display: wl_display,
    pub surface: wl_surface,
}

impl VkWaylandSurfaceCreateInfoKHR {
    /// The structure's header, to place it in a store of chained structures.
    pub fn header(&self) -> (r: VkBaseOutStructure)
        ensures
            r.sType == self.sType,
            r.pNext == self.pNext,
    {
        VkBaseOutStructure { sType: self.sType, pNext: self.pNext }
    }
}

impl Default for VkWaylandSurfaceCreateInfoKHR {
    fn default() -> (r: Self)
        ensures
            r.sType == VkStructureType::WAYLAND_SURFACE_CREATE_INFO_KHR,
            r.pNext.is_none(),
            r.flags.view() == 0,
            r.display == 0,
            r.surface == 0,
    {
        VkWaylandSurfaceCreateInfoKHR {
            sType: VkStructureType::WAYLAND_SURFACE_CREATE_INFO_KHR,
            pNext: None,
            flags: VkWaylandSurfaceCreateFlagsKHR::empty(),
            display: 0,
            surface: 0,
        }
    }
}

} // verus!
