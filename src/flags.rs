use core::marker::PhantomData;
use vstd::prelude::*;

verus! {

/// A set of flag bits backed by a 32-bit word. The kind parameter keeps the
/// flag sets of different native bitmasks apart: no operation mixes two kinds.
/// Unknown bits are kept as they are, as the native interface allows.
#[derive(Copy, Eq, PartialEq, Ord, PartialOrd, Hash, Debug)]
pub struct Flags<K> {
    bits: u32,
    kind: PhantomData<K>,
}

/// The flag set `outer` holds every bit of `inner`.
pub open spec fn bits_contain(outer: u32, inner: u32) -> bool {
    outer & inner == inner
}

impl<K> Flags<K> {
    pub closed spec fn view(&self) -> u32 {
        self.bits
    }

    pub fn empty() -> (r: Self)
        ensures
            r.view() == 0,
    {
        Flags { bits: 0, kind: PhantomData }
    }

    pub fn from_bits_retain(bits: u32) -> (r: Self)
        ensures
            r.view() == bits,
    {
        Flags { bits, kind: PhantomData }
    }

    pub fn bits(&self) -> (r: u32)
        ensures
            r == self.view(),
    {
        self.bits
    }

    pub fn is_empty(&self) -> (r: bool)
        ensures
            r == (self.view() == 0),
    {
        self.bits == 0
    }

    pub fn contains(&self, other: Self) -> (r: bool)
        ensures
            r == bits_contain(self.view(), other.view()),
    {
        self.bits & other.bits == other.bits
    }

    pub fn intersects(&self, other: Self) -> (r: bool)
        ensures
            r == (self.view() & other.view() != 0),
    {
        self.bits & other.bits != 0
    }

    pub fn union(self, other: Self) -> (r: Self)
        ensures
            r.view() == self.view() | other.view(),
    {
        Flags { bits: self.bits | other.bits, kind: PhantomData }
    }

    pub fn intersection(self, other: Self) -> (r: Self)
        ensures
            r.view() == self.view() & other.view(),
    {
        Flags { bits: self.bits & other.bits, kind: PhantomData }
    }

    pub fn difference(self, other: Self) -> (r: Self)
        ensures
            r.view() == self.view() & !other.view(),
    {
        Flags { bits: self.bits & !other.bits, kind: PhantomData }
    }

    pub fn symmetric_difference(self, other: Self) -> (r: Self)
        ensures
            r.view() == self.view() ^ other.view(),
    {
        Flags { bits: self.bits ^ other.bits, kind: PhantomData }
    }

    pub fn complement(self) -> (r: Self)
        ensures
            r.view() == !self.view(),
    {
        Flags { bits: !self.bits, kind: PhantomData }
    }

    pub fn insert(&mut self, other: Self)
        ensures
            final(self).view() == old(self).view() | other.view(),
    {
        self.bits = self.bits | other.bits;
    }

    pub fn remove(&mut self, other: Self)
        ensures
            final(self).view() == old(self).view() & !other.view(),
    {
        self.bits = self.bits & !other.bits;
    }
}

impl<K> Clone for Flags<K> {
    fn clone(&self) -> (r: Self)
        ensures
            r == *self,
    {
        Flags { bits: self.bits, kind: PhantomData }
    }
}

impl<K> Default for Flags<K> {
    fn default() -> (r: Self)
        ensures
            r.view() == 0,
    {
        Flags { bits: 0, kind: PhantomData }
    }
}

/// A set built as the union of two flag sets contains each of them.
pub proof fn lemma_union_contains_each(a: u32, b: u32)
    ensures
        bits_contain(a | b, a),
        bits_contain(a | b, b),
{
    assert((a | b) & a == a) by (bit_vector);
    assert((a | b) & b == b) by (bit_vector);
}

/// A flag set is its word of bits: two of one kind with the same bits are
/// equal.
pub proof fn lemma_flags_view_eq<K>(a: Flags<K>, b: Flags<K>)
    ensures
        a.view() == b.view() ==> a == b,
{
}

/// Kind of the flags of an Android surface's creation.
#[derive(Copy, Clone, Eq, PartialEq, Ord, PartialOrd, Hash, Debug)]
pub struct AndroidSurfaceCreate;

/// Kind of the flags of an Xcb surface's creation.
#[derive(Copy, Clone, Eq, PartialEq, Ord, PartialOrd, Hash, Debug)]
pub struct XcbSurfaceCreate;

/// Kind of the flags of an Xlib surface's creation.
#[derive(Copy, Clone, Eq, PartialEq, Ord, PartialOrd, Hash, Debug)]
pub struct XlibSurfaceCreate;

/// Kind of the flags of a Wayland surface's creation.
#[derive(Copy, Clone, Eq, PartialEq, Ord, PartialOrd, Hash, Debug)]
pub struct WaylandSurfaceCreate;

/// Flags of an Android surface's creation, reserved: always empty for now.
pub type VkAndroidSurfaceCreateFlagBitsKHR = Flags<AndroidSurfaceCreate>;

pub type VkAndroidSurfaceCreateFlagsKHR = VkAndroidSurfaceCreateFlagBitsKHR;

/// Flags of an Xcb surface's creation, reserved: always empty for now.
pub type VkXcbSurfaceCreateFlagBitsKHR = Flags<XcbSurfaceCreate>;

pub type VkXcbSurfaceCreateFlagsKHR = VkXcbSurfaceCreateFlagBitsKHR;

/// Flags of an Xlib surface's creation, reserved: always empty for now.
pub type VkXlibSurfaceCreateFlagBitsKHR = Flags<XlibSurfaceCreate>;

pub type VkXlibSurfaceCreateFlagsKHR = VkXlibSurfaceCreateFlagBitsKHR;

/// Flags of a Wayland surface's creation, reserved: always empty for now.
pub type VkWaylandSurfaceCreateFlagBitsKHR = Flags<WaylandSurfaceCreate>;

pub type VkWaylandSurfaceCreateFlagsKHR = VkWaylandSurfaceCreateFlagBitsKHR;

} // verus!
