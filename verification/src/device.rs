//! The identity of one display device and the state it is in.

use vstd::prelude::*;

verus! {

/// The device is part of the desktop.
pub const ACTIVE: u32 = 0x1;

/// The device is the primary display.
pub const PRIMARY: u32 = 0x4;

/// The device is a pseudo device that mirrors another.
pub const MIRRORING: u32 = 0x8;

/// The device is VGA compatible.
pub const VGA_COMPATIBLE: u32 = 0x10;

/// The device can be removed.
pub const REMOVABLE: u32 = 0x20;

/// The device has more modes than its monitor supports.
pub const MODES_PRUNED: u32 = 0x0800_0000;

/// Whether every bit of `flag` is set in `bits`.
pub open spec fn has_all(bits: u32, flag: u32) -> bool {
    bits & flag == flag
}

/// The state of a display device, one named property per state bit.
#[derive(Clone, Copy, Debug, PartialEq, Eq, Structural)]
pub struct StateFlags {
    pub active: bool,
    pub primary: bool,
    pub mirroring: bool,
    pub modes_pruned: bool,
    pub removable: bool,
    pub vga_compatible: bool,
}

impl StateFlags {
    /// The properties that the state word `bits` stands for.
    pub open spec fn decoded(bits: u32) -> StateFlags {
        StateFlags {
            active: has_all(bits, ACTIVE),
            primary: has_all(bits, PRIMARY),
            mirroring: has_all(bits, MIRRORING),
            modes_pruned: has_all(bits, MODES_PRUNED),
            removable: has_all(bits, REMOVABLE),
            vga_compatible: has_all(bits, VGA_COMPATIBLE),
        }
    }

    /// Reads the named properties out of a state word. Bits that stand for
    /// none of them are dropped.
    pub fn from_bits(bits: u32) -> (flags: StateFlags)
        ensures
            flags == StateFlags::decoded(bits),
    {
        StateFlags {
            active: bits & ACTIVE == ACTIVE,
            primary: bits & PRIMARY == PRIMARY,
            mirroring: bits & MIRRORING == MIRRORING,
            modes_pruned: bits & MODES_PRUNED == MODES_PRUNED,
            removable: bits & REMOVABLE == REMOVABLE,
            vga_compatible: bits & VGA_COMPATIBLE == VGA_COMPATIBLE,
        }
    }
}

/// One display device as the display system describes it at one moment.
#[derive(Clone, Debug, PartialEq, Eq)]
pub struct DisplayDevice {
    /// The name under which the display system knows the device. It is the
    /// key of every later question about the device's mode, and is kept unit
    /// for unit as it came.
    pub name: Vec<u16>,
    /// A description of the device for the reader.
    pub description: Vec<u16>,
    /// The state of the device.
    pub flags: StateFlags,
}

/// What a [`DisplayDevice`] holds, as mathematical values.
pub ghost struct DeviceView {
    pub name: Seq<u16>,
    pub description: Seq<u16>,
    pub flags: StateFlags,
}

impl View for DisplayDevice {
    type V = DeviceView;

    open spec fn view(&self) -> DeviceView {
        DeviceView { name: self.name@, description: self.description@, flags: self.flags }
    }
}

impl DisplayDevice {
    /// Whether the device is part of the desktop.
    pub fn is_active(&self) -> (active: bool)
        ensures
            active == self@.flags.active,
    {
        self.flags.active
    }
}

/// A copy of a device name, unit for unit.
pub fn copy_name(name: &Vec<u16>) -> (copy: Vec<u16>)
    ensures
        copy@ == name@,
{
    let copy = name.clone();
    assert(copy@ =~= name@);
    copy
}

} // verus!
