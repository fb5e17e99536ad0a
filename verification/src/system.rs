//! The questions that are put to the display system, and its answers.
//!
//! The library decides which question comes next; whoever drives it performs
//! the question and hands back the answer.

use vstd::prelude::*;
use crate::device::{DeviceView, DisplayDevice};
use crate::mode::{DisplayMode, ModeView};

verus! {

/// Asks the enumeration for the device's interface name, the form of name
/// that later questions about its mode accept.
pub const INTERFACE_NAME: u32 = 0x1;

/// Selects the mode that the display is in now.
pub const CURRENT_MODE: u32 = 0xFFFF_FFFF;

/// Asks for the mode as stored, with no unit converted and nothing rounded.
pub const RAW_MODE: u32 = 0x2;

/// Applies a change for all users.
pub const GLOBAL: u32 = 0x8;

/// Stores a change in the system's configuration, so that it lasts.
pub const UPDATE_STORE: u32 = 0x1;

/// How every mode is written: for all users, and stored.
pub const WRITE_FLAGS: u32 = 0x9;

/// The return code of a write that succeeded.
pub const WRITE_SUCCESSFUL: i32 = 0;

/// The write flags are the two scopes together.
pub proof fn write_flags_are_global_and_stored()
    ensures
        WRITE_FLAGS == GLOBAL | UPDATE_STORE,
{
    assert(0x9u32 == 0x8u32 | 0x1u32) by (bit_vector);
}

/// One question to the display system.
#[derive(Clone, Debug, PartialEq, Eq)]
pub enum Query {
    /// Which device stands at the zero-based `index` of the enumeration?
    Enumerate { index: u32, flags: u32 },
    /// What is the mode of the device named `device`?
    ReadMode { device: Vec<u16>, selector: u32, flags: u32 },
    /// Make `mode` the mode of the device named `device`.
    WriteMode { device: Vec<u16>, mode: DisplayMode, flags: u32 },
}

/// What a [`Query`] holds, as mathematical values.
pub ghost enum QueryView {
    Enumerate { index: u32, flags: u32 },
    ReadMode { device: Seq<u16>, selector: u32, flags: u32 },
    WriteMode { device: Seq<u16>, mode: ModeView, flags: u32 },
}

impl QueryView {
    /// The enumeration of the device at `index`, by interface name.
    pub open spec fn enumerate(index: u32) -> QueryView {
        QueryView::Enumerate { index, flags: INTERFACE_NAME }
    }

    /// The reading of the current, raw mode of `device`.
    pub open spec fn read_mode(device: Seq<u16>) -> QueryView {
        QueryView::ReadMode { device, selector: CURRENT_MODE, flags: RAW_MODE }
    }

    /// The writing of `mode` to `device`, for all users and stored.
    pub open spec fn write_mode(device: Seq<u16>, mode: ModeView) -> QueryView {
        QueryView::WriteMode { device, mode, flags: WRITE_FLAGS }
    }

    /// Whether `reply` is an answer to this question.
    pub open spec fn answered_by(self, reply: ReplyView) -> bool {
        match self {
            QueryView::Enumerate { .. } => reply is Device,
            QueryView::ReadMode { .. } => reply is Mode,
            QueryView::WriteMode { .. } => reply is Written,
        }
    }
}

impl View for Query {
    type V = QueryView;

    open spec fn view(&self) -> QueryView {
        match self {
            Query::Enumerate { index, flags } => QueryView::Enumerate {
                index: *index,
                flags: *flags,
            },
            Query::ReadMode { device, selector, flags } => QueryView::ReadMode {
                device: device@,
                selector: *selector,
                flags: *flags,
            },
            Query::WriteMode { device, mode, flags } => QueryView::WriteMode {
                device: device@,
                mode: mode@,
                flags: *flags,
            },
        }
    }
}

impl Query {
    /// The enumeration of the device at `index`, by interface name.
    pub fn enumerate(index: u32) -> (query: Query)
        ensures
            query@ == QueryView::enumerate(index),
    {
        Query::Enumerate { index, flags: INTERFACE_NAME }
    }

    /// The reading of the current, raw mode of `device`.
    pub fn read_mode(device: Vec<u16>) -> (query: Query)
        ensures
            query@ == QueryView::read_mode(device@),
    {
        Query::ReadMode { device, selector: CURRENT_MODE, flags: RAW_MODE }
    }

    /// The writing of `mode` to `device`, for all users and stored.
    pub fn write_mode(device: Vec<u16>, mode: DisplayMode) -> (query: Query)
        ensures
            query@ == QueryView::write_mode(device@, mode@),
    {
        Query::WriteMode { device, mode, flags: WRITE_FLAGS }
    }
}

/// One answer of the display system.
#[derive(Clone, Debug, PartialEq, Eq)]
pub enum Reply {
    /// The device at the index asked for, or `None` where the enumeration
    /// has ended before it.
    Device(Option<DisplayDevice>),
    /// The mode of the device asked for, or `None` where it has none.
    Mode(Option<DisplayMode>),
    /// The return code of a write.
    Written { code: i32 },
}

/// What a [`Reply`] holds, as mathematical values.
pub ghost enum ReplyView {
    Device(Option<DeviceView>),
    Mode(Option<ModeView>),
    Written { code: i32 },
}

impl View for Reply {
    type V = ReplyView;

    open spec fn view(&self) -> ReplyView {
        match self {
            Reply::Device(Some(device)) => ReplyView::Device(Some(device@)),
            Reply::Device(None) => ReplyView::Device(None),
            Reply::Mode(Some(mode)) => ReplyView::Mode(Some(mode@)),
            Reply::Mode(None) => ReplyView::Mode(None),
            Reply::Written { code } => ReplyView::Written { code: *code },
        }
    }
}

/// Whether a write that returned `code` took effect: only the one code for
/// success counts, whatever else the others may tell.
pub open spec fn write_succeeded(code: i32) -> bool {
    code == WRITE_SUCCESSFUL
}

} // verus!
