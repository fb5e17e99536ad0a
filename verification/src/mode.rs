//! The mode of one display: its resolution and its place in the virtual
//! desktop.

use vstd::prelude::*;

verus! {

/// The bit of the field selector that marks the position as meaningful.
pub const POSITION_FIELD: u32 = 0x20;

/// Resolution and position of a display, as shown to the user.
#[derive(Clone, Copy, Debug, PartialEq, Eq, Structural)]
pub struct Placement {
    pub width: u32,
    pub height: u32,
    pub x: i32,
    pub y: i32,
}

/// The configuration of one display as the display system delivers it.
///
/// Only the position and the field selector are ever changed. Everything else
/// is kept as it came: `width` and `height` for display, and `opaque` for what
/// this library does not interpret at all.
#[derive(Clone, Debug, PartialEq, Eq)]
pub struct DisplayMode {
    /// Horizontal resolution in pixels.
    pub width: u32,
    /// Vertical resolution in pixels.
    pub height: u32,
    /// Horizontal position of the top-left corner in the virtual desktop.
    pub x: i32,
    /// Vertical position of the top-left corner in the virtual desktop.
    pub y: i32,
    /// Field selector: which fields the display system is to take as meant.
    pub fields: u32,
    /// The remainder of the record, carried through unread.
    pub opaque: Vec<u8>,
}

/// What a [`DisplayMode`] holds, as mathematical values.
pub ghost struct ModeView {
    pub width: u32,
    pub height: u32,
    pub x: i32,
    pub y: i32,
    pub fields: u32,
    pub opaque: Seq<u8>,
}

impl ModeView {
    /// The same mode moved to `(x, y)`, with the selector naming the position
    /// and nothing else.
    pub open spec fn repositioned(self, x: i32, y: i32) -> ModeView {
        ModeView { x, y, fields: POSITION_FIELD, ..self }
    }

    /// The selector names the position and nothing else.
    pub open spec fn is_position_only(self) -> bool {
        self.fields == POSITION_FIELD
    }

    /// Resolution and position, without the rest.
    pub open spec fn placement(self) -> Placement {
        Placement { width: self.width, height: self.height, x: self.x, y: self.y }
    }
}

impl View for DisplayMode {
    type V = ModeView;

    open spec fn view(&self) -> ModeView {
        ModeView {
            width: self.width,
            height: self.height,
            x: self.x,
            y: self.y,
            fields: self.fields,
            opaque: self.opaque@,
        }
    }
}

impl DisplayMode {
    /// Moves the display to `(x, y)` and sets the field selector to the
    /// position alone, so that the display system takes nothing else of the
    /// record as a change.
    pub fn reposition(self, x: i32, y: i32) -> (moved: DisplayMode)
        ensures
            moved@ == self@.repositioned(x, y),
            moved@.is_position_only(),
            moved@.x == x && moved@.y == y,
            moved@.width == self@.width && moved@.height == self@.height,
            moved@.opaque == self@.opaque,
    {
        DisplayMode {
            width: self.width,
            height: self.height,
            x,
            y,
            fields: POSITION_FIELD,
            opaque: self.opaque,
        }
    }

    /// Whether the field selector names the position and nothing else.
    pub fn is_position_only(&self) -> (only: bool)
        ensures
            only == self@.is_position_only(),
    {
        self.fields == POSITION_FIELD
    }

    /// Resolution and position of the display.
    pub fn placement(&self) -> (place: Placement)
        ensures
            place == self@.placement(),
    {
        Placement { width: self.width, height: self.height, x: self.x, y: self.y }
    }

    /// A copy of the mode, field for field.
    pub fn duplicate(&self) -> (copy: DisplayMode)
        ensures
            copy@ == self@,
    {
        let opaque = self.opaque.clone();
        assert(opaque@ =~= self.opaque@);
        DisplayMode {
            width: self.width,
            height: self.height,
            x: self.x,
            y: self.y,
            fields: self.fields,
            opaque,
        }
    }
}

} // verus!
