//! Plain value types that cross the boundary by copy.
//!
//! Each type here is the safe form of a small C record or enumeration the
//! boundary passes by value; enumerations state the integer each variant
//! crosses as.

use vstd::prelude::*;

verus! {

/// A point in view coordinates.
#[derive(Clone, Copy, PartialEq, Eq, Structural, Debug)]
pub struct Point {
    pub x: i32,
    pub y: i32,
}

/// A width and height.
#[derive(Clone, Copy, PartialEq, Eq, Structural, Debug)]
pub struct Size {
    pub width: i32,
    pub height: i32,
}

/// A range of character positions.
#[derive(Clone, Copy, PartialEq, Eq, Structural, Debug)]
pub struct Range {
    pub from: u32,
    pub to: u32,
}

/// A mouse position with its modifier flags.
#[derive(Clone, Copy, PartialEq, Eq, Structural, Debug)]
pub struct MouseEvent {
    pub x: i32,
    pub y: i32,
    pub modifiers: u32,
}

/// Which mouse button an event is about.
#[derive(Clone, Copy, PartialEq, Eq, Structural, Debug)]
pub enum MouseButtonType {
    Left,
    Middle,
    Right,
}

impl MouseButtonType {
    /// The integer the boundary uses for this button.
    pub open spec fn code_spec(self) -> i32 {
        match self {
            MouseButtonType::Left => 0,
            MouseButtonType::Middle => 1,
            MouseButtonType::Right => 2,
        }
    }

    /// The integer the boundary uses for this button.
    pub fn code(self) -> (c: i32)
        ensures
            c == self.code_spec(),
    {
        match self {
            MouseButtonType::Left => 0,
            MouseButtonType::Middle => 1,
            MouseButtonType::Right => 2,
        }
    }
}

/// A three-valued setting: leave the default, force on, or force off.
#[derive(Clone, Copy, PartialEq, Eq, Structural, Debug)]
pub enum State {
    Default,
    Enabled,
    Disabled,
}

impl State {
    /// The integer the boundary uses for this setting.
    pub open spec fn code_spec(self) -> i32 {
        match self {
            State::Default => 0,
            State::Enabled => 1,
            State::Disabled => 2,
        }
    }

    /// The integer the boundary uses for this setting.
    pub fn code(self) -> (c: i32)
        ensures
            c == self.code_spec(),
    {
        match self {
            State::Default => 0,
            State::Enabled => 1,
            State::Disabled => 2,
        }
    }
}

/// The kind of file chooser dialog to display.
#[derive(Clone, Copy, PartialEq, Eq, Structural, Debug)]
pub enum FileDialogMode {
    /// Select one existing file.
    Open,
    /// Select multiple existing files.
    OpenMultiple,
    /// Select an existing folder.
    OpenFolder,
    /// Select a file name to save to.
    Save,
}

impl FileDialogMode {
    /// The integer the boundary uses for this mode.
    pub open spec fn code_spec(self) -> u32 {
        match self {
            FileDialogMode::Open => 0,
            FileDialogMode::OpenMultiple => 1,
            FileDialogMode::OpenFolder => 2,
            FileDialogMode::Save => 3,
        }
    }

    /// The integer the boundary uses for this mode.
    pub fn code(self) -> (c: u32)
        ensures
            c == self.code_spec(),
    {
        match self {
            FileDialogMode::Open => 0,
            FileDialogMode::OpenMultiple => 1,
            FileDialogMode::OpenFolder => 2,
            FileDialogMode::Save => 3,
        }
    }
}

/// A mask of allowed drag operations, crossed as its raw bits.
#[derive(Clone, Copy, PartialEq, Eq, Structural, Debug)]
pub struct DragOperation {
    pub bits: u32,
}

/// The settings record for printing to a file, marshaled whole; nothing
/// in it steers a decision on this side of the boundary.
#[derive(Clone, Copy, PartialEq, Eq, Structural, Debug)]
pub struct PDFPrintSettings;

/// One underlined range of a text composition.
#[derive(Clone, Copy, PartialEq, Eq, Structural, Debug)]
pub struct CompositionUnderline {
    pub range: Range,
    pub color: u32,
    pub background_color: u32,
    pub thick: i32,
}

/// A keyboard event record, marshaled whole; nothing in it steers a
/// decision on this side of the boundary.
#[derive(Clone, Copy, PartialEq, Eq, Structural, Debug)]
pub struct KeyEvent;

/// A touch event record, marshaled whole; nothing in it steers a decision
/// on this side of the boundary.
#[derive(Clone, Copy, PartialEq, Eq, Structural, Debug)]
pub struct TouchEvent;

/// The window parameters of a browser, marshaled whole; nothing in them
/// steers a decision on this side of the boundary.
#[derive(Clone, Copy, PartialEq, Eq, Structural, Debug)]
pub struct WindowInfo;

/// The settings record of a browser, marshaled whole; nothing in it
/// steers a decision on this side of the boundary.
#[derive(Clone, Copy, PartialEq, Eq, Structural, Debug)]
pub struct BrowserSettings;

} // verus!
