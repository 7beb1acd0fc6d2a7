//! Enumerations shared across the boundary.

use vstd::prelude::*;

verus! {

/// The cursor icons a caller can ask a window to show.
#[derive(Debug, Clone, Copy, PartialEq, Eq, Structural, Default)]
pub enum GlutinCursorIcon {
    /// The platform-dependent default cursor.
    #[default]
    Default,
    /// A simple crosshair.
    Crosshair,
    /// A hand, often used to indicate links.
    Hand,
    /// A plain arrow.
    Arrow,
    /// Indicates something is to be moved.
    Move,
    /// Indicates text that may be selected or edited.
    Text,
    /// Program busy indicator.
    Wait,
    /// Help indicator.
    Help,
    /// Progress indicator; the user may still interact.
    Progress,
    /// Something cannot be done.
    NotAllowed,
    /// A context menu is available.
    ContextMenu,
    /// A table cell.
    Cell,
    /// Vertical text selection.
    VerticalText,
    /// An alias or shortcut is to be made.
    Alias,
    /// Something is to be copied.
    Copy,
    /// The dragged item cannot be dropped here.
    NoDrop,
    /// Something can be grabbed.
    Grab,
    /// Something is being grabbed.
    Grabbing,
    /// Scrolling in any direction.
    AllScroll,
    /// Zooming in.
    ZoomIn,
    /// Zooming out.
    ZoomOut,
    /// Resizing from the east edge.
    EResize,
    /// Resizing from the north edge.
    NResize,
    /// Resizing from the north-east corner.
    NeResize,
    /// Resizing from the north-west corner.
    NwResize,
    /// Resizing from the south edge.
    SResize,
    /// Resizing from the south-east corner.
    SeResize,
    /// Resizing from the south-west corner.
    SwResize,
    /// Resizing from the west edge.
    WResize,
    /// Resizing horizontally.
    EwResize,
    /// Resizing vertically.
    NsResize,
    /// Resizing along the north-east/south-west diagonal.
    NeswResize,
    /// Resizing along the north-west/south-east diagonal.
    NwseResize,
    /// Resizing a column.
    ColResize,
    /// Resizing a row.
    RowResize,
}

} // verus!
