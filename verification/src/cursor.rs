//! The Godot cursor shape shown for each cursor the browser engine asks for.
use vstd::prelude::*;

verus! {

/// A cursor the browser engine asks for, after the CSS `cursor` values.
#[derive(Clone, Copy, Debug, PartialEq, Eq, Structural)]
pub enum Cursor {
    /// CSS `none`: no cursor is shown.
    Hidden,
    Default,
    Pointer,
    ContextMenu,
    Help,
    Progress,
    Wait,
    Cell,
    Crosshair,
    Text,
    VerticalText,
    Alias,
    Copy,
    Move,
    NoDrop,
    NotAllowed,
    Grab,
    Grabbing,
    EResize,
    NResize,
    NeResize,
    NwResize,
    SResize,
    SeResize,
    SwResize,
    WResize,
    EwResize,
    NsResize,
    NeswResize,
    NwseResize,
    ColResize,
    RowResize,
    AllScroll,
    ZoomIn,
    ZoomOut,
}

/// A Godot control's cursor shape.
#[derive(Clone, Copy, Debug, PartialEq, Eq, Structural)]
pub enum CursorShape {
    Arrow,
    Ibeam,
    PointingHand,
    Cross,
    Wait,
    Busy,
    Drag,
    CanDrop,
    Forbidden,
    Vsize,
    Hsize,
    Bdiagsize,
    Fdiagsize,
    Move,
    Vsplit,
    Hsplit,
    Help,
}

/// The cursor shape shown for a browser cursor; cursors without a Godot
/// counterpart show the arrow.
pub open spec fn cursor_shape_of(cursor: Cursor) -> CursorShape {
    match cursor {
        Cursor::Pointer => CursorShape::PointingHand,
        Cursor::Help => CursorShape::Help,
        Cursor::Progress => CursorShape::Busy,
        Cursor::Wait => CursorShape::Wait,
        Cursor::Crosshair => CursorShape::Cross,
        Cursor::Text => CursorShape::Ibeam,
        Cursor::VerticalText => CursorShape::Ibeam,
        Cursor::Move => CursorShape::Move,
        Cursor::NoDrop => CursorShape::Forbidden,
        Cursor::NotAllowed => CursorShape::Forbidden,
        Cursor::EResize => CursorShape::Hsize,
        Cursor::NResize => CursorShape::Vsize,
        Cursor::NeResize => CursorShape::Bdiagsize,
        Cursor::NwResize => CursorShape::Fdiagsize,
        Cursor::SResize => CursorShape::Vsize,
        Cursor::SeResize => CursorShape::Fdiagsize,
        Cursor::SwResize => CursorShape::Bdiagsize,
        Cursor::WResize => CursorShape::Hsize,
        Cursor::EwResize => CursorShape::Hsize,
        Cursor::NsResize => CursorShape::Bdiagsize,
        Cursor::NeswResize => CursorShape::Bdiagsize,
        Cursor::NwseResize => CursorShape::Fdiagsize,
        Cursor::ColResize => CursorShape::Hsplit,
        Cursor::RowResize => CursorShape::Vsplit,
        Cursor::AllScroll => CursorShape::Drag,
        _ => CursorShape::Arrow,
    }
}

/// Maps a browser cursor to the Godot cursor shape to show.
pub fn cursor_to_shape(cursor: Cursor) -> (shape: CursorShape)
    ensures
        shape == cursor_shape_of(cursor),
{
    match cursor {
        Cursor::Pointer => CursorShape::PointingHand,
        Cursor::Help => CursorShape::Help,
        Cursor::Progress => CursorShape::Busy,
        Cursor::Wait => CursorShape::Wait,
        Cursor::Crosshair => CursorShape::Cross,
        Cursor::Text => CursorShape::Ibeam,
        Cursor::VerticalText => CursorShape::Ibeam,
        Cursor::Move => CursorShape::Move,
        Cursor::NoDrop => CursorShape::Forbidden,
        Cursor::NotAllowed => CursorShape::Forbidden,
        Cursor::EResize => CursorShape::Hsize,
        Cursor::NResize => CursorShape::Vsize,
        Cursor::NeResize => CursorShape::Bdiagsize,
        Cursor::NwResize => CursorShape::Fdiagsize,
        Cursor::SResize => CursorShape::Vsize,
        Cursor::SeResize => CursorShape::Fdiagsize,
        Cursor::SwResize => CursorShape::Bdiagsize,
        Cursor::WResize => CursorShape::Hsize,
        Cursor::EwResize => CursorShape::Hsize,
        Cursor::NsResize => CursorShape::Bdiagsize,
        Cursor::NeswResize => CursorShape::Bdiagsize,
        Cursor::NwseResize => CursorShape::Fdiagsize,
        Cursor::ColResize => CursorShape::Hsplit,
        Cursor::RowResize => CursorShape::Vsplit,
        Cursor::AllScroll => CursorShape::Drag,
        _ => CursorShape::Arrow,
    }
}

/// The resize cursor for the opposite direction, for a one-way resize cursor.
pub open spec fn opposite_resize(cursor: Cursor) -> Option<Cursor> {
    match cursor {
        Cursor::NResize => Some(Cursor::SResize),
        Cursor::SResize => Some(Cursor::NResize),
        Cursor::EResize => Some(Cursor::WResize),
        Cursor::WResize => Some(Cursor::EResize),
        Cursor::NeResize => Some(Cursor::SwResize),
        Cursor::SwResize => Some(Cursor::NeResize),
        Cursor::NwResize => Some(Cursor::SeResize),
        Cursor::SeResize => Some(Cursor::NwResize),
        _ => None,
    }
}

/// A resize cursor and the one for the opposite direction show the same shape.
pub proof fn lemma_opposite_resize_cursors_agree(cursor: Cursor)
    ensures
        opposite_resize(cursor) matches Some(other) ==> cursor_shape_of(cursor) == cursor_shape_of(
            other,
        ),
{
}

/// The cursors for which a Godot cursor shape is shown, grouped by shape.
pub open spec fn shown_with(shape: CursorShape, cursor: Cursor) -> bool {
    match shape {
        CursorShape::PointingHand => cursor == Cursor::Pointer,
        CursorShape::Help => cursor == Cursor::Help,
        CursorShape::Busy => cursor == Cursor::Progress,
        CursorShape::Wait => cursor == Cursor::Wait,
        CursorShape::Cross => cursor == Cursor::Crosshair,
        CursorShape::Ibeam => cursor == Cursor::Text || cursor == Cursor::VerticalText,
        CursorShape::Move => cursor == Cursor::Move,
        CursorShape::Forbidden => cursor == Cursor::NoDrop || cursor == Cursor::NotAllowed,
        CursorShape::Hsize => cursor == Cursor::EResize || cursor == Cursor::WResize || cursor
            == Cursor::EwResize,
        CursorShape::Vsize => cursor == Cursor::NResize || cursor == Cursor::SResize,
        CursorShape::Bdiagsize => cursor == Cursor::NeResize || cursor == Cursor::SwResize
            || cursor == Cursor::NeswResize || cursor == Cursor::NsResize,
        CursorShape::Fdiagsize => cursor == Cursor::NwResize || cursor == Cursor::SeResize
            || cursor == Cursor::NwseResize,
        CursorShape::Hsplit => cursor == Cursor::ColResize,
        CursorShape::Vsplit => cursor == Cursor::RowResize,
        CursorShape::Drag => cursor == Cursor::AllScroll,
        CursorShape::CanDrop => false,
        CursorShape::Arrow => cursor == Cursor::Hidden || cursor == Cursor::Default || cursor
            == Cursor::ContextMenu || cursor == Cursor::Cell || cursor == Cursor::Alias || cursor
            == Cursor::Copy || cursor == Cursor::Grab || cursor == Cursor::Grabbing || cursor
            == Cursor::ZoomIn || cursor == Cursor::ZoomOut,
    }
}

/// A browser cursor shows a Godot shape exactly when it is among the cursors
/// listed for that shape: every cursor shows exactly one shape, the listed one.
pub proof fn lemma_cursor_shape_matches_listing(cursor: Cursor, shape: CursorShape)
    ensures
        cursor_shape_of(cursor) == shape <==> shown_with(shape, cursor),
{
}

/// The two one-way resize cursors at the ends of a two-way resize cursor,
/// for the two-way cursors whose ends agree on a shape.
pub open spec fn resize_ends(cursor: Cursor) -> Option<(Cursor, Cursor)> {
    match cursor {
        Cursor::EwResize => Some((Cursor::EResize, Cursor::WResize)),
        Cursor::NeswResize => Some((Cursor::NeResize, Cursor::SwResize)),
        Cursor::NwseResize => Some((Cursor::NwResize, Cursor::SeResize)),
        _ => None,
    }
}

/// A two-way resize cursor shows the same shape as each of its one-way ends.
pub proof fn lemma_two_way_resize_matches_ends(cursor: Cursor)
    ensures
        resize_ends(cursor) matches Some((a, b)) ==> cursor_shape_of(cursor) == cursor_shape_of(a)
            && cursor_shape_of(cursor) == cursor_shape_of(b),
{
}

} // verus!
