use vstd::prelude::*;

use crate::arrows::{ArrowConnect, ArrowMeta};

verus! {

/// Which corner of a rectangle a resize handle sits on.
#[derive(Clone, Copy, Debug, PartialEq, Eq, Structural)]
pub enum ResizeMarker {
    TopLeft,
    TopRight,
    BottomLeft,
    BottomRight,
}

/// The mouse cursor shapes the board asks for.
#[derive(Clone, Copy, Debug, PartialEq, Eq, Structural)]
pub enum CursorKind {
    Default,
    Text,
    Move,
    NwseResize,
    NeswResize,
}

/// How the pointer stands toward a widget.
#[derive(Clone, Copy, Debug, PartialEq, Eq, Structural)]
pub enum Interaction {
    Clicked,
    Hovered,
    Idle,
}

impl ResizeMarker {
    /// Whether the handle sits on the right edge.
    pub open spec fn is_right(self) -> bool {
        self == ResizeMarker::TopRight || self == ResizeMarker::BottomRight
    }

    /// Whether the handle sits on the bottom edge.
    pub open spec fn is_bottom(self) -> bool {
        self == ResizeMarker::BottomLeft || self == ResizeMarker::BottomRight
    }

    /// How the width follows a horizontal drag of this handle: `1` when it
    /// grows as the handle moves right, `-1` when it shrinks.
    pub fn width_sign(self) -> (r: i8)
        ensures
            r == if self.is_right() {
                1i8
            } else {
                -1i8
            },
    {
        match self {
            ResizeMarker::TopRight | ResizeMarker::BottomRight => 1,
            ResizeMarker::TopLeft | ResizeMarker::BottomLeft => -1,
        }
    }

    /// How the height follows a vertical drag of this handle: `1` when it
    /// grows as the handle moves down, `-1` when it shrinks.
    pub fn height_sign(self) -> (r: i8)
        ensures
            r == if self.is_bottom() {
                1i8
            } else {
                -1i8
            },
    {
        match self {
            ResizeMarker::BottomLeft | ResizeMarker::BottomRight => 1,
            ResizeMarker::TopLeft | ResizeMarker::TopRight => -1,
        }
    }

    /// The cursor shown over this handle: a diagonal double arrow along the
    /// diagonal the corner lies on.
    pub fn cursor(self) -> (r: CursorKind)
        ensures
            r == if self.is_right() == self.is_bottom() {
                CursorKind::NwseResize
            } else {
                CursorKind::NeswResize
            },
    {
        match self {
            ResizeMarker::TopLeft | ResizeMarker::BottomRight => CursorKind::NwseResize,
            ResizeMarker::TopRight | ResizeMarker::BottomLeft => CursorKind::NeswResize,
        }
    }
}

/// What the board remembers between frames about the rectangles.
#[derive(Clone, Copy, Debug)]
pub struct AppState {
    /// The rectangle whose text receives typed characters.
    pub entity_to_edit: Option<u32>,
    /// The rectangle being dragged.
    pub hold_entity: Option<u32>,
    /// The id given to the last rectangle created.
    pub entity_counter: u32,
    /// The rectangle being resized, and by which handle.
    pub entity_to_resize: Option<(u32, ResizeMarker)>,
    /// The connector an arrow being drawn starts from.
    pub line_to_draw_start: Option<ArrowConnect>,
}

/// What a click on a connector does.
#[derive(Clone, Copy, Debug, PartialEq, Eq, Structural)]
pub enum ConnectAction {
    /// An arrow now starts from this connector.
    Started(ArrowConnect),
    /// This arrow is to be drawn.
    Connected(ArrowMeta),
}

impl AppState {
    /// A board with nothing selected and no rectangle created.
    pub fn new() -> (r: AppState)
        ensures
            r.entity_to_edit.is_none(),
            r.hold_entity.is_none(),
            r.entity_counter == 0,
            r.entity_to_resize.is_none(),
            r.line_to_draw_start.is_none(),
    {
        AppState {
            entity_to_edit: None,
            hold_entity: None,
            entity_counter: 0,
            entity_to_resize: None,
            line_to_draw_start: None,
        }
    }

    /// Hands out the id of a new rectangle.
    pub fn next_entity_id(&mut self) -> (r: u32)
        requires
            old(self).entity_counter < u32::MAX,
        ensures
            r == old(self).entity_counter + 1,
            *final(self) == (AppState { entity_counter: r, ..*old(self) }),
    {
        self.entity_counter = self.entity_counter + 1;
        self.entity_counter
    }

    /// Reacts to a click on connector `c`: the first click of a pair starts
    /// an arrow there, the second one finishes it.
    pub fn connect_click(&mut self, c: ArrowConnect) -> (r: ConnectAction)
        ensures
            match old(self).line_to_draw_start {
                Some(start) => {
                    &&& r == ConnectAction::Connected(ArrowMeta { start, end: c })
                    &&& *final(self) == (AppState { line_to_draw_start: None, ..*old(self) })
                },
                None => {
                    &&& r == ConnectAction::Started(c)
                    &&& *final(self) == (AppState { line_to_draw_start: Some(c), ..*old(self) })
                },
            },
    {
        match self.line_to_draw_start {
            Some(start) => {
                self.line_to_draw_start = None;
                ConnectAction::Connected(ArrowMeta { start, end: c })
            },
            None => {
                self.line_to_draw_start = Some(c);
                ConnectAction::Started(c)
            },
        }
    }

    /// Reacts to the pointer on rectangle `id`: a click grabs it, hovering
    /// makes it the one that receives text, leaving it ends that. Returns the
    /// cursor to show, if it changes.
    pub fn rectangle_interaction(&mut self, id: u32, interaction: Interaction) -> (r: Option<
        CursorKind,
    >)
        ensures
            interaction == Interaction::Clicked ==> {
                &&& r.is_none()
                &&& *final(self) == (AppState { hold_entity: Some(id), ..*old(self) })
            },
            interaction == Interaction::Hovered ==> {
                &&& r == Some(
                    if old(self).hold_entity.is_none() {
                        CursorKind::Move
                    } else {
                        CursorKind::Text
                    },
                )
                &&& *final(self) == (AppState { entity_to_edit: Some(id), ..*old(self) })
            },
            interaction == Interaction::Idle ==> {
                &&& r == Some(CursorKind::Default)
                &&& *final(self) == (AppState { entity_to_edit: None, ..*old(self) })
            },
    {
        match interaction {
            Interaction::Clicked => {
                self.hold_entity = Some(id);
                None
            },
            Interaction::Hovered => {
                self.entity_to_edit = Some(id);
                if self.hold_entity.is_none() {
                    Some(CursorKind::Move)
                } else {
                    Some(CursorKind::Text)
                }
            },
            Interaction::Idle => {
                self.entity_to_edit = None;
                Some(CursorKind::Default)
            },
        }
    }

    /// The left button went up: nothing is dragged or resized any more.
    pub fn release_left(&mut self)
        ensures
            *final(self) == (AppState {
                hold_entity: None,
                entity_to_resize: None,
                ..*old(self)
            }),
    {
        self.hold_entity = None;
        self.entity_to_resize = None;
    }

    /// Reacts to the pointer on the `marker` handle of rectangle `id`: a
    /// click starts resizing, hovering asks for the handle's cursor.
    pub fn resize_handle_interaction(
        &mut self,
        id: u32,
        marker: ResizeMarker,
        interaction: Interaction,
    ) -> (r: Option<CursorKind>)
        ensures
            interaction == Interaction::Clicked ==> {
                &&& r.is_none()
                &&& *final(self) == (AppState {
                    entity_to_resize: Some((id, marker)),
                    ..*old(self)
                })
            },
            interaction == Interaction::Hovered ==> {
                &&& r == Some(
                    if marker.is_right() == marker.is_bottom() {
                        CursorKind::NwseResize
                    } else {
                        CursorKind::NeswResize
                    },
                )
                &&& *final(self) == *old(self)
            },
            interaction == Interaction::Idle ==> {
                &&& r.is_none()
                &&& *final(self) == *old(self)
            },
    {
        match interaction {
            Interaction::Clicked => {
                self.entity_to_resize = Some((id, marker));
                None
            },
            Interaction::Hovered => Some(marker.cursor()),
            Interaction::Idle => None,
        }
    }
}

} // verus!
