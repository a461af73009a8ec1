//! Radial menu: the ring of tools, the sub-rings under some of them and the colour ring,
//! and what hovering or selecting a segment does.
use vstd::prelude::*;

verus! {

/// A segment of the radial menu.
#[derive(Debug, Clone, Copy, PartialEq, Eq, Structural)]
pub enum RadialSegmentId {
    /// A segment of the tool ring, by index.
    Tool(u8),
    /// A child of the sub-ring under a tool: parent index, child index.
    SubTool(u8, u8),
    /// A segment of the colour ring, by index.
    Color(u8),
    /// The centre disc, which only dismisses the menu.
    Center,
}

/// The colours of the colour ring.
#[derive(Debug, Clone, Copy, PartialEq, Eq, Structural)]
pub enum RadialColor {
    Red,
    Green,
    Blue,
    Yellow,
    Orange,
    Pink,
    White,
    Black,
}

/// Drawing tools that the radial menu can select.
#[derive(Debug, Clone, Copy, PartialEq, Eq, Structural)]
pub enum RadialTool {
    Pen,
    Marker,
    Line,
    Arrow,
    Rect,
    Ellipse,
    Eraser,
    Select,
    StepMarker,
}

/// What choosing a segment asks of the input state.
#[derive(Debug, Clone, Copy, PartialEq, Eq, Structural)]
pub enum RadialCommand {
    /// Override the active tool.
    SetTool(RadialTool),
    /// Start plain text input at the centre of the surface (when idle).
    EnterText,
    /// Start a sticky note at the centre of the surface (when idle).
    EnterStickyNote,
    Undo,
    Redo,
    ClearCanvas,
    /// Apply a colour from the colour ring.
    ApplyColor(RadialColor),
    /// Nothing beyond closing the menu.
    Dismiss,
}

/// The outcome of selecting the hovered segment.
#[derive(Debug, Clone, Copy, PartialEq, Eq, Structural)]
pub enum RadialSelection {
    /// A parent with children was chosen: its sub-ring opens and the menu stays.
    ExpandSubRing(u8),
    /// The command runs and the menu closes.
    Run(RadialCommand),
}

/// Index of the shapes parent in the tool ring.
pub const SHAPES_PARENT: u8 = 4;
/// Index of the text parent in the tool ring.
pub const TEXT_PARENT: u8 = 5;
/// Index of the actions parent in the tool ring.
pub const ACTIONS_PARENT: u8 = 8;

pub open spec fn spec_color_for_index(idx: u8) -> RadialColor {
    if idx == 0 {
        RadialColor::Red
    } else if idx == 1 {
        RadialColor::Green
    } else if idx == 2 {
        RadialColor::Blue
    } else if idx == 3 {
        RadialColor::Yellow
    } else if idx == 4 {
        RadialColor::Orange
    } else if idx == 5 {
        RadialColor::Pink
    } else if idx == 6 {
        RadialColor::White
    } else if idx == 7 {
        RadialColor::Black
    } else {
        RadialColor::Red
    }
}

/// Maps a colour segment index to its colour; indices past the ring give red.
pub fn radial_color_for_index(idx: u8) -> (c: RadialColor)
    ensures
        c == spec_color_for_index(idx),
{
    match idx {
        0 => RadialColor::Red,
        1 => RadialColor::Green,
        2 => RadialColor::Blue,
        3 => RadialColor::Yellow,
        4 => RadialColor::Orange,
        5 => RadialColor::Pink,
        6 => RadialColor::White,
        7 => RadialColor::Black,
        _ => RadialColor::Red,
    }
}

/// Labels of the children of each parent, in ring order.
pub open spec fn spec_children(parent_idx: u8) -> Seq<Seq<char>> {
    if parent_idx == SHAPES_PARENT {
        seq!["Rect"@, "Ellipse"@]
    } else if parent_idx == TEXT_PARENT {
        seq!["Text"@, "Note"@, "Step"@]
    } else if parent_idx == ACTIONS_PARENT {
        seq!["Undo"@, "Redo"@, "Clear"@]
    } else {
        seq![]
    }
}

pub open spec fn spec_child_count(parent_idx: u8) -> nat {
    if parent_idx == SHAPES_PARENT {
        2
    } else if parent_idx == TEXT_PARENT {
        3
    } else if parent_idx == ACTIONS_PARENT {
        3
    } else {
        0
    }
}

/// The number of sub-ring children under a tool, or 0 for a tool without a sub-ring.
pub fn sub_ring_child_count(parent_idx: u8) -> (n: usize)
    ensures
        n == spec_child_count(parent_idx),
{
    match parent_idx {
        4 => 2,
        5 => 3,
        8 => 3,
        _ => 0,
    }
}

/// The label of a sub-ring child; empty for an index past the parent's children, or for
/// a tool without a sub-ring.
pub fn sub_ring_child_label(parent_idx: u8, child_idx: u8) -> (label: &'static str)
    ensures
        (child_idx as int) < spec_children(parent_idx).len() ==> label@ == spec_children(parent_idx)[child_idx as int],
        (child_idx as int) >= spec_children(parent_idx).len() ==> label@.len() == 0,
{
    proof {
        reveal_strlit("Rect");
        reveal_strlit("Ellipse");
        reveal_strlit("Text");
        reveal_strlit("Note");
        reveal_strlit("Step");
        reveal_strlit("Undo");
        reveal_strlit("Redo");
        reveal_strlit("Clear");
        reveal_strlit("");
    }
    if parent_idx == SHAPES_PARENT {
        match child_idx {
            0 => "Rect",
            1 => "Ellipse",
            _ => "",
        }
    } else if parent_idx == TEXT_PARENT {
        match child_idx {
            0 => "Text",
            1 => "Note",
            2 => "Step",
            _ => "",
        }
    } else if parent_idx == ACTIONS_PARENT {
        match child_idx {
            0 => "Undo",
            1 => "Redo",
            2 => "Clear",
            _ => "",
        }
    } else {
        ""
    }
}

/// The command behind a segment of the tool ring. The shapes parent defaults to the
/// rectangle and the text parent to plain text; the actions parent only opens its ring.
pub open spec fn spec_tool_command(idx: u8) -> RadialCommand {
    if idx == 0 {
        RadialCommand::SetTool(RadialTool::Pen)
    } else if idx == 1 {
        RadialCommand::SetTool(RadialTool::Marker)
    } else if idx == 2 {
        RadialCommand::SetTool(RadialTool::Line)
    } else if idx == 3 {
        RadialCommand::SetTool(RadialTool::Arrow)
    } else if idx == 4 {
        RadialCommand::SetTool(RadialTool::Rect)
    } else if idx == 5 {
        RadialCommand::EnterText
    } else if idx == 6 {
        RadialCommand::SetTool(RadialTool::Eraser)
    } else if idx == 7 {
        RadialCommand::SetTool(RadialTool::Select)
    } else {
        RadialCommand::Dismiss
    }
}

/// The command behind a child of a sub-ring.
pub open spec fn spec_sub_tool_command(parent: u8, child: u8) -> RadialCommand {
    if parent == SHAPES_PARENT && child == 0 {
        RadialCommand::SetTool(RadialTool::Rect)
    } else if parent == SHAPES_PARENT && child == 1 {
        RadialCommand::SetTool(RadialTool::Ellipse)
    } else if parent == TEXT_PARENT && child == 0 {
        RadialCommand::EnterText
    } else if parent == TEXT_PARENT && child == 1 {
        RadialCommand::EnterStickyNote
    } else if parent == TEXT_PARENT && child == 2 {
        RadialCommand::SetTool(RadialTool::StepMarker)
    } else if parent == ACTIONS_PARENT && child == 0 {
        RadialCommand::Undo
    } else if parent == ACTIONS_PARENT && child == 1 {
        RadialCommand::Redo
    } else if parent == ACTIONS_PARENT && child == 2 {
        RadialCommand::ClearCanvas
    } else {
        RadialCommand::Dismiss
    }
}

/// The colour ring shows every colour once: its eight segments give eight different
/// colours, and an index past the ring falls back to the first segment's red.
pub proof fn lemma_colour_ring_is_one_to_one(i: u8, j: u8, c: RadialColor)
    ensures
        i < 8 && j < 8 && i != j ==> spec_color_for_index(i) != spec_color_for_index(j),
        i >= 8 ==> spec_color_for_index(i) == spec_color_for_index(0),
        spec_color_for_index(0) == RadialColor::Red,
        exists|k: u8| k < 8 && #[trigger] spec_color_for_index(k) == c,
{
    match c {
        RadialColor::Red => assert(spec_color_for_index(0) == c),
        RadialColor::Green => assert(spec_color_for_index(1) == c),
        RadialColor::Blue => assert(spec_color_for_index(2) == c),
        RadialColor::Yellow => assert(spec_color_for_index(3) == c),
        RadialColor::Orange => assert(spec_color_for_index(4) == c),
        RadialColor::Pink => assert(spec_color_for_index(5) == c),
        RadialColor::White => assert(spec_color_for_index(6) == c),
        RadialColor::Black => assert(spec_color_for_index(7) == c),
    }
}

/// Whether some segment of the tool ring selects tool `t`.
pub open spec fn ring_offers(t: RadialTool) -> bool {
    exists|k: u8| k < 8 && #[trigger] spec_tool_command(k) == RadialCommand::SetTool(t)
}

/// The tool ring offers each of its commands once: its eight segments run eight different
/// commands, namely the pen, marker, line, arrow, rectangle, text, eraser and selection
/// tools, with the eraser on segment six next to the selection tool on seven. The shapes
/// and text segments run the first child of their sub-ring, and nothing past the ring's
/// eight command segments runs a command.
pub proof fn lemma_tool_ring_runs_distinct_tools(i: u8, j: u8)
    ensures
        i < 8 && j < 8 && i != j ==> spec_tool_command(i) != spec_tool_command(j),
        i < 8 ==> spec_tool_command(i) != RadialCommand::Dismiss,
        i >= 8 ==> spec_tool_command(i) == RadialCommand::Dismiss,
        spec_tool_command(0) == RadialCommand::SetTool(RadialTool::Pen),
        spec_tool_command(1) == RadialCommand::SetTool(RadialTool::Marker),
        spec_tool_command(2) == RadialCommand::SetTool(RadialTool::Line),
        spec_tool_command(3) == RadialCommand::SetTool(RadialTool::Arrow),
        spec_tool_command(6) == RadialCommand::SetTool(RadialTool::Eraser),
        spec_tool_command(7) == RadialCommand::SetTool(RadialTool::Select),
        spec_tool_command(SHAPES_PARENT) == spec_sub_tool_command(SHAPES_PARENT, 0),
        spec_tool_command(TEXT_PARENT) == spec_sub_tool_command(TEXT_PARENT, 0),
        forall|t: RadialTool| t != RadialTool::Ellipse && t != RadialTool::StepMarker ==> #[trigger] ring_offers(t),
{
    assert forall|t: RadialTool| t != RadialTool::Ellipse && t != RadialTool::StepMarker implies #[trigger] ring_offers(t) by {
        match t {
            RadialTool::Pen => assert(spec_tool_command(0) == RadialCommand::SetTool(t)),
            RadialTool::Marker => assert(spec_tool_command(1) == RadialCommand::SetTool(t)),
            RadialTool::Line => assert(spec_tool_command(2) == RadialCommand::SetTool(t)),
            RadialTool::Arrow => assert(spec_tool_command(3) == RadialCommand::SetTool(t)),
            RadialTool::Rect => assert(spec_tool_command(4) == RadialCommand::SetTool(t)),
            RadialTool::Eraser => assert(spec_tool_command(6) == RadialCommand::SetTool(t)),
            RadialTool::Select => assert(spec_tool_command(7) == RadialCommand::SetTool(t)),
            _ => {},
        }
    }
}

fn tool_command(idx: u8) -> (c: RadialCommand)
    ensures
        c == spec_tool_command(idx),
{
    match idx {
        0 => RadialCommand::SetTool(RadialTool::Pen),
        1 => RadialCommand::SetTool(RadialTool::Marker),
        2 => RadialCommand::SetTool(RadialTool::Line),
        3 => RadialCommand::SetTool(RadialTool::Arrow),
        4 => RadialCommand::SetTool(RadialTool::Rect),
        5 => RadialCommand::EnterText,
        6 => RadialCommand::SetTool(RadialTool::Eraser),
        7 => RadialCommand::SetTool(RadialTool::Select),
        _ => RadialCommand::Dismiss,
    }
}

fn sub_tool_command(parent: u8, child: u8) -> (c: RadialCommand)
    ensures
        c == spec_sub_tool_command(parent, child),
{
    if parent == SHAPES_PARENT {
        match child {
            0 => RadialCommand::SetTool(RadialTool::Rect),
            1 => RadialCommand::SetTool(RadialTool::Ellipse),
            _ => RadialCommand::Dismiss,
        }
    } else if parent == TEXT_PARENT {
        match child {
            0 => RadialCommand::EnterText,
            1 => RadialCommand::EnterStickyNote,
            2 => RadialCommand::SetTool(RadialTool::StepMarker),
            _ => RadialCommand::Dismiss,
        }
    } else if parent == ACTIONS_PARENT {
        match child {
            0 => RadialCommand::Undo,
            1 => RadialCommand::Redo,
            2 => RadialCommand::ClearCanvas,
            _ => RadialCommand::Dismiss,
        }
    } else {
        RadialCommand::Dismiss
    }
}

/// What selecting the hovered segment does: a parent with children opens its sub-ring,
/// anything else runs its command (none for the centre or no hover) and closes the menu.
pub open spec fn spec_select(hover: Option<RadialSegmentId>) -> RadialSelection {
    match hover {
        Some(RadialSegmentId::Tool(idx)) => if spec_child_count(idx) > 0 {
            RadialSelection::ExpandSubRing(idx)
        } else {
            RadialSelection::Run(spec_tool_command(idx))
        },
        Some(RadialSegmentId::SubTool(parent, child)) => RadialSelection::Run(spec_sub_tool_command(parent, child)),
        Some(RadialSegmentId::Color(idx)) => RadialSelection::Run(RadialCommand::ApplyColor(spec_color_for_index(idx))),
        _ => RadialSelection::Run(RadialCommand::Dismiss),
    }
}

/// The sub-ring that stays expanded after the pointer moves onto `segment`. A parent with
/// children expands its own ring; a child keeps the ring; in a gap the ring stays only while
/// the pointer is within the sub-ring's distance band; another tool, a colour or the centre
/// collapses it.
pub open spec fn spec_hover_expansion(segment: Option<RadialSegmentId>, expanded: Option<u8>, in_sub_band: bool) -> Option<u8> {
    match segment {
        Some(RadialSegmentId::Tool(idx)) => if idx == SHAPES_PARENT || idx == TEXT_PARENT || idx == ACTIONS_PARENT {
            Some(idx)
        } else {
            None
        },
        Some(RadialSegmentId::SubTool(_, _)) => expanded,
        Some(RadialSegmentId::Color(_)) => None,
        Some(RadialSegmentId::Center) => None,
        None => if expanded is Some && !in_sub_band {
            None
        } else {
            expanded
        },
    }
}

/// State of the radial menu. Centre coordinates are in surface pixels.
#[derive(Debug, Clone, Copy, PartialEq, Eq, Structural)]
pub enum RadialMenuState {
    Hidden,
    Open { center_x: i32, center_y: i32, hover: Option<RadialSegmentId>, expanded_sub_ring: Option<u8> },
}

impl RadialMenuState {
    /// Whether the radial menu is currently visible.
    pub fn is_radial_menu_open(&self) -> (b: bool)
        ensures
            b == (*self is Open),
    {
        matches!(self, RadialMenuState::Open { .. })
    }

    /// Opens the menu centred on a point, with nothing hovered or expanded.
    pub fn open_radial_menu(&mut self, x: i32, y: i32)
        ensures
            *final(self) == (RadialMenuState::Open { center_x: x, center_y: y, hover: None, expanded_sub_ring: None }),
    {
        *self = RadialMenuState::Open { center_x: x, center_y: y, hover: None, expanded_sub_ring: None };
    }

    /// Closes the menu; returns whether it was open (and so a redraw is due).
    pub fn close_radial_menu(&mut self) -> (closed: bool)
        ensures
            closed == (*old(self) is Open),
            *final(self) == RadialMenuState::Hidden,
    {
        let was_open = self.is_radial_menu_open();
        *self = RadialMenuState::Hidden;
        was_open
    }

    /// Closes an open menu, or opens a closed one at the given point.
    pub fn toggle_radial_menu(&mut self, x: i32, y: i32)
        ensures
            *old(self) is Open ==> *final(self) == RadialMenuState::Hidden,
            *old(self) is Hidden ==> *final(self) == (RadialMenuState::Open {
                center_x: x,
                center_y: y,
                hover: None,
                expanded_sub_ring: None,
            }),
    {
        if self.is_radial_menu_open() {
            self.close_radial_menu();
        } else {
            self.open_radial_menu(x, y);
        }
    }

    /// Records the segment under the pointer (as hit-tested by the caller, with
    /// `in_sub_band` telling whether the pointer lies within the sub-ring's distance band)
    /// and expands or collapses the sub-ring. Returns whether anything changed, so that a
    /// redraw is due. A hidden menu ignores the pointer.
    pub fn update_radial_menu_hover(&mut self, segment: Option<RadialSegmentId>, in_sub_band: bool) -> (changed: bool)
        ensures
            match *old(self) {
                RadialMenuState::Hidden => *final(self) == RadialMenuState::Hidden && !changed,
                RadialMenuState::Open { center_x, center_y, hover, expanded_sub_ring } => {
                    let next = spec_hover_expansion(segment, expanded_sub_ring, in_sub_band);
                    &&& *final(self) == (RadialMenuState::Open {
                        center_x,
                        center_y,
                        hover: segment,
                        expanded_sub_ring: next,
                    })
                    &&& changed == (hover != segment || expanded_sub_ring != next)
                },
            },
    {
        match *self {
            RadialMenuState::Hidden => false,
            RadialMenuState::Open { center_x, center_y, hover, expanded_sub_ring } => {
                let next = match segment {
                    Some(RadialSegmentId::Tool(idx)) => if idx == SHAPES_PARENT || idx == TEXT_PARENT || idx
                        == ACTIONS_PARENT {
                        Some(idx)
                    } else {
                        None
                    },
                    Some(RadialSegmentId::SubTool(_, _)) => expanded_sub_ring,
                    Some(RadialSegmentId::Color(_)) => None,
                    Some(RadialSegmentId::Center) => None,
                    None => if expanded_sub_ring.is_some() && !in_sub_band {
                        None
                    } else {
                        expanded_sub_ring
                    },
                };
                *self = RadialMenuState::Open { center_x, center_y, hover: segment, expanded_sub_ring: next };
                hover != segment || expanded_sub_ring != next
            },
        }
    }

    /// Selects the hovered segment. A parent with children expands its sub-ring and the
    /// menu stays open; otherwise the menu closes and the returned command is to run.
    /// A hidden menu does nothing and returns `None`.
    pub fn radial_menu_select_hovered(&mut self) -> (sel: Option<RadialSelection>)
        ensures
            match *old(self) {
                RadialMenuState::Hidden => *final(self) == RadialMenuState::Hidden && sel is None,
                RadialMenuState::Open { center_x, center_y, hover, expanded_sub_ring } => {
                    &&& sel == Some(spec_select(hover))
                    &&& match spec_select(hover) {
                        RadialSelection::ExpandSubRing(idx) => *final(self) == (RadialMenuState::Open {
                            center_x,
                            center_y,
                            hover,
                            expanded_sub_ring: Some(idx),
                        }),
                        RadialSelection::Run(_) => *final(self) == RadialMenuState::Hidden,
                    }
                },
            },
    {
        match *self {
            RadialMenuState::Hidden => None,
            RadialMenuState::Open { center_x, center_y, hover, expanded_sub_ring: _ } => {
                let selection = match hover {
                    Some(RadialSegmentId::Tool(idx)) => if sub_ring_child_count(idx) > 0 {
                        RadialSelection::ExpandSubRing(idx)
                    } else {
                        RadialSelection::Run(tool_command(idx))
                    },
                    Some(RadialSegmentId::SubTool(parent, child)) => RadialSelection::Run(
                        sub_tool_command(parent, child),
                    ),
                    Some(RadialSegmentId::Color(idx)) => RadialSelection::Run(
                        RadialCommand::ApplyColor(radial_color_for_index(idx)),
                    ),
                    _ => RadialSelection::Run(RadialCommand::Dismiss),
                };
                match selection {
                    RadialSelection::ExpandSubRing(idx) => {
                        *self = RadialMenuState::Open { center_x, center_y, hover, expanded_sub_ring: Some(idx) };
                    },
                    RadialSelection::Run(_) => {
                        *self = RadialMenuState::Hidden;
                    },
                }
                Some(selection)
            },
        }
    }
}

/// Every parent that the tool ring expands on hover is exactly a parent with children,
/// and selecting any child of it runs a command of that sub-ring (never a bare dismiss).
pub proof fn lemma_sub_rings_consistent(parent: u8, child: u8)
    ensures
        (parent == SHAPES_PARENT || parent == TEXT_PARENT || parent == ACTIONS_PARENT) <==> spec_child_count(
            parent,
        ) > 0,
        spec_child_count(parent) == spec_children(parent).len(),
        (child as int) < spec_child_count(parent) ==> spec_sub_tool_command(parent, child) != RadialCommand::Dismiss,
{
}


/// The popups that opening the radial menu closes first (they are mutually exclusive with
/// it): each one that is open. The colour picker closes restoring its original colour.
#[derive(Debug, Clone, Copy, PartialEq, Eq, Structural)]
pub struct PopupsToClose {
    pub help_overlay: bool,
    pub context_menu: bool,
    pub color_picker: bool,
    pub properties_panel: bool,
    pub command_palette: bool,
}

pub fn popups_closed_by_radial_menu(
    help_shown: bool,
    context_menu_open: bool,
    color_picker_open: bool,
    properties_panel_open: bool,
    command_palette_open: bool,
) -> (p: PopupsToClose)
    ensures
        p == (PopupsToClose {
            help_overlay: help_shown,
            context_menu: context_menu_open,
            color_picker: color_picker_open,
            properties_panel: properties_panel_open,
            command_palette: command_palette_open,
        }),
{
    PopupsToClose {
        help_overlay: help_shown,
        context_menu: context_menu_open,
        color_picker: color_picker_open,
        properties_panel: properties_panel_open,
        command_palette: command_palette_open,
    }
}

} // verus!
