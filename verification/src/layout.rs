//! The HUD scene description: the static tree of container and text nodes
//! the engine layer spawns once at startup, and the display-side state those
//! nodes start out with.
//!
//! The tree is a flat list in spawn order; every node names its parent by an
//! earlier index. Sizes and positions are the engine layer's business; what
//! matters to the HUD logic is which node carries which [`HudElement`] tag,
//! which nodes are text nodes, their font sizes, colors and visibility.

use vstd::prelude::*;

use crate::color::{Color, COLOR_SCALE};
use crate::display::{DisplayNodes, HudElement, TextNode};

verus! {

/// The base font size; the bottom-center text doubles it and the center
/// text triples it.
pub const FONT_SIZE: u32 = 16;

/// What kind of display node to spawn.
#[derive(Clone, Copy, Debug, PartialEq, Eq, Structural)]
pub enum NodeKind {
    Container,
    Text,
}

/// One node of the HUD scene tree: its kind, its parent in the flat list,
/// the HUD slot it is tagged with (if any), its font size (text nodes only),
/// its color (background for containers, text color for text nodes) and
/// whether it starts visible.
#[derive(Clone, Copy, Debug, PartialEq, Eq, Structural)]
pub struct LayoutNode {
    pub kind: NodeKind,
    pub parent: Option<usize>,
    pub element: Option<HudElement>,
    pub font_size: u32,
    pub color: Color,
    pub visible: bool,
}

/// Every parent reference points to an earlier container node, so spawning
/// the list in order always finds the parent already spawned.
pub open spec fn parents_precede(nodes: Seq<LayoutNode>) -> bool {
    forall|i: int|
        0 <= i < nodes.len() ==> match (#[trigger] nodes[i]).parent {
            Some(p) => p < i && nodes[p as int].kind == NodeKind::Container,
            None => i == 0,
        }
}

/// The HUD scene tree, in spawn order: a transparent full-screen root, a
/// centering container with the center and bottom-center text nodes, the
/// top-left and top-right text nodes, the full-screen foreground overlay,
/// and the initially hidden console panel with its text node.
pub fn hud_layout() -> (nodes: Vec<LayoutNode>)
    ensures
        nodes@.len() == 9,
        nodes@[0] == (LayoutNode {
            kind: NodeKind::Container,
            parent: None,
            element: None,
            font_size: 0,
            color: Color { r: 0, g: 0, b: 0, a: 0 },
            visible: true,
        }),
        nodes@[1] == (LayoutNode {
            kind: NodeKind::Container,
            parent: Some(0usize),
            element: None,
            font_size: 0,
            color: Color { r: 0, g: 0, b: 0, a: 0 },
            visible: true,
        }),
        nodes@[2] == (LayoutNode {
            kind: NodeKind::Text,
            parent: Some(1usize),
            element: Some(HudElement::Center),
            font_size: (3 * FONT_SIZE) as u32,
            color: Color { r: COLOR_SCALE, g: COLOR_SCALE, b: COLOR_SCALE, a: COLOR_SCALE },
            visible: true,
        }),
        nodes@[3] == (LayoutNode {
            kind: NodeKind::Text,
            parent: Some(1usize),
            element: Some(HudElement::BottomCenter),
            font_size: (2 * FONT_SIZE) as u32,
            color: Color { r: COLOR_SCALE, g: COLOR_SCALE, b: COLOR_SCALE, a: COLOR_SCALE },
            visible: true,
        }),
        nodes@[4] == (LayoutNode {
            kind: NodeKind::Text,
            parent: Some(0usize),
            element: Some(HudElement::TopLeft),
            font_size: FONT_SIZE,
            color: Color { r: COLOR_SCALE, g: COLOR_SCALE, b: COLOR_SCALE, a: COLOR_SCALE },
            visible: true,
        }),
        nodes@[5] == (LayoutNode {
            kind: NodeKind::Text,
            parent: Some(0usize),
            element: Some(HudElement::TopRight),
            font_size: FONT_SIZE,
            color: Color { r: COLOR_SCALE, g: COLOR_SCALE, b: COLOR_SCALE, a: COLOR_SCALE },
            visible: true,
        }),
        nodes@[6] == (LayoutNode {
            kind: NodeKind::Container,
            parent: Some(0usize),
            element: Some(HudElement::Foreground),
            font_size: 0,
            color: Color { r: COLOR_SCALE, g: 0, b: 0, a: 500 },
            visible: true,
        }),
        nodes@[7] == (LayoutNode {
            kind: NodeKind::Container,
            parent: Some(0usize),
            element: Some(HudElement::Console),
            font_size: 0,
            color: Color { r: 0, g: 0, b: 0, a: 950 },
            visible: false,
        }),
        nodes@[8] == (LayoutNode {
            kind: NodeKind::Text,
            parent: Some(7usize),
            element: Some(HudElement::Console),
            font_size: FONT_SIZE,
            color: Color { r: COLOR_SCALE, g: COLOR_SCALE, b: COLOR_SCALE, a: COLOR_SCALE },
            visible: true,
        }),
        parents_precede(nodes@),
{
    let transparent = Color::none();
    let white = Color::white();
    let mut nodes: Vec<LayoutNode> = Vec::new();
    nodes.push(
        LayoutNode {
            kind: NodeKind::Container,
            parent: None,
            element: None,
            font_size: 0,
            color: transparent,
            visible: true,
        },
    );
    nodes.push(
        LayoutNode {
            kind: NodeKind::Container,
            parent: Some(0),
            element: None,
            font_size: 0,
            color: transparent,
            visible: true,
        },
    );
    nodes.push(
        LayoutNode {
            kind: NodeKind::Text,
            parent: Some(1),
            element: Some(HudElement::Center),
            font_size: 3 * FONT_SIZE,
            color: white,
            visible: true,
        },
    );
    nodes.push(
        LayoutNode {
            kind: NodeKind::Text,
            parent: Some(1),
            element: Some(HudElement::BottomCenter),
            font_size: 2 * FONT_SIZE,
            color: white,
            visible: true,
        },
    );
    nodes.push(
        LayoutNode {
            kind: NodeKind::Text,
            parent: Some(0),
            element: Some(HudElement::TopLeft),
            font_size: FONT_SIZE,
            color: white,
            visible: true,
        },
    );
    nodes.push(
        LayoutNode {
            kind: NodeKind::Text,
            parent: Some(0),
            element: Some(HudElement::TopRight),
            font_size: FONT_SIZE,
            color: white,
            visible: true,
        },
    );
    nodes.push(
        LayoutNode {
            kind: NodeKind::Container,
            parent: Some(0),
            element: Some(HudElement::Foreground),
            font_size: 0,
            color: Color::rgba(COLOR_SCALE, 0, 0, 500),
            visible: true,
        },
    );
    nodes.push(
        LayoutNode {
            kind: NodeKind::Container,
            parent: Some(0),
            element: Some(HudElement::Console),
            font_size: 0,
            color: Color::rgba(0, 0, 0, 950),
            visible: false,
        },
    );
    nodes.push(
        LayoutNode {
            kind: NodeKind::Text,
            parent: Some(7),
            element: Some(HudElement::Console),
            font_size: FONT_SIZE,
            color: white,
            visible: true,
        },
    );
    nodes
}

/// The display-side state matching a freshly spawned scene: every text node
/// holds one empty section, the overlay node shows its initial half-opaque
/// red, and the console starts hidden.
pub fn initial_display() -> (nodes: DisplayNodes)
    ensures
        nodes.wf(),
        nodes.top_left.sections@.len() == 1,
        nodes.top_right.sections@.len() == 1,
        nodes.center.sections@.len() == 1,
        nodes.bottom_center.sections@.len() == 1,
        nodes.console.sections@.len() == 1,
        nodes.top_left.sections@[0]@ == Seq::<char>::empty(),
        nodes.top_right.sections@[0]@ == Seq::<char>::empty(),
        nodes.center.sections@[0]@ == Seq::<char>::empty(),
        nodes.bottom_center.sections@[0]@ == Seq::<char>::empty(),
        nodes.console.sections@[0]@ == Seq::<char>::empty(),
        nodes.foreground_color == (Color { r: COLOR_SCALE, g: 0, b: 0, a: 500 }),
        nodes.console_visible == false,
{
    DisplayNodes {
        top_left: TextNode::new_empty(),
        top_right: TextNode::new_empty(),
        center: TextNode::new_empty(),
        bottom_center: TextNode::new_empty(),
        console: TextNode::new_empty(),
        foreground_color: Color::rgba(COLOR_SCALE, 0, 0, 500),
        console_visible: false,
    }
}

} // verus!
