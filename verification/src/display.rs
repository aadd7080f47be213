//! Synchronization of HUD state into display nodes.
//!
//! The scene holds one text node per HUD text slot, a full-screen overlay
//! node with a color, and a console node with a visibility flag.
//! Synchronization is dirty-flagged: a frame on which the backing state did
//! not change issues no writes at all, and a text write is skipped when the
//! node already shows the value. Each function reports how many writes it
//! issued, so redundant work stays observable.

use vstd::prelude::*;

use crate::color::Color;
use crate::hud::Hud;

verus! {

/// Which HUD slot a display node belongs to.
#[derive(Clone, Copy, Debug, PartialEq, Eq, Structural)]
pub enum HudElement {
    TopLeft,
    Center,
    TopRight,
    Foreground,
    BottomCenter,
    Console,
}

/// The HUD text slot a tagged text node shows, if the tag names one.
pub open spec fn hud_text_for(hud: Hud, element: HudElement) -> Option<Seq<char>> {
    match element {
        HudElement::TopLeft => Some(hud.top_left_text@),
        HudElement::Center => Some(hud.center_text@),
        HudElement::TopRight => Some(hud.top_right_text@),
        HudElement::BottomCenter => Some(hud.bottom_center_text@),
        HudElement::Console => Some(hud.console_text@),
        HudElement::Foreground => None,
    }
}

/// Routes a node's tag to the HUD text slot that drives it; the foreground
/// tag drives a color, not a text.
pub fn text_for<'a>(hud: &'a Hud, element: HudElement) -> (r: Option<&'a String>)
    ensures
        match hud_text_for(*hud, element) {
            Some(s) => r matches Some(v) && v@ == s,
            None => r is None,
        },
{
    match element {
        HudElement::TopLeft => Some(&hud.top_left_text),
        HudElement::Center => Some(&hud.center_text),
        HudElement::TopRight => Some(&hud.top_right_text),
        HudElement::BottomCenter => Some(&hud.bottom_center_text),
        HudElement::Console => Some(&hud.console_text),
        HudElement::Foreground => None,
    }
}

/// A text node of the scene: a non-empty list of sections; only the first
/// section is ever driven by the HUD.
pub struct TextNode {
    pub sections: Vec<String>,
}

/// The display-side state the HUD drives: the five text nodes, the overlay
/// node's color and the console node's visibility.
pub struct DisplayNodes {
    pub top_left: TextNode,
    pub top_right: TextNode,
    pub center: TextNode,
    pub bottom_center: TextNode,
    pub console: TextNode,
    pub foreground_color: Color,
    pub console_visible: bool,
}

impl TextNode {
    /// The structural invariant: a text node holds at least one section.
    pub open spec fn wf(self) -> bool {
        self.sections@.len() >= 1
    }

    /// A fresh node with a single empty section.
    pub fn new_empty() -> (t: TextNode)
        ensures
            t.sections@.len() == 1,
            t.sections@[0]@ == Seq::<char>::empty(),
            t.wf(),
    {
        let mut sections: Vec<String> = Vec::new();
        sections.push(String::new());
        TextNode { sections }
    }
}

/// The node shows `value` in its first section; nothing else about it
/// changed, and it was not touched at all if it already showed `value`.
pub open spec fn shows(node0: TextNode, node1: TextNode, value: Seq<char>) -> bool {
    &&& node1.sections@.len() == node0.sections@.len()
    &&& node1.sections@[0]@ == value
    &&& (forall|j: int| 1 <= j < node0.sections@.len() ==> node1.sections@[j] == node0.sections@[j])
    &&& (node0.sections@[0]@ == value ==> node1 == node0)
}

/// The node's first section differs from `value`, so a sync must write.
pub open spec fn stale(node: TextNode, value: Seq<char>) -> bool {
    node.sections@[0]@ != value
}

impl DisplayNodes {
    /// All five text nodes hold at least one section.
    pub open spec fn wf(self) -> bool {
        self.top_left.wf() && self.top_right.wf() && self.center.wf()
            && self.bottom_center.wf() && self.console.wf()
    }
}

/// Writes `value` into the node's first section, skipping the write when the
/// node already shows it. Returns whether a write was issued.
pub fn set_text(text: &mut TextNode, value: &String) -> (wrote: bool)
    requires
        old(text).wf(),
    ensures
        shows(*old(text), *final(text), value@),
        final(text).wf(),
        wrote == stale(*old(text), value@),
{
    if text.sections[0] == *value {
        false
    } else {
        text.sections[0] = value.clone();
        true
    }
}

/// Copies every HUD text slot into its display node, but only on frames on
/// which the HUD changed (`changed` is the engine's change flag for the HUD
/// state). Returns the number of section writes issued: zero when nothing
/// changed, and zero again once every node already shows its slot.
pub fn update_text(hud: &Hud, changed: bool, nodes: &mut DisplayNodes) -> (writes: usize)
    requires
        old(nodes).wf(),
    ensures
        final(nodes).wf(),
        !changed ==> *final(nodes) == *old(nodes) && writes == 0,
        changed ==> {
            &&& shows(old(nodes).top_left, final(nodes).top_left, hud.top_left_text@)
            &&& shows(old(nodes).top_right, final(nodes).top_right, hud.top_right_text@)
            &&& shows(old(nodes).center, final(nodes).center, hud.center_text@)
            &&& shows(old(nodes).bottom_center, final(nodes).bottom_center, hud.bottom_center_text@)
            &&& shows(old(nodes).console, final(nodes).console, hud.console_text@)
            &&& final(nodes).foreground_color == old(nodes).foreground_color
            &&& final(nodes).console_visible == old(nodes).console_visible
            &&& writes == (if stale(old(nodes).top_left, hud.top_left_text@) { 1int } else { 0 })
                + (if stale(old(nodes).top_right, hud.top_right_text@) { 1int } else { 0 })
                + (if stale(old(nodes).center, hud.center_text@) { 1int } else { 0 })
                + (if stale(old(nodes).bottom_center, hud.bottom_center_text@) { 1int } else { 0 })
                + (if stale(old(nodes).console, hud.console_text@) { 1int } else { 0 })
        },
{
    if !changed {
        return 0;
    }
    let mut writes: usize = 0;
    if set_text(&mut nodes.top_left, &hud.top_left_text) {
        writes += 1;
    }
    if set_text(&mut nodes.top_right, &hud.top_right_text) {
        writes += 1;
    }
    if set_text(&mut nodes.center, &hud.center_text) {
        writes += 1;
    }
    if set_text(&mut nodes.bottom_center, &hud.bottom_center_text) {
        writes += 1;
    }
    if set_text(&mut nodes.console, &hud.console_text) {
        writes += 1;
    }
    writes
}

/// Copies the HUD's overlay color into the overlay node, but only on frames
/// on which the HUD changed. Returns the number of color writes issued.
pub fn update_foreground(hud: &Hud, changed: bool, nodes: &mut DisplayNodes) -> (writes: usize)
    ensures
        !changed ==> *final(nodes) == *old(nodes) && writes == 0,
        changed ==> *final(nodes) == (DisplayNodes {
            foreground_color: hud.foreground,
            ..*old(nodes)
        }) && writes == 1,
{
    if changed {
        nodes.foreground_color = hud.foreground;
        1
    } else {
        0
    }
}

/// Mirrors the external log buffer into the HUD's console text: a verbatim
/// copy whenever the two differ, touching nothing else. Returns whether a
/// copy happened, so the caller can treat the HUD as changed this frame.
pub fn mirror_console(hud: &mut Hud, console_log: &String) -> (copied: bool)
    ensures
        copied == (old(hud).console_text@ != console_log@),
        final(hud).console_text@ == console_log@,
        !copied ==> *final(hud) == *old(hud),
        copied ==> *final(hud) == (Hud { console_text: final(hud).console_text, ..*old(hud) }),
{
    if hud.console_text == *console_log {
        false
    } else {
        hud.console_text = console_log.clone();
        true
    }
}

/// Mirrors the external log buffer into the HUD's console text, then pushes
/// the console's visibility toggle to the console node. The copy happens
/// before the change check, so a log change alone makes the visibility (and
/// the same frame's text sync) run. Returns whether the log was copied.
pub fn update_console(
    hud: &mut Hud,
    console_log: &String,
    hud_changed: bool,
    nodes: &mut DisplayNodes,
) -> (copied: bool)
    ensures
        copied == (old(hud).console_text@ != console_log@),
        final(hud).console_text@ == console_log@,
        !copied ==> *final(hud) == *old(hud),
        copied ==> *final(hud) == (Hud { console_text: final(hud).console_text, ..*old(hud) }),
        hud_changed || copied ==> *final(nodes) == (DisplayNodes {
            console_visible: final(hud).show_console,
            ..*old(nodes)
        }),
        !(hud_changed || copied) ==> *final(nodes) == *old(nodes),
{
    let copied = mirror_console(hud, console_log);
    if hud_changed || copied {
        nodes.console_visible = hud.show_console;
    }
    copied
}

} // verus!
