//! The output side of the bridge: the GUI library's per-frame output reduced
//! to plain values, the fixed cursor-icon table, and the side effects the
//! caller must perform after a frame ends.

use vstd::prelude::*;

verus! {

/// The cursor icon the GUI library requests at the end of a frame. `Other`
/// stands for every icon the table does not name; it resolves to the arrow.
#[derive(Clone, Copy, Debug, PartialEq, Eq, Structural)]
pub enum CursorIcon {
    Default,
    Crosshair,
    Grab,
    Grabbing,
    Move,
    PointingHand,
    ResizeHorizontal,
    ResizeNeSw,
    ResizeNwSe,
    ResizeVertical,
    Text,
    NotAllowed,
    NoDrop,
    Wait,
    Other,
}

/// The platform's system cursor identifiers this bridge applies.
#[derive(Clone, Copy, Debug, PartialEq, Eq, Structural)]
pub enum SystemCursor {
    Arrow,
    Crosshair,
    Hand,
    SizeAll,
    SizeWE,
    SizeNESW,
    SizeNWSE,
    SizeNS,
    IBeam,
    No,
    Wait,
}

/// The fixed cursor table: crosshair to crosshair, default to arrow, grab
/// and pointing-hand to hand, grabbing and move to size-all, the resize
/// icons to the matching size cursors, text to I-beam, not-allowed and
/// no-drop to no, wait to wait, and anything unrecognized to arrow.
pub open spec fn spec_map_cursor(icon: CursorIcon) -> SystemCursor {
    match icon {
        CursorIcon::Crosshair => SystemCursor::Crosshair,
        CursorIcon::Default => SystemCursor::Arrow,
        CursorIcon::Grab => SystemCursor::Hand,
        CursorIcon::Grabbing => SystemCursor::SizeAll,
        CursorIcon::Move => SystemCursor::SizeAll,
        CursorIcon::PointingHand => SystemCursor::Hand,
        CursorIcon::ResizeHorizontal => SystemCursor::SizeWE,
        CursorIcon::ResizeNeSw => SystemCursor::SizeNESW,
        CursorIcon::ResizeNwSe => SystemCursor::SizeNWSE,
        CursorIcon::ResizeVertical => SystemCursor::SizeNS,
        CursorIcon::Text => SystemCursor::IBeam,
        CursorIcon::NotAllowed => SystemCursor::No,
        CursorIcon::NoDrop => SystemCursor::No,
        CursorIcon::Wait => SystemCursor::Wait,
        CursorIcon::Other => SystemCursor::Arrow,
    }
}

/// Resolve a requested cursor icon to a system cursor identifier.
pub fn map_cursor(icon: CursorIcon) -> (r: SystemCursor)
    ensures
        r == spec_map_cursor(icon),
{
    match icon {
        CursorIcon::Crosshair => SystemCursor::Crosshair,
        CursorIcon::Default => SystemCursor::Arrow,
        CursorIcon::Grab => SystemCursor::Hand,
        CursorIcon::Grabbing => SystemCursor::SizeAll,
        CursorIcon::Move => SystemCursor::SizeAll,
        CursorIcon::PointingHand => SystemCursor::Hand,
        CursorIcon::ResizeHorizontal => SystemCursor::SizeWE,
        CursorIcon::ResizeNeSw => SystemCursor::SizeNESW,
        CursorIcon::ResizeNwSe => SystemCursor::SizeNWSE,
        CursorIcon::ResizeVertical => SystemCursor::SizeNS,
        CursorIcon::Text => SystemCursor::IBeam,
        CursorIcon::NotAllowed => SystemCursor::No,
        CursorIcon::NoDrop => SystemCursor::No,
        CursorIcon::Wait => SystemCursor::Wait,
        CursorIcon::Other => SystemCursor::Arrow,
    }
}

/// A platform-output command from the GUI library. Only clipboard writes are
/// acted on; `Other` stands for the commands this bridge ignores.
#[derive(Debug, PartialEq)]
pub enum OutputCommand {
    CopyText { text: String },
    Other,
}

/// The GUI library's end-of-frame output, reduced to what the lifecycle
/// reads: the platform-output commands and the requested cursor icon.
#[derive(Debug, PartialEq)]
pub struct GuiOutput {
    pub commands: Vec<OutputCommand>,
    pub cursor_icon: CursorIcon,
}

/// The side effects the caller must perform after `end_frame`: the clipboard
/// writes in command order, and at most one cursor resource to create and
/// activate.
#[derive(Debug, PartialEq)]
pub struct FrameEffects {
    pub clipboard_writes: Vec<String>,
    pub cursor_change: Option<SystemCursor>,
}

/// The texts of the clipboard-write commands, in command order.
pub open spec fn copy_texts(cmds: Seq<OutputCommand>) -> Seq<String>
    decreases cmds.len(),
{
    if cmds.len() == 0 {
        Seq::empty()
    } else {
        let rest = copy_texts(cmds.drop_last());
        match cmds.last() {
            OutputCommand::CopyText { text } => rest.push(text),
            OutputCommand::Other => rest,
        }
    }
}

/// Collect the clipboard-write texts of a command list, in order.
pub fn collect_copy_texts(cmds: &Vec<OutputCommand>) -> (r: Vec<String>)
    ensures
        r@ == copy_texts(cmds@),
{
    let mut r: Vec<String> = Vec::new();
    let mut i: usize = 0;
    while i < cmds.len()
        invariant
            i <= cmds.len(),
            r@ == copy_texts(cmds@.take(i as int)),
        decreases cmds.len() - i,
    {
        proof {
            assert(cmds@.take(i + 1).drop_last() =~= cmds@.take(i as int));
            assert(cmds@.take(i + 1).last() == cmds@[i as int]);
        }
        match &cmds[i] {
            OutputCommand::CopyText { text } => {
                r.push(text.clone());
            },
            OutputCommand::Other => {},
        }
        i = i + 1;
    }
    proof {
        assert(cmds@.take(cmds@.len() as int) =~= cmds@);
    }
    r
}

} // verus!
