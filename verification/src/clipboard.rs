//! Which programs may take a value to the clipboard, and in which order.

use vstd::prelude::*;

verus! {

/// A program that puts its input on the clipboard.
#[derive(Debug, Clone, Copy, PartialEq, Eq, Structural)]
pub enum ClipboardTool {
    /// `wl-copy`, for Wayland.
    WlCopy,
    /// `xclip -selection clipboard`, for X11.
    Xclip,
}

/// Why nothing reached the clipboard.
#[derive(Debug, Clone, Copy, PartialEq, Eq, Structural)]
pub enum ClipboardError {
    /// Neither a Wayland nor an X11 display is there.
    NoDisplay,
    /// Every program that was tried is missing or failed.
    Unavailable,
}

/// The programs to try, in order: `wl-copy` where a Wayland display is
/// there, then `xclip` where an X11 display is there.
pub open spec fn tools_to_try(has_wayland: bool, has_x11: bool) -> Seq<ClipboardTool> {
    (if has_wayland {
        seq![ClipboardTool::WlCopy]
    } else {
        Seq::empty()
    }) + (if has_x11 {
        seq![ClipboardTool::Xclip]
    } else {
        Seq::empty()
    })
}

/// Names the programs to try, in order; `NoDisplay` where there is no
/// display at all.
pub fn clipboard_tools(has_wayland: bool, has_x11: bool) -> (r: Result<
    Vec<ClipboardTool>,
    ClipboardError,
>)
    ensures
        match r {
            Ok(tools) => (has_wayland || has_x11) && tools@ == tools_to_try(has_wayland, has_x11),
            Err(e) => !has_wayland && !has_x11 && e == ClipboardError::NoDisplay,
        },
{
    if !has_wayland && !has_x11 {
        return Err(ClipboardError::NoDisplay);
    }
    let mut tools: Vec<ClipboardTool> = Vec::new();
    if has_wayland {
        tools.push(ClipboardTool::WlCopy);
    }
    if has_x11 {
        tools.push(ClipboardTool::Xclip);
    }
    assert(tools@ == tools_to_try(has_wayland, has_x11));
    Ok(tools)
}

/// What to do after the programs tried so far have all failed: try the
/// next one, or give up with `Unavailable` where none is left.
pub fn next_clipboard_tool(tools: &Vec<ClipboardTool>, failed: usize) -> (r: Result<
    ClipboardTool,
    ClipboardError,
>)
    ensures
        match r {
            Ok(tool) => failed < tools@.len() && tool == tools@[failed as int],
            Err(e) => failed >= tools@.len() && e == ClipboardError::Unavailable,
        },
{
    if failed < tools.len() {
        Ok(tools[failed])
    } else {
        Err(ClipboardError::Unavailable)
    }
}

} // verus!
